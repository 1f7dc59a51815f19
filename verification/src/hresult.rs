//! Win32 error codes and the HRESULT values they map to.

use vstd::prelude::*;

verus! {

/// `ERROR_INSUFFICIENT_BUFFER`: the Win32 error a sizing call reports when
/// it was handed no (or too small a) buffer.
pub const ERROR_INSUFFICIENT_BUFFER: u32 = 122;

/// The HRESULT that wraps a Win32 error code (`HRESULT_FROM_WIN32`):
/// codes that are zero or already look like failure HRESULTs are kept,
/// the others get the `FACILITY_WIN32` failure prefix.
pub open spec fn hresult_from_win32(code: u32) -> i32 {
    if (code as i32) <= 0 {
        code as i32
    } else {
        ((code & 0xFFFFu32) | 0x0007_0000u32 | 0x8000_0000u32) as i32
    }
}

/// Maps a Win32 error code to its HRESULT through
/// `windows_result::HRESULT::from_win32`, the conversion behind
/// `WIN32_ERROR::to_hresult`. Claimed: the result is `hresult_from_win32(code)`,
/// which is the body of that function written as a spec.
#[verifier::external_body]
fn win32_to_hresult(code: u32) -> (r: i32)
    ensures
        r == hresult_from_win32(code),
{
    windows_result::HRESULT::from_win32(code).0
}

/// The HRESULT of `ERROR_INSUFFICIENT_BUFFER` (`0x8007007A`, or -2147024774 as an `i32`), which
/// DirectWrite returns from a sizing call made without a buffer.
pub open spec fn spec_insufficient_buffer_hresult() -> i32 {
    hresult_from_win32(ERROR_INSUFFICIENT_BUFFER)
}

/// The HRESULT of `ERROR_INSUFFICIENT_BUFFER` is `0x8007007A`, which as an
/// `i32` is -2147024774.
pub proof fn lemma_insufficient_buffer_hresult()
    ensures
        spec_insufficient_buffer_hresult() == -2147024774i32,
{
    assert(hresult_from_win32(122u32) == -2147024774i32) by (bit_vector);
}

/// Computes the HRESULT of `ERROR_INSUFFICIENT_BUFFER`.
pub fn insufficient_buffer_hresult() -> (r: i32)
    ensures
        r == spec_insufficient_buffer_hresult(),
        r == -2147024774i32,
{
    let r = win32_to_hresult(ERROR_INSUFFICIENT_BUFFER);
    proof {
        lemma_insufficient_buffer_hresult();
    }
    r
}

} // verus!
