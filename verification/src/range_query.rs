//! The two-call protocol by which DirectWrite hands out the Unicode ranges
//! of a font: a sizing call without a buffer reports how many ranges there
//! are, and a second call fills a buffer of that size.
//!
//! The calls themselves are made by the caller; this module decides what
//! follows each of them.

use vstd::prelude::*;

use crate::hresult::{insufficient_buffer_hresult, spec_insufficient_buffer_hresult};
use crate::unicode_range::UnicodeRange;

verus! {

/// What follows the sizing call.
#[derive(Debug, PartialEq, Eq, Structural)]
pub enum SizingDecision {
    /// The call failed with this HRESULT; the query fails with it.
    Abort(i32),
    /// The font has no ranges; the query succeeds with none.
    NoRanges,
    /// Allocate a buffer for this many ranges and make the filling call.
    Allocate(u32),
}

/// The decision after a sizing call that returned `status` and reported
/// `reported_count` ranges. `ERROR_INSUFFICIENT_BUFFER` is the documented
/// answer to a call without a buffer, so it counts as success.
pub open spec fn spec_decide_after_sizing(status: Result<(), i32>, reported_count: u32) -> SizingDecision {
    match status {
        Err(code) if code != spec_insufficient_buffer_hresult() => SizingDecision::Abort(code),
        _ => if reported_count == 0 {
            SizingDecision::NoRanges
        } else {
            SizingDecision::Allocate(reported_count)
        },
    }
}

/// Decides what follows the sizing call of a range query.
pub fn decide_after_sizing(status: Result<(), i32>, reported_count: u32) -> (d: SizingDecision)
    ensures
        d == spec_decide_after_sizing(status, reported_count),
        (status is Ok || status == Err::<(), i32>(-2147024774i32)) ==> {
            &&& (reported_count == 0 <==> d == SizingDecision::NoRanges)
            &&& (reported_count > 0 ==> d == SizingDecision::Allocate(reported_count))
        },
        (status matches Err(code) && code != -2147024774i32) ==> d == SizingDecision::Abort(status->Err_0),
{
    proof {
        crate::hresult::lemma_insufficient_buffer_hresult();
    }
    let insufficient = insufficient_buffer_hresult();
    match status {
        Err(code) => {
            if code != insufficient {
                return SizingDecision::Abort(code);
            }
        },
        Ok(()) => {},
    }
    if reported_count == 0 {
        SizingDecision::NoRanges
    } else {
        SizingDecision::Allocate(reported_count)
    }
}

/// A zeroed buffer for `capacity` ranges, for the filling call to write.
pub fn range_buffer(capacity: u32) -> (buffer: Vec<UnicodeRange>)
    ensures
        buffer@.len() == capacity,
        forall|i: int| 0 <= i < buffer@.len() ==> #[trigger] buffer@[i] == (UnicodeRange { first: 0, last: 0 }),
{
    let mut buffer: Vec<UnicodeRange> = Vec::new();
    let mut n: u32 = 0;
    while n < capacity
        invariant
            n <= capacity,
            buffer@.len() == n,
            forall|i: int| 0 <= i < buffer@.len() ==> #[trigger] buffer@[i] == (UnicodeRange { first: 0, last: 0 }),
        decreases capacity - n,
    {
        buffer.push(UnicodeRange { first: 0, last: 0 });
        n = n + 1;
    }
    buffer
}

/// The ranges a finished query yields from the filled `buffer`: those the
/// filling call reported, cut to what the buffer holds.
pub open spec fn spec_reported_ranges(buffer: Seq<UnicodeRange>, reported_count: u32) -> Seq<UnicodeRange> {
    if reported_count <= buffer.len() {
        buffer.take(reported_count as int)
    } else {
        buffer
    }
}

/// Finishes a query after the filling call returned `status`, left
/// `buffer` filled and reported `reported_count` ranges.
pub fn finish_range_query(status: Result<(), i32>, buffer: Vec<UnicodeRange>, reported_count: u32) -> (r: Result<Vec<UnicodeRange>, i32>)
    ensures
        status matches Err(code) ==> r == Err::<Vec<UnicodeRange>, i32>(code),
        status is Ok ==> (r matches Ok(ranges) && ranges@ == spec_reported_ranges(buffer@, reported_count)),
        status is Ok && reported_count <= buffer@.len() ==> (r matches Ok(ranges) && ranges@.len() == reported_count
            && forall|i: int| 0 <= i < reported_count ==> #[trigger] ranges@[i] == buffer@[i]),
        status is Ok && reported_count > buffer@.len() ==> (r matches Ok(ranges) && ranges@ == buffer@),
{
    match status {
        Err(code) => Err(code),
        Ok(()) => {
            let mut ranges = buffer;
            ranges.truncate(reported_count as usize);
            Ok(ranges)
        },
    }
}

/// The insufficient-buffer status of a sizing call leads where a
/// successful sizing call would: it never aborts the query. After either,
/// a font reporting no ranges yields none, and a font reporting `n > 0`
/// ranges gets a buffer for exactly `n`.
pub proof fn lemma_insufficient_buffer_sizing_succeeds(reported_count: u32)
    ensures
        spec_decide_after_sizing(Err(-2147024774i32), reported_count)
            == spec_decide_after_sizing(Ok(()), reported_count),
        !(spec_decide_after_sizing(Err(-2147024774i32), reported_count) is Abort),
        reported_count == 0 ==> spec_decide_after_sizing(Ok(()), reported_count) == SizingDecision::NoRanges,
        reported_count > 0 ==> spec_decide_after_sizing(Ok(()), reported_count) == SizingDecision::Allocate(reported_count),
        reported_count > 0 ==> spec_decide_after_sizing(Err(-2147024774i32), reported_count) == SizingDecision::Allocate(reported_count),
{
    crate::hresult::lemma_insufficient_buffer_hresult();
}

/// Any other failure of the sizing call aborts the query with that HRESULT,
/// whatever count it reported.
pub proof fn lemma_other_sizing_failure_aborts(code: i32, reported_count: u32)
    requires
        code != -2147024774i32,
    ensures
        spec_decide_after_sizing(Err(code), reported_count) == SizingDecision::Abort(code),
{
    crate::hresult::lemma_insufficient_buffer_hresult();
}

/// A query whose filling call succeeds yields exactly the reported number
/// of ranges when the buffer holds them, the whole buffer otherwise, each
/// range as the filling call left it in the buffer.
pub proof fn lemma_finished_query_is_buffer_prefix(buffer: Seq<UnicodeRange>, reported_count: u32)
    ensures
        reported_count <= buffer.len() ==> spec_reported_ranges(buffer, reported_count).len() == reported_count,
        reported_count > buffer.len() ==> spec_reported_ranges(buffer, reported_count) == buffer,
        spec_reported_ranges(buffer, reported_count).len() <= buffer.len(),
        spec_reported_ranges(buffer, reported_count).len() <= reported_count,
        forall|i: int| 0 <= i < spec_reported_ranges(buffer, reported_count).len()
            ==> #[trigger] spec_reported_ranges(buffer, reported_count)[i] == buffer[i],
{
}

} // verus!
