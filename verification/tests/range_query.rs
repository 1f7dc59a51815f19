use font_loader::hresult::{insufficient_buffer_hresult, ERROR_INSUFFICIENT_BUFFER};
use font_loader::range_query::{decide_after_sizing, finish_range_query, range_buffer, SizingDecision};
use font_loader::unicode_range::{private_use_ranges, UnicodeRange};

/// Runs the two-call range query against `get_ranges`, as a DirectWrite
/// caller does.
fn run_query(
    mut get_ranges: impl FnMut(Option<&mut [UnicodeRange]>, &mut u32) -> Result<(), i32>,
) -> Result<Vec<UnicodeRange>, i32> {
    let mut range_count = 0u32;
    let status = get_ranges(None, &mut range_count);
    match decide_after_sizing(status, range_count) {
        SizingDecision::Abort(code) => Err(code),
        SizingDecision::NoRanges => Ok(Vec::new()),
        SizingDecision::Allocate(capacity) => {
            let mut buffer = range_buffer(capacity);
            let status = get_ranges(Some(&mut buffer), &mut range_count);
            finish_range_query(status, buffer, range_count)
        }
    }
}

fn insufficient_buffer() -> i32 {
    windows_result::HRESULT::from_win32(122).0
}

#[test]
fn unicode_range_query_treats_sizing_error_as_expected() {
    let expected = [
        UnicodeRange { first: 0x4E00, last: 0x9FFF },
        UnicodeRange { first: 0xE000, last: 0xF8FF },
    ];
    let mut calls = 0;
    let ranges = run_query(|buffer, actual_count| {
        calls += 1;
        *actual_count = expected.len() as u32;
        let Some(buffer) = buffer else {
            return Err(insufficient_buffer());
        };
        buffer.copy_from_slice(&expected);
        Ok(())
    })
    .expect("the expected sizing HRESULT should not abort the query");

    assert_eq!(calls, 2);
    assert_eq!(ranges.len(), expected.len());
    assert_eq!(ranges[0].first, 0x4E00);
    assert_eq!(ranges[1].last, 0xF8FF);
}

#[test]
fn insufficient_buffer_hresult_matches_windows_result() {
    assert_eq!(ERROR_INSUFFICIENT_BUFFER, 122);
    assert_eq!(insufficient_buffer_hresult(), insufficient_buffer());
    assert_eq!(insufficient_buffer_hresult(), 0x8007_007Au32 as i32);
}

#[test]
fn sizing_failure_other_than_insufficient_buffer_aborts() {
    let e_fail = 0x8000_4005u32 as i32;
    assert_eq!(decide_after_sizing(Err(e_fail), 3), SizingDecision::Abort(e_fail));
    let calls_made = std::cell::Cell::new(0);
    let result = run_query(|_, count| {
        calls_made.set(calls_made.get() + 1);
        *count = 4;
        Err(e_fail)
    });
    assert_eq!(result, Err(e_fail));
    assert_eq!(calls_made.get(), 1);
}

#[test]
fn sizing_success_and_insufficient_buffer_decide_alike() {
    for count in [0u32, 1, 7] {
        assert_eq!(decide_after_sizing(Ok(()), count), decide_after_sizing(Err(insufficient_buffer()), count));
    }
    assert_eq!(decide_after_sizing(Ok(()), 0), SizingDecision::NoRanges);
    assert_eq!(decide_after_sizing(Err(insufficient_buffer()), 0), SizingDecision::NoRanges);
    assert_eq!(decide_after_sizing(Ok(()), 5), SizingDecision::Allocate(5));
}

#[test]
fn font_without_ranges_yields_none_after_one_call() {
    let mut calls = 0;
    let ranges = run_query(|_, count| {
        calls += 1;
        *count = 0;
        Ok(())
    });
    assert_eq!(ranges, Ok(Vec::new()));
    assert_eq!(calls, 1);
}

#[test]
fn filling_failure_is_returned() {
    let e_unexpected = 0x8000_FFFFu32 as i32;
    let ranges = run_query(|buffer, count| {
        *count = 2;
        match buffer {
            None => Err(insufficient_buffer()),
            Some(_) => Err(e_unexpected),
        }
    });
    assert_eq!(ranges, Err(e_unexpected));
}

#[test]
fn range_buffer_is_zeroed() {
    let buffer = range_buffer(3);
    assert_eq!(buffer, vec![UnicodeRange { first: 0, last: 0 }; 3]);
    assert!(range_buffer(0).is_empty());
    assert_eq!(UnicodeRange::default(), UnicodeRange { first: 0, last: 0 });
}

#[test]
fn finished_query_keeps_only_the_reported_ranges() {
    let buffer = vec![
        UnicodeRange { first: 1, last: 2 },
        UnicodeRange { first: 3, last: 4 },
        UnicodeRange { first: 5, last: 6 },
    ];
    assert_eq!(finish_range_query(Ok(()), buffer.clone(), 2), Ok(buffer[..2].to_vec()));
    assert_eq!(finish_range_query(Ok(()), buffer.clone(), 3), Ok(buffer.clone()));
    assert_eq!(finish_range_query(Ok(()), buffer.clone(), 9), Ok(buffer.clone()));
    assert_eq!(finish_range_query(Ok(()), buffer.clone(), 0), Ok(Vec::new()));
    assert_eq!(finish_range_query(Err(-1), buffer, 2), Err(-1));
}

#[test]
fn private_use_ranges_are_the_unicode_private_use_areas() {
    assert_eq!(
        private_use_ranges(),
        vec![
            UnicodeRange { first: 0xE000, last: 0xF8FF },
            UnicodeRange { first: 0xF0000, last: 0xFFFFD },
            UnicodeRange { first: 0x100000, last: 0x10FFFD },
        ]
    );
}
