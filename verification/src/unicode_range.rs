//! Inclusive ranges of Unicode code points, as DirectWrite reports and
//! consumes them.

use vstd::prelude::*;

verus! {

/// An inclusive range `first..=last` of code points.
#[derive(Clone, Copy, Debug, PartialEq, Eq, Structural)]
pub struct UnicodeRange {
    pub first: u32,
    pub last: u32,
}

impl UnicodeRange {
    /// Whether `cp` lies in the range.
    pub open spec fn contains(self, cp: int) -> bool {
        self.first <= cp <= self.last
    }

    /// A range is well formed when it is not empty.
    pub open spec fn well_formed(self) -> bool {
        self.first <= self.last
    }
}

impl Default for UnicodeRange {
    /// The all-zero range, which fills a buffer before DirectWrite writes it.
    fn default() -> (r: Self)
        ensures
            r.first == 0,
            r.last == 0,
    {
        UnicodeRange { first: 0, last: 0 }
    }
}

/// Whether a code point lies in one of Unicode's private use areas: the
/// BMP area U+E000..U+F8FF and the supplementary areas of planes 15 and 16.
pub open spec fn is_private_use(cp: int) -> bool {
    ||| 0xE000 <= cp <= 0xF8FF
    ||| 0xF0000 <= cp <= 0xFFFFD
    ||| 0x100000 <= cp <= 0x10FFFD
}

/// Whether some range of `ranges` contains `cp`.
pub open spec fn covers(ranges: Seq<UnicodeRange>, cp: int) -> bool {
    exists|i: int| 0 <= i < ranges.len() && (#[trigger] ranges[i]).contains(cp)
}

/// The private use ranges that prompt icons of the bundled font live in,
/// in ascending order.
pub fn private_use_ranges() -> (r: Vec<UnicodeRange>)
    ensures
        r@ == seq![
            UnicodeRange { first: 0xE000, last: 0xF8FF },
            UnicodeRange { first: 0xF0000, last: 0xFFFFD },
            UnicodeRange { first: 0x100000, last: 0x10FFFD },
        ],
        forall|i: int| 0 <= i < r@.len() ==> (#[trigger] r@[i]).well_formed(),
        forall|i: int, j: int| 0 <= i < j < r@.len() ==> r@[i].last < r@[j].first,
        forall|cp: int| covers(r@, cp) <==> is_private_use(cp),
{
    let r = vec![
        UnicodeRange { first: 0xE000, last: 0xF8FF },
        UnicodeRange { first: 0xF0000, last: 0xFFFFD },
        UnicodeRange { first: 0x100000, last: 0x10FFFD },
    ];
    assert forall|cp: int| covers(r@, cp) <==> is_private_use(cp) by {
        if is_private_use(cp) {
            if 0xE000 <= cp <= 0xF8FF {
                assert(r@[0].contains(cp));
            } else if 0xF0000 <= cp <= 0xFFFFD {
                assert(r@[1].contains(cp));
            } else {
                assert(r@[2].contains(cp));
            }
        }
    }
    r
}

} // verus!
