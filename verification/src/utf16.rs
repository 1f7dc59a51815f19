//! NUL-terminated UTF-16 encoding of family names, the form that
//! DirectWrite's `PCWSTR` parameters take.

use vstd::prelude::*;

verus! {

/// The UTF-16 code units of one character: the code point itself in the
/// basic multilingual plane, a high and a low surrogate above it.
pub open spec fn utf16_units(c: char) -> Seq<u16> {
    let v = c as u32;
    if v < 0x10000 {
        seq![v as u16]
    } else {
        seq![(0xD800 + (v - 0x10000) / 0x400) as u16, (0xDC00 + (v - 0x10000) % 0x400) as u16]
    }
}

/// The UTF-16 encoding of a character sequence.
pub open spec fn utf16_encode(s: Seq<char>) -> Seq<u16>
    decreases s.len(),
{
    if s.len() == 0 {
        Seq::empty()
    } else {
        utf16_encode(s.drop_last()) + utf16_units(s.last())
    }
}

/// The UTF-16 encoding of `s` followed by a terminating NUL unit.
pub open spec fn utf16_nul_terminated(s: Seq<char>) -> Seq<u16> {
    utf16_encode(s).push(0u16)
}

/// Whether a code unit is a high (leading) surrogate.
pub open spec fn is_high_surrogate(u: u16) -> bool {
    0xD800 <= u <= 0xDBFF
}

/// Whether a code unit is a low (trailing) surrogate.
pub open spec fn is_low_surrogate(u: u16) -> bool {
    0xDC00 <= u <= 0xDFFF
}

/// Standard UTF-16 decoding, read from the end: a high surrogate followed
/// by a low surrogate is one supplementary character, any other unit is
/// the character with that code point.
pub open spec fn utf16_decode(units: Seq<u16>) -> Seq<char>
    decreases units.len(),
{
    if units.len() == 0 {
        Seq::empty()
    } else if units.len() >= 2 && is_high_surrogate(units[units.len() - 2]) && is_low_surrogate(units.last()) {
        let hi = units[units.len() - 2] as int;
        let lo = units.last() as int;
        utf16_decode(units.take(units.len() - 2)).push(
            ((0x10000 + (hi - 0xD800) * 0x400 + (lo - 0xDC00)) as u32) as char,
        )
    } else {
        utf16_decode(units.drop_last()).push((units.last() as u32) as char)
    }
}

/// Encodes `s` as UTF-16 and appends a NUL unit. The units before the NUL
/// decode back to `s`, and a character below U+10000 is the one unit equal
/// to its code point.
pub fn encode_utf16_nul(s: &str) -> (units: Vec<u16>)
    ensures
        units@ == utf16_nul_terminated(s@),
        units@.len() >= 1,
        units@.last() == 0u16,
        utf16_decode(units@.drop_last()) == s@,
        s@.len() + 1 <= units@.len() <= 2 * s@.len() + 1,
        forall|i: int| 0 <= i < s@.len() && (s@[i] as u32) < 0x10000 ==> (#[trigger] s@[i] as u32) == units@[utf16_encode(s@.take(i)).len() as int],
{
    broadcast use vstd::string::axiom_spec_iter;

    let mut units: Vec<u16> = Vec::new();
    let ghost mut done: Seq<char> = Seq::empty();
    for c in it: s.chars()
        invariant
            it.seq() == s@,
            done == it.seq().take(it.index() as int),
            units@ == utf16_encode(done),
    {
        let ghost next = it.seq().take(it.index() + 1);
        assert(next.drop_last() == done);
        assert(next.last() == c);
        let v: u32 = c as u32;
        proof {
            vstd::utf8::char_is_scalar(c);
        }
        assert(v <= 0x10FFFF);
        if v < 0x10000 {
            units.push(v as u16);
        } else {
            let w: u32 = v - 0x10000;
            units.push((0xD800 + w / 0x400) as u16);
            units.push((0xDC00 + w % 0x400) as u16);
        }
        assert(units@ == utf16_encode(next));
        assert(done.push(c) == next);
        proof {
            done = done.push(c);
        }
    }
    assert(done == s@);
    units.push(0u16);
    proof {
        assert(units@.drop_last() == utf16_encode(s@));
        lemma_decode_encode(s@);
        lemma_encode_length(s@);
        lemma_bmp_units(s@);
    }
    units
}

/// Decoding an encoding gives back the characters: the encoding is
/// standard UTF-16.
pub proof fn lemma_decode_encode(s: Seq<char>)
    ensures
        utf16_decode(utf16_encode(s)) == s,
    decreases s.len(),
{
    if s.len() > 0 {
        let p = s.drop_last();
        let c = s.last();
        lemma_decode_encode(p);
        vstd::utf8::char_is_scalar(c);
        let v = c as u32;
        let e = utf16_encode(s);
        let ep = utf16_encode(p);
        assert(e == ep + utf16_units(c));
        if v < 0x10000 {
            assert(!(0xD800 <= v <= 0xDFFF));
            assert(e.last() == v as u16);
            assert(e.drop_last() == ep);
            vstd::utf8::char_u32_cast(c, v);
            assert(((e.last() as u32) as char) == c);
        } else {
            let w = v - 0x10000;
            let hi = (0xD800 + w / 0x400) as u16;
            let lo = (0xDC00 + w % 0x400) as u16;
            assert(e.len() == ep.len() + 2);
            assert(e[e.len() - 2] == hi);
            assert(e.last() == lo);
            assert(e.take(e.len() - 2) == ep);
            assert(0x10000 + (hi as int - 0xD800) * 0x400 + (lo as int - 0xDC00) == v) by (nonlinear_arith)
                requires
                    hi as int == 0xD800 + w / 0x400,
                    lo as int == 0xDC00 + w % 0x400,
                    w == v - 0x10000,
                    0 <= w,
            {}
            vstd::utf8::char_u32_cast(c, v);
        }
        assert(s == p.push(c));
    }
}

/// A character below U+10000 is encoded as the single unit equal to its
/// code point, at the position where the encoding of the characters before
/// it ends.
pub proof fn lemma_bmp_units(s: Seq<char>)
    ensures
        forall|i: int| 0 <= i < s.len() && (s[i] as u32) < 0x10000 ==> (#[trigger] s[i] as u32) == utf16_encode(s).push(0u16)[utf16_encode(s.take(i)).len() as int],
    decreases s.len(),
{
    if s.len() > 0 {
        let p = s.drop_last();
        lemma_bmp_units(p);
        lemma_encode_length(p);
        let e = utf16_encode(s);
        let ep = utf16_encode(p);
        assert(e == ep + utf16_units(s.last()));
        assert forall|i: int| 0 <= i < s.len() && (s[i] as u32) < 0x10000 implies (#[trigger] s[i] as u32) == e.push(0u16)[utf16_encode(s.take(i)).len() as int] by {
            if i < p.len() {
                assert(p[i] == s[i]);
                assert(p.take(i) == s.take(i));
                lemma_encode_length(p.take(i));
                lemma_encode_prefix(p, i);
                assert(e.push(0u16)[utf16_encode(s.take(i)).len() as int] == ep.push(0u16)[utf16_encode(p.take(i)).len() as int]);
            } else {
                assert(s.take(i) == p);
                assert(s[i] == s.last());
            }
        }
    }
}

/// The encoding of a proper prefix is shorter than the encoding of the
/// whole sequence, and is a prefix of it.
pub proof fn lemma_encode_prefix(s: Seq<char>, i: int)
    requires
        0 <= i < s.len(),
    ensures
        utf16_encode(s.take(i)).len() < utf16_encode(s).len(),
        utf16_encode(s) == utf16_encode(s.take(i)) + utf16_encode(s).skip(utf16_encode(s.take(i)).len() as int),
    decreases s.len(),
{
    let p = s.drop_last();
    vstd::utf8::char_is_scalar(s.last());
    assert(utf16_encode(s) == utf16_encode(p) + utf16_units(s.last()));
    if i < p.len() {
        lemma_encode_prefix(p, i);
        assert(p.take(i) == s.take(i));
    } else {
        assert(s.take(i) == p);
    }
}

/// Every code unit of a character other than NUL is non-zero.
pub proof fn lemma_units_nonzero(c: char)
    requires
        c != '\0',
    ensures
        forall|i: int| 0 <= i < utf16_units(c).len() ==> #[trigger] utf16_units(c)[i] != 0u16,
        1 <= utf16_units(c).len() <= 2,
{
    let v = c as u32;
    vstd::utf8::char_is_scalar(c);
    if v >= 0x10000 {
        assert(v <= 0x10FFFF);
        assert((v - 0x10000) / 0x400 <= 0x3FF);
        assert(0 <= (v - 0x10000) % 0x400 < 0x400);
    } else {
        assert(v != 0);
    }
}

/// The encoded length lies between the number of characters and twice it.
pub proof fn lemma_encode_length(s: Seq<char>)
    ensures
        s.len() <= utf16_encode(s).len() <= 2 * s.len(),
    decreases s.len(),
{
    if s.len() > 0 {
        lemma_encode_length(s.drop_last());
        let v = s.last() as u32;
        if v >= 0x10000 {
            assert(utf16_units(s.last()).len() == 2);
        } else {
            assert(utf16_units(s.last()).len() == 1);
        }
    }
}

/// A name without NUL characters encodes to a string whose only NUL unit
/// is the terminating one, so a `PCWSTR` built from it reads back the
/// whole name.
pub proof fn lemma_nul_terminated_once(s: Seq<char>)
    requires
        !s.contains('\0'),
    ensures
        utf16_nul_terminated(s).last() == 0u16,
        forall|i: int| 0 <= i < utf16_nul_terminated(s).len() - 1 ==> #[trigger] utf16_nul_terminated(s)[i] != 0u16,
        s.len() + 1 <= utf16_nul_terminated(s).len() <= 2 * s.len() + 1,
    decreases s.len(),
{
    lemma_encode_length(s);
    if s.len() > 0 {
        let prefix = s.drop_last();
        assert(!prefix.contains('\0')) by {
            if prefix.contains('\0') {
                let k = choose|k: int| 0 <= k < prefix.len() && prefix[k] == '\0';
                assert(s[k] == '\0');
            }
        }
        assert(s.last() != '\0') by {
            assert(s[s.len() - 1] == s.last());
        }
        lemma_nul_terminated_once(prefix);
        lemma_units_nonzero(s.last());
        let head = utf16_encode(prefix);
        let tail = utf16_units(s.last());
        assert forall|i: int| 0 <= i < utf16_encode(s).len() implies #[trigger] utf16_encode(s)[i] != 0u16 by {
            if i < head.len() {
                assert(utf16_encode(s)[i] == head[i]);
                assert(utf16_nul_terminated(prefix)[i] == head[i]);
            } else {
                assert(utf16_encode(s)[i] == tail[i - head.len()]);
            }
        }
    }
}

} // verus!
