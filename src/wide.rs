//! UTF-16 text for wide-character system interfaces.

use vstd::prelude::*;

verus! {

/// The UTF-16 code units of `c`: one below U+10000, else a surrogate pair.
pub open spec fn utf16_units(c: char) -> Seq<u16> {
    let v = c as u32;
    if v < 0x10000 {
        seq![v as u16]
    } else {
        let w = (v - 0x10000) as u32;
        seq![(0xD800 + w / 1024) as u16, (0xDC00 + w % 1024) as u16]
    }
}

/// The UTF-16 encoding of `s`.
pub open spec fn utf16(s: Seq<char>) -> Seq<u16>
    decreases s.len(),
{
    if s.len() == 0 {
        Seq::empty()
    } else {
        utf16(s.drop_last()) + utf16_units(s.last())
    }
}

/// `s` in UTF-16, ending with a zero unit.
pub fn to_wide_string(s: &str) -> (r: Vec<u16>)
    ensures
        r@ == utf16(s@).push(0),
{
    let n = s.unicode_len();
    let mut out: Vec<u16> = Vec::new();
    let mut i: usize = 0;
    while i < n
        invariant
            n == s@.len(),
            i <= n,
            out@ == utf16(s@.subrange(0, i as int)),
        decreases n - i,
    {
        let v = s.get_char(i) as u32;
        if v < 0x10000 {
            out.push(v as u16);
        } else {
            let w = v - 0x10000;
            out.push((0xD800 + w / 1024) as u16);
            out.push((0xDC00 + w % 1024) as u16);
        }
        proof {
            assert(s@.subrange(0, i + 1).drop_last() =~= s@.subrange(0, i as int));
        }
        i = i + 1;
    }
    proof {
        assert(s@.subrange(0, n as int) =~= s@);
    }
    out.push(0);
    out
}

/// `s` in UTF-16 in a fixed buffer of `N` units: as many leading units as
/// fit before a final zero, and zeros after them.
pub fn to_wide_array<const N: usize>(s: &str) -> (r: [u16; N])
    requires
        N >= 1,
    ensures
        forall|k: int|
            0 <= k < N ==> #[trigger] r@[k] == (if k < N - 1 && k < utf16(s@).len() {
                utf16(s@)[k]
            } else {
                0
            }),
{
    let units = to_wide_string(s);
    let mut arr = [0u16; N];
    let mut i: usize = 0;
    while i < N - 1 && i + 1 < units.len()
        invariant
            N >= 1,
            units@ == utf16(s@).push(0),
            i <= N - 1,
            i <= utf16(s@).len(),
            forall|k: int|
                0 <= k < N ==> #[trigger] arr@[k] == (if k < i { utf16(s@)[k] } else { 0 }),
        decreases N - i,
    {
        arr[i] = units[i];
        i = i + 1;
    }
    arr
}

} // verus!
