use vstd::prelude::*;

verus! {

/// The UTF-16 code units of one character: one unit for a character below
/// 0x10000, else a surrogate pair.
pub open spec fn utf16_units(c: char) -> Seq<u16> {
    let v = c as int;
    if v < 0x10000 {
        seq![v as u16]
    } else {
        let w = v - 0x10000;
        seq![(0xD800 + w / 0x400) as u16, (0xDC00 + w % 0x400) as u16]
    }
}

/// The UTF-16 encoding of a string.
pub open spec fn utf16(s: Seq<char>) -> Seq<u16>
    decreases s.len(),
{
    if s.len() == 0 {
        Seq::empty()
    } else {
        utf16(s.drop_last()) + utf16_units(s.last())
    }
}

/// `s` encoded as UTF-16, followed by a zero unit.
pub fn wide(s: &str) -> (w: Vec<u16>)
    ensures
        w@ == utf16(s@).push(0u16),
{
    let mut w: Vec<u16> = Vec::new();
    let n = s.unicode_len();
    let mut i: usize = 0;
    while i < n
        invariant
            n == s@.len(),
            i <= n,
            w@ == utf16(s@.take(i as int)),
        decreases n - i,
    {
        let c = s.get_char(i);
        let v = c as u32;
        if v < 0x10000 {
            w.push(v as u16);
        } else {
            let x = v - 0x10000;
            w.push((0xD800 + x / 0x400) as u16);
            w.push((0xDC00 + x % 0x400) as u16);
        }
        assert(s@.take(i + 1).drop_last() =~= s@.take(i as int));
        i = i + 1;
    }
    assert(s@.take(n as int) =~= s@);
    w.push(0);
    w
}

/// A character other than NUL has no zero among its UTF-16 units.
proof fn lemma_units_nonzero(c: char)
    requires
        c != '\0',
    ensures
        forall|k: int| 0 <= k < utf16_units(c).len() ==> #[trigger] utf16_units(c)[k] != 0,
{
    let v = c as int;
    assert(0 < v <= 0x10FFFF);
    if v >= 0x10000 {
        let w = v - 0x10000;
        assert(0 <= w / 0x400 < 0x400) by (nonlinear_arith)
            requires
                0 <= w < 0x100000,
        ;
        assert(0 <= w % 0x400 < 0x400) by (nonlinear_arith)
            requires
                0 <= w,
        ;
    }
}

/// Where the string holds no NUL character, the zero that ends its wide form
/// is the only zero in it, so the wide form reads back as the whole string.
pub proof fn lemma_wide_terminator_is_only_zero(s: Seq<char>)
    requires
        forall|i: int| 0 <= i < s.len() ==> s[i] != '\0',
    ensures
        utf16(s).push(0u16).last() == 0,
        forall|i: int| 0 <= i < utf16(s).len() ==> #[trigger] utf16(s)[i] != 0,
    decreases s.len(),
{
    if s.len() > 0 {
        let p = s.drop_last();
        assert forall|i: int| 0 <= i < p.len() implies p[i] != '\0' by {
            assert(p[i] == s[i]);
        }
        lemma_wide_terminator_is_only_zero(p);
        lemma_units_nonzero(s.last());
        let a = utf16(p);
        let b = utf16_units(s.last());
        assert forall|i: int| 0 <= i < utf16(s).len() implies #[trigger] utf16(s)[i] != 0 by {
            if i < a.len() {
                assert(utf16(s)[i] == a[i]);
            } else {
                assert(utf16(s)[i] == b[i - a.len()]);
            }
        }
    }
}

/// Each character is encoded as UTF-16 prescribes: a character below
/// 0x10000 as the single unit equal to its code point; any other as a high
/// surrogate (0xD800 to 0xDBFF) followed by a low surrogate (0xDC00 to
/// 0xDFFF) from which the code point is recovered as
/// `0x10000 + (high - 0xD800) * 0x400 + (low - 0xDC00)`.
pub proof fn lemma_utf16_units_decode(c: char)
    ensures
        (c as int) < 0x10000 ==> utf16_units(c).len() == 1 && utf16_units(c)[0] as int == c as int,
        (c as int) >= 0x10000 ==> {
            let hi = utf16_units(c)[0] as int;
            let lo = utf16_units(c)[1] as int;
            &&& utf16_units(c).len() == 2
            &&& 0xD800 <= hi < 0xDC00
            &&& 0xDC00 <= lo < 0xE000
            &&& 0x10000 + (hi - 0xD800) * 0x400 + (lo - 0xDC00) == c as int
        },
{
    let v = c as int;
    assert(0 <= v <= 0x10FFFF);
    if v >= 0x10000 {
        let w = v - 0x10000;
        assert(0 <= w / 0x400 < 0x400 && 0 <= w % 0x400 < 0x400 && (w / 0x400) * 0x400 + w % 0x400 == w)
            by (nonlinear_arith)
            requires
                0 <= w < 0x100000,
        ;
    }
}

/// Encoding a string is encoding its parts one after the other.
pub proof fn lemma_utf16_concat(a: Seq<char>, b: Seq<char>)
    ensures
        utf16(a + b) == utf16(a) + utf16(b),
    decreases b.len(),
{
    if b.len() == 0 {
        assert(a + b =~= a);
        assert(utf16(a) + utf16(b) =~= utf16(a));
    } else {
        let b0 = b.drop_last();
        lemma_utf16_concat(a, b0);
        assert((a + b).drop_last() =~= a + b0);
        assert((a + b).last() == b.last());
        assert(utf16(a + b) =~= utf16(a) + utf16(b));
    }
}

/// The encoding of a one-character string is that character's units.
pub proof fn lemma_utf16_single(c: char)
    ensures
        utf16(seq![c]) == utf16_units(c),
{
    assert(seq![c].drop_last() =~= Seq::<char>::empty());
    assert(utf16(Seq::<char>::empty()) == Seq::<u16>::empty());
    assert(seq![c].last() == c);
    assert(utf16(seq![c]) == utf16(Seq::<char>::empty()) + utf16_units(c));
    assert(utf16(seq![c]) =~= utf16_units(c));
}

} // verus!
