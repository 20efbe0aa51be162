//! A managed string read out of a game.

use vstd::prelude::*;
use vstd::string::StrSliceExecFns;


verus! {

/// The UTF-16 units of one character: one below the supplementary planes, a
/// surrogate pair above.
pub open spec fn utf16_units(c: char) -> Seq<u16> {
    let v = c as u32;
    if v < 0x10000 {
        seq![v as u16]
    } else {
        seq![(0xD800 + (v - 0x10000) / 0x400) as u16, (0xDC00 + (v - 0x10000) % 0x400) as u16]
    }
}

/// The UTF-16 encoding of some text.
pub open spec fn utf16_of(s: Seq<char>) -> Seq<u16>
    decreases s.len(),
{
    if s.len() == 0 {
        Seq::empty()
    } else {
        utf16_of(s.drop_last()) + utf16_units(s.last())
    }
}

/// The code point a character's UTF-16 units stand for: a lone unit is the
/// code point itself, a surrogate pair carries ten bits in each half above
/// the basic plane.
pub open spec fn code_point(units: Seq<u16>) -> int {
    if units.len() == 1 {
        units[0] as int
    } else {
        0x10000 + (units[0] - 0xD800) * 0x400 + (units[1] - 0xDC00)
    }
}

/// Whether a unit is the second half of a surrogate pair.
pub open spec fn is_low_surrogate(u: u16) -> bool {
    0xDC00 <= u < 0xE000
}

/// A character's UTF-16 units decode back to the character: a character of
/// the basic plane is one unit, itself; any other is a high surrogate
/// followed by a low one.
pub proof fn lemma_utf16_units_decode(c: char)
    ensures
        (c as u32) < 0x10000 ==> utf16_units(c).len() == 1 && !is_low_surrogate(utf16_units(c)[0]),
        (c as u32) >= 0x10000 ==> utf16_units(c).len() == 2 && 0xD800 <= utf16_units(c)[0] < 0xDC00
            && is_low_surrogate(utf16_units(c)[1]),
        code_point(utf16_units(c)) == c as u32,
{
    let v = c as u32;
    assert(v <= 0x10FFFF && !(0xD800 <= v < 0xE000));
}

/// UTF-16 encodes text piece by piece: the encoding of two texts one after
/// the other is their encodings one after the other.
pub proof fn lemma_utf16_of_concatenates(s: Seq<char>, t: Seq<char>)
    ensures
        utf16_of(s + t) == utf16_of(s) + utf16_of(t),
    decreases t.len(),
{
    if t.len() == 0 {
        assert(s + t =~= s);
        assert(utf16_of(s) + utf16_of(t) =~= utf16_of(s));
    } else {
        assert((s + t).drop_last() =~= s + t.drop_last());
        assert((s + t).last() == t.last());
        lemma_utf16_of_concatenates(s, t.drop_last());
        assert(utf16_of(s) + utf16_of(t.drop_last()) + utf16_units(t.last()) =~= utf16_of(s) + (utf16_of(
            t.drop_last(),
        ) + utf16_units(t.last())));
    }
}

/// Two different texts never encode to the same units, so a string matches
/// at most one text.
pub proof fn lemma_utf16_of_is_injective(s: Seq<char>, t: Seq<char>)
    ensures
        utf16_of(s) == utf16_of(t) ==> s == t,
    decreases s.len() + t.len(),
{
    if utf16_of(s) == utf16_of(t) {
        lemma_utf16_nonempty(s);
        lemma_utf16_nonempty(t);
        if s.len() > 0 && t.len() > 0 {
            let a = s.last();
            let b = t.last();
            let us = utf16_units(a);
            let ut = utf16_units(b);
            let es = utf16_of(s.drop_last());
            let et = utf16_of(t.drop_last());
            lemma_utf16_units_decode(a);
            lemma_utf16_units_decode(b);
            let e = utf16_of(s);
            assert(e == es + us);
            assert(e == et + ut);
            assert(e[e.len() - 1] == us[us.len() - 1]);
            assert(e[e.len() - 1] == ut[ut.len() - 1]);
            assert(us.len() == ut.len());
            assert(es.len() == et.len());
            assert forall|i: int| 0 <= i < us.len() implies us[i] == ut[i] by {
                assert(e[es.len() + i] == us[i]);
                assert(e[et.len() + i] == ut[i]);
            }
            assert(us =~= ut);
            assert(es =~= e.take(es.len() as int));
            assert(et =~= e.take(et.len() as int));
            assert(a as u32 == b as u32);
            vstd::utf8::char_u32_cast(a, a as u32);
            vstd::utf8::char_u32_cast(b, b as u32);
            assert(a == b);
            lemma_utf16_of_is_injective(s.drop_last(), t.drop_last());
            assert(s =~= s.drop_last().push(a));
            assert(t =~= t.drop_last().push(b));
        } else {
            assert(s =~= t);
        }
    }
}

/// Only empty text encodes to no units.
proof fn lemma_utf16_nonempty(s: Seq<char>)
    ensures
        (utf16_of(s).len() == 0) == (s.len() == 0),
{
    if s.len() > 0 {
        lemma_utf16_units_decode(s.last());
    }
}

/// A managed string read out of a game: the UTF-16 units of a
/// `System.String`, as many as the string counts. A nul unit is a character
/// like any other, and an unpaired surrogate stays as it was read. `N`
/// bounds how many units the string holds.
pub struct ManagedString<const N: usize> {
    units: Vec<u16>,
}

impl<const N: usize> View for ManagedString<N> {
    type V = Seq<u16>;

    closed spec fn view(&self) -> Seq<u16> {
        self.units@
    }
}

/// Encodes one character to UTF-16.
fn encode(c: char, out: &mut Vec<u16>)
    ensures
        final(out)@ == old(out)@ + utf16_units(c),
{
    let v = c as u32;
    if v < 0x10000 {
        out.push(v as u16);
    } else {
        out.push((0xD800 + (v - 0x10000) / 0x400) as u16);
        out.push((0xDC00 + (v - 0x10000) % 0x400) as u16);
    }
}

impl<const N: usize> ManagedString<N> {
    /// Holds the units read, which the reader has judged against `N`.
    pub(crate) fn from_units(units: Vec<u16>) -> (s: Self)
        ensures
            s@ == units@,
    {
        ManagedString { units }
    }

    /// Builds a string from its units. More than `N` units is `None`.
    pub fn from_slice(units: &[u16]) -> (r: Option<Self>)
        ensures
            match r {
                Some(s) => units@.len() <= N && s@ == units@,
                None => units@.len() > N,
            },
    {
        if units.len() > N {
            return None;
        }
        let mut v: Vec<u16> = Vec::new();
        let mut i: usize = 0;
        while i < units.len()
            invariant
                0 <= i <= units@.len(),
                v@ =~= units@.take(i as int),
            decreases units@.len() - i,
        {
            v.push(units[i]);
            i += 1;
        }
        Some(ManagedString { units: v })
    }

    /// Returns every unit of the string.
    pub fn as_slice(&self) -> (r: &[u16])
        ensures
            r@ == self@,
    {
        self.units.as_slice()
    }

    /// Returns how many units the string holds.
    pub fn len(&self) -> (n: usize)
        ensures
            n == self@.len(),
    {
        self.units.len()
    }

    /// Whether the string holds no units.
    pub fn is_empty(&self) -> (b: bool)
        ensures
            b == (self@.len() == 0),
    {
        self.units.len() == 0
    }

    /// Checks whether the string is exactly the given units.
    pub fn matches(&self, text: &[u16]) -> (r: bool)
        ensures
            r == (self@ == text@),
    {
        if self.units.len() != text.len() {
            return false;
        }
        let mut i: usize = 0;
        while i < text.len()
            invariant
                self.units@.len() == text@.len(),
                0 <= i <= text@.len(),
                forall|j: int| 0 <= j < i ==> self.units@[j] == text@[j],
            decreases text@.len() - i,
        {
            if self.units[i] != text[i] {
                return false;
            }
            i += 1;
        }
        proof {
            assert(self.units@ =~= text@);
        }
        true
    }

    /// Checks whether the string is exactly the given text, re-encoding the
    /// text to UTF-16 as it compares.
    pub fn matches_str(&self, text: &str) -> (r: bool)
        ensures
            r == (self@ == utf16_of(text@)),
    {
        let n = text.unicode_len();
        let mut encoded: Vec<u16> = Vec::new();
        let mut i: usize = 0;
        while i < n
            invariant
                n == text@.len(),
                0 <= i <= n,
                encoded@ == utf16_of(text@.take(i as int)),
            decreases n - i,
        {
            let c = text.get_char(i);
            encode(c, &mut encoded);
            proof {
                assert(text@.take(i + 1).drop_last() =~= text@.take(i as int));
            }
            i += 1;
        }
        proof {
            assert(text@.take(n as int) =~= text@);
        }
        self.matches(encoded.as_slice())
    }
}

} // verus!
