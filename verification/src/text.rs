//! Small facts about byte strings and searches that the walks share.

use vstd::prelude::*;

verus! {

/// The index of the last occurrence of `c` in `s`.
pub open spec fn last_index(s: Seq<u8>, c: u8) -> Option<int>
    decreases s.len(),
{
    if s.len() == 0 {
        None
    } else if s.last() == c {
        Some(s.len() - 1)
    } else {
        last_index(s.drop_last(), c)
    }
}

/// The index of the first occurrence of `c` in `s`.
pub open spec fn first_index(s: Seq<u8>, c: u8) -> Option<int>
    decreases s.len(),
{
    if s.len() == 0 {
        None
    } else if s[0] == c {
        Some(0)
    } else {
        match first_index(s.drop_first(), c) {
            Some(i) => Some(i + 1),
            None => None,
        }
    }
}

/// Where the last occurrence sits, when there is one.
pub proof fn lemma_last_index(s: Seq<u8>, c: u8)
    ensures
        match last_index(s, c) {
            Some(i) => 0 <= i < s.len() && s[i] == c && forall|j: int| i < j < s.len() ==> s[j] != c,
            None => forall|j: int| 0 <= j < s.len() ==> s[j] != c,
        },
    decreases s.len(),
{
    if s.len() > 0 && s.last() != c {
        lemma_last_index(s.drop_last(), c);
        assert forall|j: int| 0 <= j < s.len() - 1 implies s.drop_last()[j] == s[j] by {}
    }
}

/// Where the first occurrence sits, when there is one.
pub proof fn lemma_first_index(s: Seq<u8>, c: u8)
    ensures
        match first_index(s, c) {
            Some(i) => 0 <= i < s.len() && s[i] == c && forall|j: int| 0 <= j < i ==> s[j] != c,
            None => forall|j: int| 0 <= j < s.len() ==> s[j] != c,
        },
    decreases s.len(),
{
    if s.len() > 0 && s[0] != c {
        lemma_first_index(s.drop_first(), c);
        assert forall|j: int| 1 <= j < s.len() implies s.drop_first()[j - 1] == s[j] by {}
    }
}

/// Finds the last occurrence of `c` among the first `end` bytes of `s`.
pub fn rfind_byte(s: &[u8], end: usize, c: u8) -> (r: Option<usize>)
    requires
        end <= s@.len(),
    ensures
        match r {
            Some(i) => last_index(s@.take(end as int), c) == Some(i as int),
            None => last_index(s@.take(end as int), c).is_none(),
        },
{
    let mut i: usize = end;
    while i > 0
        invariant
            0 <= i <= end,
            end <= s@.len(),
            last_index(s@.take(end as int), c) == last_index(s@.take(i as int), c),
        decreases i,
    {
        proof {
            assert(s@.take(i as int).last() == s@[i - 1]);
            assert(s@.take(i as int).drop_last() =~= s@.take(i - 1));
        }
        if s[i - 1] == c {
            return Some(i - 1);
        }
        i -= 1;
    }
    None
}

/// Finds the first occurrence of `c` in `s`.
pub fn find_byte(s: &[u8], c: u8) -> (r: Option<usize>)
    ensures
        match r {
            Some(i) => first_index(s@, c) == Some(i as int),
            None => first_index(s@, c).is_none(),
        },
{
    let mut i: usize = 0;
    proof {
        assert(s@.skip(0) =~= s@);
    }
    while i < s.len()
        invariant
            0 <= i <= s@.len(),
            first_index(s@, c) == match first_index(s@.skip(i as int), c) {
                Some(k) => Some(k + i),
                None => None,
            },
        decreases s@.len() - i,
    {
        proof {
            assert(s@.skip(i as int)[0] == s@[i as int]);
            assert(s@.skip(i as int).drop_first() =~= s@.skip(i + 1));
        }
        if s[i] == c {
            return Some(i);
        }
        i += 1;
    }
    None
}

/// The bytes of `s` from `from` up to `to`.
pub fn sub_bytes(s: &[u8], from: usize, to: usize) -> (r: Vec<u8>)
    requires
        from <= to <= s@.len(),
    ensures
        r@ == s@.subrange(from as int, to as int),
{
    let mut out: Vec<u8> = Vec::new();
    let mut i: usize = from;
    while i < to
        invariant
            from <= i <= to,
            to <= s@.len(),
            out@ =~= s@.subrange(from as int, i as int),
        decreases to - i,
    {
        out.push(s[i]);
        i += 1;
    }
    out
}

/// The first element of `s` that satisfies `pred`.
pub open spec fn seq_first(s: Seq<u64>, pred: spec_fn(u64) -> bool) -> Option<u64>
    decreases s.len(),
{
    if s.len() == 0 {
        None
    } else if pred(s[0]) {
        Some(s[0])
    } else {
        seq_first(s.drop_first(), pred)
    }
}

/// Searching a sequence that starts with `a` looks at `a` first.
pub proof fn lemma_seq_first_cons(a: u64, s: Seq<u64>, pred: spec_fn(u64) -> bool)
    ensures
        seq_first(seq![a] + s, pred) == if pred(a) {
            Some(a)
        } else {
            seq_first(s, pred)
        },
{
    assert((seq![a] + s)[0] == a);
    assert((seq![a] + s).drop_first() =~= s);
}

} // verus!

verus! {

/// The value of a digit in the given radix.
pub open spec fn digit_value(c: u8, radix: nat) -> Option<nat> {
    let v: int = if 0x30 <= c <= 0x39 {
        c - 0x30
    } else if 0x61 <= c <= 0x7A {
        c - 0x61 + 10
    } else if 0x41 <= c <= 0x5A {
        c - 0x41 + 10
    } else {
        99
    };
    if v < radix {
        Some(v as nat)
    } else {
        None
    }
}

/// The character a digit is written with, in the given case.
pub open spec fn digit_char(d: nat, upper: bool) -> u8 {
    if d < 10 {
        (0x30 + d) as u8
    } else if upper {
        (0x41 + d - 10) as u8
    } else {
        (0x61 + d - 10) as u8
    }
}

/// A digit written in either case reads back as itself in every radix
/// above it, and is no digit in a radix at or below it.
pub proof fn lemma_digits_read_back(d: nat, radix: nat, upper: bool)
    requires
        d < 36,
    ensures
        d < radix ==> digit_value(digit_char(d, upper), radix) == Some(d),
        d >= radix ==> digit_value(digit_char(d, upper), radix).is_none(),
{
}

/// The value of a string of digits in the given radix, when every character
/// is a digit.
pub open spec fn digits_value(s: Seq<u8>, radix: nat) -> Option<nat>
    decreases s.len(),
{
    if s.len() == 0 {
        Some(0)
    } else {
        match (digits_value(s.drop_last(), radix), digit_value(s.last(), radix)) {
            (Some(v), Some(d)) => Some(v * radix + d),
            _ => None,
        }
    }
}

/// An unsigned 32-bit number written in the given radix, the way Rust reads
/// one: an optional `+`, then at least one digit, the value fitting.
pub open spec fn parse_u32(s: Seq<u8>, radix: nat) -> Option<u32> {
    let digits = if s.len() > 0 && s[0] == 0x2B {
        s.drop_first()
    } else {
        s
    };
    if digits.len() == 0 {
        None
    } else {
        match digits_value(digits, radix) {
            Some(v) => if v <= 0xFFFF_FFFF {
                Some(v as u32)
            } else {
                None
            },
            None => None,
        }
    }
}

/// A field written as a literal offset: hexadecimal behind `0x`, decimal
/// otherwise.
pub open spec fn parse_offset_spec(s: Seq<u8>) -> Option<u32> {
    if s.len() >= 2 && s[0] == 0x30 && s[1] == 0x78 {
        parse_u32(s.subrange(2, s.len() as int), 16)
    } else {
        parse_u32(s, 10)
    }
}

/// A value read off a prefix never exceeds the value of the whole.
pub proof fn lemma_digits_monotone(s: Seq<u8>, radix: nat, i: int)
    requires
        0 <= i <= s.len(),
        radix >= 1,
    ensures
        digits_value(s, radix) matches Some(w) ==> (digits_value(s.take(i), radix) matches Some(
            v,
        ) && v <= w),
    decreases s.len() - i,
{
    if i < s.len() {
        lemma_digits_monotone(s, radix, i + 1);
        assert(s.take(i + 1).drop_last() =~= s.take(i));
        if let Some(w) = digits_value(s, radix) {
            let v1 = digits_value(s.take(i + 1), radix).unwrap();
            assert(v1 == digits_value(s.take(i), radix).unwrap() * radix + digit_value(
                s.take(i + 1).last(),
                radix,
            ).unwrap());
            let v0 = digits_value(s.take(i), radix).unwrap();
            assert(v0 * radix >= v0) by (nonlinear_arith)
                requires
                    radix >= 1,
            ;
        }
    } else {
        assert(s.take(i) =~= s);
    }
}

fn digit(c: u8, radix: u64) -> (r: Option<u64>)
    requires
        radix == 10 || radix == 16,
    ensures
        match r {
            Some(d) => digit_value(c, radix as nat) == Some(d as nat) && d < radix,
            None => digit_value(c, radix as nat).is_none(),
        },
{
    let v: u64 = if 0x30 <= c && c <= 0x39 {
        (c - 0x30) as u64
    } else if 0x61 <= c && c <= 0x7A {
        (c - 0x61 + 10) as u64
    } else if 0x41 <= c && c <= 0x5A {
        (c - 0x41 + 10) as u64
    } else {
        99
    };
    if v < radix {
        Some(v)
    } else {
        None
    }
}

/// Reads an unsigned 32-bit number written in the given radix, bytes `from`
/// on of `s`.
fn parse_u32_from(s: &[u8], from: usize, radix: u64) -> (r: Option<u32>)
    requires
        from <= s@.len(),
        radix == 10 || radix == 16,
    ensures
        r == parse_u32(s@.subrange(from as int, s@.len() as int), radix as nat),
{
    let ghost t = s@.subrange(from as int, s@.len() as int);
    let mut i = from;
    if i < s.len() && s[i] == 0x2B {
        i += 1;
    }
    let ghost digits = s@.subrange(i as int, s@.len() as int);
    proof {
        if t.len() > 0 && t[0] == 0x2B {
            assert(t.drop_first() =~= digits);
        } else {
            assert(t =~= digits);
        }
    }
    if i >= s.len() {
        return None;
    }
    let start = i;
    let mut value: u64 = 0;
    proof {
        assert(digits.take(0) =~= Seq::<u8>::empty());
    }
    while i < s.len()
        invariant
            start <= i <= s@.len(),
            start < s@.len(),
            radix == 10 || radix == 16,
            digits == s@.subrange(start as int, s@.len() as int),
            t == s@.subrange(from as int, s@.len() as int),
            parse_u32(t, radix as nat) == if digits.len() == 0 {
                None
            } else {
                match digits_value(digits, radix as nat) {
                    Some(v) => if v <= 0xFFFF_FFFF {
                        Some(v as u32)
                    } else {
                        None
                    },
                    None => None,
                }
            },
            digits.len() > 0,
            value <= 0xFFFF_FFFF,
            digits_value(digits.take(i - start), radix as nat) == Some(value as nat),
        decreases s@.len() - i,
    {
        let d = match digit(s[i], radix) {
            Some(d) => d,
            None => {
                proof {
                    lemma_digits_none(digits, radix as nat, i - start);
                }
                return None;
            },
        };
        proof {
            assert(digits.take(i - start + 1).drop_last() =~= digits.take(i - start));
            assert(digits.take(i - start + 1).last() == s@[i as int]);
        }
        let next = value * radix + d;
        if next > 0xFFFF_FFFF {
            proof {
                lemma_digits_monotone(digits, radix as nat, i - start + 1);
            }
            return None;
        }
        value = next;
        i += 1;
    }
    proof {
        assert(digits.take(i - start) =~= digits);
    }
    Some(value as u32)
}

/// A string whose character at `i` is no digit has no value.
pub proof fn lemma_digits_none(s: Seq<u8>, radix: nat, i: int)
    requires
        0 <= i < s.len(),
        digit_value(s[i], radix).is_none(),
    ensures
        digits_value(s, radix).is_none(),
    decreases s.len(),
{
    if i < s.len() - 1 {
        lemma_digits_none(s.drop_last(), radix, i);
    }
}

/// Reads a field written as a literal offset: hexadecimal behind `0x`,
/// decimal otherwise.
pub fn parse_offset(s: &[u8]) -> (r: Option<u32>)
    ensures
        r == parse_offset_spec(s@),
{
    if s.len() >= 2 && s[0] == 0x30 && s[1] == 0x78 {
        parse_u32_from(s, 2, 16)
    } else {
        proof {
            assert(s@.subrange(0, s@.len() as int) =~= s@);
        }
        parse_u32_from(s, 0, 10)
    }
}

} // verus!
