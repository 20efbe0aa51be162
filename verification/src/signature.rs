//! Byte patterns with wildcards, and scanning a process's memory for them.

use vstd::prelude::*;
use vstd::string::StringSliceAdditionalSpecFns;

use crate::primitives::Address;
use crate::process::Process;

verus! {

/// The pattern's characters other than spaces.
pub open spec fn strip_spaces(s: Seq<u8>) -> Seq<u8>
    decreases s.len(),
{
    if s.len() == 0 {
        Seq::empty()
    } else if s[0] == 0x20 {
        strip_spaces(s.drop_first())
    } else {
        seq![s[0]] + strip_spaces(s.drop_first())
    }
}

/// Whether a character is a hexadecimal digit.
pub open spec fn is_hex(c: u8) -> bool {
    (0x30 <= c <= 0x39) || (0x41 <= c <= 0x46) || (0x61 <= c <= 0x66)
}

/// The value of a hexadecimal digit; anything else, such as `?`, is a
/// wildcard and stands for 0.
pub open spec fn nibble_value(c: u8) -> u8 {
    if 0x30 <= c <= 0x39 {
        (c - 0x30) as u8
    } else if 0x41 <= c <= 0x46 {
        (c - 0x37) as u8
    } else if 0x61 <= c <= 0x66 {
        (c - 0x57) as u8
    } else {
        0
    }
}

/// The bits of a nibble that have to match: all of them for a digit, none
/// for a wildcard.
pub open spec fn nibble_mask(c: u8) -> u8 {
    if is_hex(c) {
        0xF
    } else {
        0
    }
}

/// The character a nibble is written with, upper or lower case.
pub open spec fn hex_char(n: u8, upper: bool) -> u8 {
    if n < 10 {
        (0x30 + n) as u8
    } else if upper {
        (0x41 + n - 10) as u8
    } else {
        (0x61 + n - 10) as u8
    }
}

/// A nibble written as a hexadecimal digit, in either case, reads back as
/// itself and pins all four bits; a character that is no digit, such as
/// `?`, pins none.
pub proof fn lemma_hex_digits_read_back(n: u8, upper: bool, c: u8)
    requires
        n < 16,
    ensures
        nibble_value(hex_char(n, upper)) == n,
        nibble_mask(hex_char(n, upper)) == 0xF,
        !is_hex(c) ==> nibble_mask(c) == 0 && nibble_value(c) == 0,
{
}

/// Reads one character of a pattern: its value and the bits it pins down.
fn nibble(c: u8) -> (r: (u8, u8))
    ensures
        r.0 == nibble_value(c),
        r.1 == nibble_mask(c),
        r.0 < 16,
        r.1 < 16,
{
    if 0x30 <= c && c <= 0x39 {
        (c - 0x30, 0xF)
    } else if 0x41 <= c && c <= 0x46 {
        (c - 0x37, 0xF)
    } else if 0x61 <= c && c <= 0x66 {
        (c - 0x57, 0xF)
    } else {
        (0, 0)
    }
}

/// The bytes a written pattern asks for, two characters per byte.
pub open spec fn pattern_needle(s: Seq<u8>) -> Seq<u8> {
    let t = strip_spaces(s);
    Seq::new(
        t.len() / 2,
        |k: int| (nibble_value(t[2 * k]) * 16 + nibble_value(t[2 * k + 1])) as u8,
    )
}

/// The bits of each byte a written pattern pins down.
pub open spec fn pattern_mask(s: Seq<u8>) -> Seq<u8> {
    let t = strip_spaces(s);
    Seq::new(
        t.len() / 2,
        |k: int| (nibble_mask(t[2 * k]) * 16 + nibble_mask(t[2 * k + 1])) as u8,
    )
}

/// A byte pattern: each byte of a match, masked, equals the needle.
pub struct Signature {
    /// The bytes to find, with wildcard bits cleared.
    pub needle: Vec<u8>,
    /// The bits of each byte that have to match.
    pub mask: Vec<u8>,
}

/// The mask of the byte at `i`; a byte past the mask has to match whole.
pub open spec fn mask_at(mask: Seq<u8>, i: int) -> u8 {
    if 0 <= i < mask.len() {
        mask[i]
    } else {
        0xFF
    }
}

/// Whether bytes match a pattern.
pub open spec fn bytes_match(needle: Seq<u8>, mask: Seq<u8>, b: Seq<u8>) -> bool {
    b.len() == needle.len() && forall|i: int| 0 <= i < needle.len() ==> #[trigger] (b[i] & mask_at(mask, i)) == needle[i]
}

/// Whether the pattern matches the memory at `pos`.
pub open spec fn match_at(p: Process, needle: Seq<u8>, mask: Seq<u8>, pos: int) -> bool {
    0 <= pos < 0x1_0000_0000_0000_0000 && match p.mem(pos as u64, needle.len()) {
        Some(b) => bytes_match(needle, mask, b),
        None => false,
    }
}

/// The positions `start + off`, for `off` from `from` up to `len`, that
/// satisfy `pred`, in increasing order.
pub open spec fn positions(start: int, len: int, from: int, pred: spec_fn(int) -> bool) -> Seq<int>
    decreases len - from,
{
    if from >= len {
        Seq::empty()
    } else if pred(start + from) {
        seq![start + from] + positions(start, len, from + 1, pred)
    } else {
        positions(start, len, from + 1, pred)
    }
}

/// The positions in a range at which a needle and mask match, from the
/// lowest.
pub open spec fn scan_positions(p: Process, needle: Seq<u8>, mask: Seq<u8>, start: u64, len: u64) -> Seq<int> {
    positions(start as int, len as int, 0, |q: int| match_at(p, needle, mask, q))
}

/// The positions in a range at which a written pattern matches, from the
/// lowest.
pub open spec fn pattern_scan(p: Process, pattern: Seq<u8>, start: u64, len: u64) -> Seq<int> {
    scan_positions(p, pattern_needle(pattern), pattern_mask(pattern), start, len)
}

/// The positions a search finds are exactly those in its range that
/// satisfy it, each once, from the lowest up.
pub proof fn lemma_positions(start: int, len: int, from: int, pred: spec_fn(int) -> bool)
    ensures
        forall|i: int| #![trigger positions(start, len, from, pred)[i]]
            0 <= i < positions(start, len, from, pred).len() ==> pred(positions(start, len, from, pred)[i])
                && start + from <= positions(start, len, from, pred)[i] < start + len,
        forall|i: int, j: int|
            0 <= i < j < positions(start, len, from, pred).len() ==> positions(start, len, from, pred)[i]
                < positions(start, len, from, pred)[j],
        forall|q: int| start + from <= q < start + len && #[trigger] pred(q) ==> positions(
            start,
            len,
            from,
            pred,
        ).contains(q),
    decreases len - from,
{
    if from < len {
        lemma_positions(start, len, from + 1, pred);
        let rest = positions(start, len, from + 1, pred);
        if pred(start + from) {
            let r = seq![start + from] + rest;
            assert forall|i: int| 0 < i < r.len() implies r[i] == rest[i - 1] by {}
            assert forall|q: int| start + from <= q < start + len && #[trigger] pred(q) implies r.contains(q) by {
                if q == start + from {
                    assert(r[0] == q);
                } else {
                    let k = choose|k: int| 0 <= k < rest.len() && rest[k] == q;
                    assert(r[k + 1] == q);
                }
            }
        }
    }
}

/// The matches a scan finds are exactly the positions in its range at which
/// the pattern matches, each once, from the lowest up.
pub proof fn lemma_scan_finds_every_match(p: Process, needle: Seq<u8>, mask: Seq<u8>, start: u64, len: u64)
    ensures
        forall|i: int| #![trigger scan_positions(p, needle, mask, start, len)[i]]
            0 <= i < scan_positions(p, needle, mask, start, len).len() ==> match_at(
                p,
                needle,
                mask,
                scan_positions(p, needle, mask, start, len)[i],
            ) && start <= scan_positions(p, needle, mask, start, len)[i] < start + len,
        forall|i: int, j: int|
            0 <= i < j < scan_positions(p, needle, mask, start, len).len() ==> scan_positions(
                p,
                needle,
                mask,
                start,
                len,
            )[i] < scan_positions(p, needle, mask, start, len)[j],
        forall|q: int|
            start <= q < start + len && match_at(p, needle, mask, q) ==> scan_positions(
                p,
                needle,
                mask,
                start,
                len,
            ).contains(q),
{
    let pred = |q: int| match_at(p, needle, mask, q);
    lemma_positions(start as int, len as int, 0, pred);
    assert forall|q: int| start <= q < start + len && match_at(p, needle, mask, q) implies scan_positions(
        p,
        needle,
        mask,
        start,
        len,
    ).contains(q) by {
        assert(pred(q));
    }
}

impl Signature {
    /// The positions in `range` at which the pattern matches, from the
    /// lowest.
    pub open spec fn matches_in(&self, p: Process, start: u64, len: u64) -> Seq<int> {
        scan_positions(p, self.needle@, self.mask@, start, len)
    }

    /// Parses a pattern written as hexadecimal bytes separated by spaces,
    /// where `?` stands for a nibble that may be anything.
    pub fn new(pattern: &str) -> (sig: Signature)
        ensures
            sig.needle@ == pattern_needle(pattern.spec_bytes()),
            sig.mask@ == pattern_mask(pattern.spec_bytes()),
    {
        let s = pattern.as_bytes();
        let mut t: Vec<u8> = Vec::new();
        let mut i: usize = 0;
        proof {
            assert(s@.skip(0) =~= s@);
        }
        while i < s.len()
            invariant
                0 <= i <= s@.len(),
                s@ == pattern.spec_bytes(),
                t@ + strip_spaces(s@.skip(i as int)) == strip_spaces(s@),
            decreases s@.len() - i,
        {
            proof {
                assert(s@.skip(i as int)[0] == s@[i as int]);
                assert(s@.skip(i as int).drop_first() =~= s@.skip(i + 1));
            }
            if s[i] != 0x20 {
                proof {
                    assert(t@.push(s@[i as int]) + strip_spaces(s@.skip(i + 1)) =~= t@ + (seq![
                        s@[i as int],
                    ] + strip_spaces(s@.skip(i + 1))));
                }
                t.push(s[i]);
            }
            i += 1;
        }
        proof {
            assert(s@.skip(i as int) =~= Seq::<u8>::empty());
            assert(t@ =~= strip_spaces(s@));
        }
        let mut needle: Vec<u8> = Vec::new();
        let mut mask: Vec<u8> = Vec::new();
        let pairs = t.len() / 2;
        let tl = t.len();
        let mut k: usize = 0;
        while k < pairs
            invariant
                0 <= k <= pairs,
                tl == t@.len(),
                pairs == t@.len() / 2,
                t@ == strip_spaces(pattern.spec_bytes()),
                needle@ =~= pattern_needle(pattern.spec_bytes()).take(k as int),
                mask@ =~= pattern_mask(pattern.spec_bytes()).take(k as int),
            decreases pairs - k,
        {
            assert(2 * k + 1 < t@.len()) by (nonlinear_arith)
                requires
                    k < t@.len() / 2,
            ;
            let hi = t[2 * k];
            let lo = t[2 * k + 1];
            let (hv, hm) = nibble(hi);
            let (lv, lm) = nibble(lo);
            needle.push(hv * 16 + lv);
            mask.push(hm * 16 + lm);
            k += 1;
        }
        Signature { needle, mask }
    }

    /// Finds every position in `range` at which the pattern matches, from
    /// the lowest.
    pub fn scan_all(&self, process: &Process, range: (Address, u64)) -> (r: Vec<Address>)
        ensures
            r@.map_values(|a: Address| a.0 as int) == self.matches_in(*process, range.0.0, range.1),
    {
        let (start, len) = range;
        let ghost pred = |q: int| match_at(*process, self.needle@, self.mask@, q);
        let mut found: Vec<Address> = Vec::new();
        let mut off: u64 = 0;
        while off < len
            invariant
                0 <= off <= len,
                len == range.1,
                start == range.0,
                pred == (|q: int| match_at(*process, self.needle@, self.mask@, q)),
                found@.map_values(|a: Address| a.0 as int) + positions(
                    start.0 as int,
                    len as int,
                    off as int,
                    pred,
                ) == positions(start.0 as int, len as int, 0, pred),
            decreases len - off,
        {
            let ghost before = found@;
            if start.0 as u128 + off as u128 <= u64::MAX as u128 {
                let pos = Address(start.0 + off);
                if self.matches_at(process, pos) {
                    found.push(pos);
                    proof {
                        assert(found@.map_values(|a: Address| a.0 as int) =~= before.map_values(
                            |a: Address| a.0 as int,
                        ).push(pos.0 as int));
                        assert(before.map_values(|a: Address| a.0 as int).push(pos.0 as int)
                            + positions(start.0 as int, len as int, off + 1, pred) =~= before.map_values(
                            |a: Address| a.0 as int,
                        ) + (seq![pos.0 as int] + positions(
                            start.0 as int,
                            len as int,
                            off + 1,
                            pred,
                        )));
                    }
                }
            }
            off += 1;
        }
        proof {
            assert(found@.map_values(|a: Address| a.0 as int) + positions(
                start.0 as int,
                len as int,
                off as int,
                pred,
            ) =~= found@.map_values(|a: Address| a.0 as int));
        }
        found
    }

    /// Whether the pattern matches the memory at `pos`.
    pub fn matches_at(&self, process: &Process, pos: Address) -> (r: bool)
        ensures
            r == match_at(*process, self.needle@, self.mask@, pos.0 as int),
    {
        match process.read_bytes(pos, self.needle.len() as u64) {
            Some(b) => {
                let mut i: usize = 0;
                while i < self.needle.len()
                    invariant
                        0 <= i <= self.needle@.len(),
                        b@.len() == self.needle@.len(),
                        process.mem(pos.0, self.needle@.len()) == Some(b@),
                        forall|j: int| 0 <= j < i ==> #[trigger] (b@[j] & mask_at(self.mask@, j)) == self.needle@[j],
                    decreases self.needle@.len() - i,
                {
                    let m = if i < self.mask.len() {
                        self.mask[i]
                    } else {
                        0xFF
                    };
                    if b[i] & m != self.needle[i] {
                        assert((b@[i as int] & mask_at(self.mask@, i as int)) != self.needle@[i as int]);
                        return false;
                    }
                    i += 1;
                }
                true
            },
            None => false,
        }
    }

    /// Finds the lowest position in `range` at which the pattern matches.
    pub fn scan_process_range(&self, process: &Process, range: (Address, u64)) -> (r: Option<
        Address,
    >)
        ensures
            match r {
                Some(a) => self.matches_in(*process, range.0.0, range.1).len() > 0 && a.0 as int
                    == self.matches_in(*process, range.0.0, range.1)[0],
                None => self.matches_in(*process, range.0.0, range.1).len() == 0,
            },
    {
        let all = self.scan_all(process, range);
        if all.len() == 0 {
            None
        } else {
            proof {
                assert(all@.map_values(|a: Address| a.0 as int)[0] == all@[0].0 as int);
            }
            Some(all[0])
        }
    }
}

} // verus!
