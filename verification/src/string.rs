//! Nul-terminated strings read out of a process.

use vstd::prelude::*;
use vstd::string::StringSliceAdditionalSpecFns;

use crate::primitives::Address;
use crate::process::{bytes_eq, Error, Process};

verus! {

/// The text of a nul-terminated byte string: everything before the first
/// nul, or all of it when it holds none.
pub open spec fn cstr(b: Seq<u8>) -> Seq<u8>
    decreases b.len(),
{
    if b.len() == 0 {
        Seq::empty()
    } else if b[0] == 0 {
        Seq::empty()
    } else {
        seq![b[0]] + cstr(b.drop_first())
    }
}

/// The text of a nul-terminated byte string ends at its first nul.
pub proof fn lemma_cstr_take(b: Seq<u8>, i: int)
    requires
        0 <= i <= b.len(),
        forall|j: int| 0 <= j < i ==> b[j] != 0,
        i == b.len() || b[i] == 0,
    ensures
        cstr(b) == b.take(i),
    decreases i,
{
    if i == 0 {
        assert(b.take(0) =~= Seq::<u8>::empty());
    } else {
        assert forall|j: int| 0 <= j < i - 1 implies b.drop_first()[j] != 0 by {
            assert(b.drop_first()[j] == b[j + 1]);
        }
        lemma_cstr_take(b.drop_first(), i - 1);
        assert(b.take(i) =~= seq![b[0]] + b.drop_first().take(i - 1));
    }
}

/// The text of a nul-terminated byte string is how the bytes start, and
/// holds no nul.
pub proof fn lemma_cstr_is_a_prefix(b: Seq<u8>)
    ensures
        cstr(b).len() <= b.len(),
        cstr(b) == b.take(cstr(b).len() as int),
        !cstr(b).contains(0),
    decreases b.len(),
{
    if b.len() > 0 && b[0] != 0 {
        lemma_cstr_is_a_prefix(b.drop_first());
        let rest = cstr(b.drop_first());
        assert(cstr(b) == seq![b[0]] + rest);
        assert(seq![b[0]] + rest =~= b.take(rest.len() + 1 as int)) by {
            assert forall|i: int| 1 <= i < rest.len() + 1 implies (seq![b[0]] + rest)[i] == b[i] by {
                assert(rest[i - 1] == b.drop_first().take(rest.len() as int)[i - 1]);
            }
        }
        assert forall|i: int| 0 <= i < cstr(b).len() implies cstr(b)[i] != 0 by {
            if i > 0 {
                assert(cstr(b)[i] == rest[i - 1]);
            }
        }
    } else {
        assert(b.take(0) =~= Seq::<u8>::empty());
    }
}

/// The text of a nul-terminated byte string stops only at a nul or at the
/// end of the bytes.
pub proof fn lemma_cstr_stops_at_a_nul(b: Seq<u8>)
    ensures
        cstr(b).len() == b.len() || (cstr(b).len() < b.len() && b[cstr(b).len() as int] == 0),
    decreases b.len(),
{
    if b.len() > 0 && b[0] != 0 {
        lemma_cstr_stops_at_a_nul(b.drop_first());
    }
}

/// A nul-terminated string read out of a process: `N` bytes are read, and
/// the text is what comes before the first nul among them.
pub struct ArrayCString<const N: usize> {
    bytes: Vec<u8>,
}

impl<const N: usize> View for ArrayCString<N> {
    type V = Seq<u8>;

    closed spec fn view(&self) -> Seq<u8> {
        self.bytes@
    }
}

impl<const N: usize> ArrayCString<N> {
    /// Creates an empty string.
    pub fn new() -> (s: Self)
        ensures
            s@ == Seq::<u8>::empty(),
    {
        ArrayCString { bytes: Vec::new() }
    }

    /// Creates the string that `N` read bytes hold.
    pub fn from_read_bytes(read: &[u8]) -> (s: Self)
        ensures
            s@ == cstr(read@),
    {
        let mut i: usize = 0;
        let mut bytes: Vec<u8> = Vec::new();
        while i < read.len() && read[i] != 0
            invariant
                0 <= i <= read@.len(),
                forall|j: int| 0 <= j < i ==> read@[j] != 0,
                bytes@ =~= read@.take(i as int),
            decreases read@.len() - i,
        {
            bytes.push(read[i]);
            i += 1;
        }
        proof {
            lemma_cstr_take(read@, i as int);
        }
        ArrayCString { bytes }
    }

    /// Returns the text, without the nul.
    pub fn as_bytes(&self) -> (b: &[u8])
        ensures
            b@ == self@,
    {
        self.bytes.as_slice()
    }

    /// Returns how many bytes the text holds.
    pub fn len(&self) -> (n: usize)
        ensures
            n == self@.len(),
    {
        self.bytes.len()
    }

    /// Checks whether the text is exactly the given bytes.
    pub fn matches_bytes(&self, text: &[u8]) -> (r: bool)
        ensures
            r == (self@ == text@),
    {
        bytes_eq(self.bytes.as_slice(), text)
    }

    /// Checks whether the text is exactly the given string.
    pub fn matches(&self, text: &str) -> (r: bool)
        ensures
            r == (self@ == text.spec_bytes()),
    {
        bytes_eq(self.bytes.as_slice(), text.as_bytes())
    }

    /// Cuts the text at the given length, when it is longer.
    pub fn set_len(&mut self, len: usize)
        ensures
            final(self)@ == if len < old(self)@.len() {
                old(self)@.take(len as int)
            } else {
                old(self)@
            },
    {
        if len < self.bytes.len() {
            self.bytes.truncate(len);
        }
    }
}

/// The string `N` bytes from `addr` on hold, when all of them are mapped.
pub open spec fn cstr_at(p: Process, addr: u64, n: nat) -> Option<Seq<u8>> {
    match p.mem(addr, n) {
        Some(b) => Some(cstr(b)),
        None => None,
    }
}

/// Reads a nul-terminated string of up to `N` bytes at `addr`. All `N`
/// bytes have to be mapped.
pub fn read_cstring<const N: usize>(process: &Process, addr: Address) -> (r: Result<
    ArrayCString<N>,
    Error,
>)
    ensures
        match r {
            Ok(s) => cstr_at(*process, addr.0, N as nat) == Some(s@),
            Err(_) => cstr_at(*process, addr.0, N as nat).is_none(),
        },
{
    match process.read_bytes(addr, N as u64) {
        Some(b) => Ok(ArrayCString::from_read_bytes(b.as_slice())),
        None => Err(Error {}),
    }
}

/// Whether the nul-terminated string at `addr` is exactly `name`: the
/// `name.len() + 1` bytes there are mapped and hold `name` before a nul or
/// their end.
pub open spec fn cstr_is(p: Process, addr: u64, name: Seq<u8>) -> bool {
    name.len() < u64::MAX && cstr_at(p, addr, name.len() + 1) == Some(name)
}

/// Checks whether the nul-terminated string at `addr` is exactly `name`.
pub fn read_cstr_is(process: &Process, addr: Address, name: &[u8]) -> (r: bool)
    ensures
        r == cstr_is(*process, addr.0, name@),
{
    if name.len() as u64 == u64::MAX {
        return false;
    }
    match process.read_bytes(addr, name.len() as u64 + 1) {
        Some(b) => {
            let s = ArrayCString::<0>::from_read_bytes(b.as_slice());
            s.matches_bytes(name)
        },
        None => false,
    }
}

} // verus!
