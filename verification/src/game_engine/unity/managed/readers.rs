//! Reading managed strings, arrays and lists out of a game. The layouts are
//! runtime ABI, shared by both runtimes: two header words head every
//! object, a string's character count and its UTF-16 characters follow, and
//! an array's bounds word, its length, and its elements inline.

use vstd::prelude::*;

use super::array::ManagedArray;
use super::string::ManagedString;
use super::{DictionaryOffsets, EntryLayout, HashSetOffsets, ListOffsets, SlotLayout};
use crate::primitives::{addr_modulus, wrap_add, Address, PointerSize};
use crate::process::{Error, Process};

verus! {

/// A value an array or list holds, read from its little-endian bytes.
pub trait Element: Sized + Copy {
    /// How many bytes one element spans.
    spec fn size() -> nat;

    /// The element at `addr`, when its bytes are mapped.
    spec fn at(p: Process, addr: u64) -> Option<Self>;

    /// How many bytes one element spans.
    fn width() -> (n: u64)
        ensures
            n == Self::size(),
            1 <= n <= 8,
    ;

    /// Reads the element at `addr`.
    fn read_at(process: &Process, addr: Address) -> (r: Option<Self>)
        ensures
            r == Self::at(*process, addr.0),
    ;
}

impl Element for u8 {
    open spec fn size() -> nat {
        1
    }

    open spec fn at(p: Process, addr: u64) -> Option<u8> {
        p.mem_u8(addr)
    }

    fn width() -> (n: u64) {
        1
    }

    fn read_at(process: &Process, addr: Address) -> (r: Option<u8>) {
        process.read_u8(addr)
    }
}

impl Element for u16 {
    open spec fn size() -> nat {
        2
    }

    open spec fn at(p: Process, addr: u64) -> Option<u16> {
        p.mem_u16(addr)
    }

    fn width() -> (n: u64) {
        2
    }

    fn read_at(process: &Process, addr: Address) -> (r: Option<u16>) {
        process.read_u16(addr)
    }
}

impl Element for u32 {
    open spec fn size() -> nat {
        4
    }

    open spec fn at(p: Process, addr: u64) -> Option<u32> {
        p.mem_u32(addr)
    }

    fn width() -> (n: u64) {
        4
    }

    fn read_at(process: &Process, addr: Address) -> (r: Option<u32>) {
        process.read_u32(addr)
    }
}

impl Element for i32 {
    open spec fn size() -> nat {
        4
    }

    open spec fn at(p: Process, addr: u64) -> Option<i32> {
        p.mem_i32(addr)
    }

    fn width() -> (n: u64) {
        4
    }

    fn read_at(process: &Process, addr: Address) -> (r: Option<i32>) {
        process.read_i32(addr)
    }
}

impl Element for u64 {
    open spec fn size() -> nat {
        8
    }

    open spec fn at(p: Process, addr: u64) -> Option<u64> {
        p.mem_u64(addr)
    }

    fn width() -> (n: u64) {
        8
    }

    fn read_at(process: &Process, addr: Address) -> (r: Option<u64>) {
        process.read_u64(addr)
    }
}

/// How many bytes the two header words of a managed object occupy.
pub open spec fn header_size(ps: PointerSize) -> u64 {
    (2 * ps.width()) as u64
}

/// Offsetting twice is offsetting once by both.
pub proof fn lemma_wrap_add_twice(a: u64, x: int, y: int)
    ensures
        wrap_add(wrap_add(a, x), y) == wrap_add(a, x + y),
{
    let m = addr_modulus();
    vstd::arithmetic::div_mod::lemma_mod_bound(a as int + x, m);
    vstd::arithmetic::div_mod::lemma_add_mod_noop_right(y, a as int + x, m);
    assert(y + (a as int + x) == a as int + (x + y));
}

/// The `count` elements laid one after another from `addr`, when all are
/// mapped.
pub open spec fn elements_at<T: Element>(p: Process, addr: u64, count: nat) -> Option<Seq<T>> {
    if forall|i: int| 0 <= i < count ==> (#[trigger] T::at(p, wrap_add(addr, i * T::size()))) is Some {
        Some(Seq::new(count, |i: int| T::at(p, wrap_add(addr, i * T::size()))->0))
    } else {
        None
    }
}

/// Reads `count` elements laid one after another from `addr`.
pub fn read_elements<T: Element>(process: &Process, addr: Address, count: u64) -> (r: Option<Vec<T>>)
    ensures
        match r {
            Some(v) => elements_at::<T>(*process, addr.0, count as nat) == Some(v@),
            None => elements_at::<T>(*process, addr.0, count as nat).is_none(),
        },
{
    let w = T::width();
    let mut out: Vec<T> = Vec::new();
    let mut cur = addr;
    let mut i: u64 = 0;
    while i < count
        invariant
            i <= count,
            w == T::size(),
            cur.0 == wrap_add(addr.0, i * T::size()),
            out@.len() == i,
            forall|j: int| 0 <= j < i ==> T::at(*process, wrap_add(addr.0, j * T::size())) == Some(
                #[trigger] out@[j],
            ),
        decreases count - i,
    {
        let v = match T::read_at(process, cur) {
            Some(v) => v,
            None => {
                assert(T::at(*process, wrap_add(addr.0, i * T::size())) is None);
                return None;
            },
        };
        out.push(v);
        proof {
            lemma_wrap_add_twice(addr.0, i * T::size(), T::size() as int);
            assert((i + 1) * T::size() == i * T::size() + T::size()) by (nonlinear_arith);
        }
        cur = cur.add(w);
        i += 1;
    }
    proof {
        assert forall|j: int| 0 <= j < count implies (#[trigger] T::at(
            *process,
            wrap_add(addr.0, j * T::size()),
        )) is Some by {
            assert(T::at(*process, wrap_add(addr.0, j * T::size())) == Some(out@[j]));
        }
        assert(out@ =~= Seq::new(count as nat, |j: int| T::at(*process, wrap_add(addr.0, j * T::size()))->0));
    }
    Some(out)
}

/// The characters of the string object at `object`: its count past the
/// header, judged against the buffer of `n` units, then as many units.
pub open spec fn string_object_at(p: Process, ps: PointerSize, object: u64, n: nat) -> Option<Seq<u16>> {
    if object == 0 {
        None
    } else {
        match p.mem_i32(wrap_add(object, header_size(ps) as int)) {
            Some(count) => if 0 <= count <= n {
                elements_at::<u16>(p, wrap_add(object, header_size(ps) + 4), count as nat)
            } else {
                None
            },
            None => None,
        }
    }
}

/// The characters of the string a reference at `at` holds.
pub open spec fn string_at(p: Process, ps: PointerSize, at: u64, n: nat) -> Option<Seq<u16>> {
    match p.mem_nonnull(at, ps) {
        Some(object) => string_object_at(p, ps, object, n),
        None => None,
    }
}

/// The elements of the array a reference at `at` holds: its length, read at
/// pointer width past the header and judged against the buffer of `n`
/// elements before any narrowing, then as many elements.
pub open spec fn array_at<T: Element>(p: Process, ps: PointerSize, at: u64, n: nat) -> Option<Seq<T>> {
    match p.mem_nonnull(at, ps) {
        Some(object) => match p.mem_ptr(wrap_add(object, header_size(ps) + ps.width()), ps) {
            Some(length) => if length <= n {
                elements_at::<T>(p, wrap_add(object, header_size(ps) + 2 * ps.width()), length as nat)
            } else {
                None
            },
            None => None,
        },
        None => None,
    }
}

/// The references of the array a reference at `at` holds, null ones kept
/// in place.
pub open spec fn reference_array_at(p: Process, ps: PointerSize, at: u64, n: nat) -> Option<Seq<u64>> {
    match p.mem_nonnull(at, ps) {
        Some(object) => match p.mem_ptr(wrap_add(object, header_size(ps) + ps.width()), ps) {
            Some(length) => if length <= n {
                pointers_at(p, ps, wrap_add(object, header_size(ps) + 2 * ps.width()), length as nat)
            } else {
                None
            },
            None => None,
        },
        None => None,
    }
}

/// The `count` pointers laid one after another from `addr`, when all are
/// mapped.
pub open spec fn pointers_at(p: Process, ps: PointerSize, addr: u64, count: nat) -> Option<Seq<u64>> {
    if forall|i: int| 0 <= i < count ==> (#[trigger] p.mem_ptr(wrap_add(addr, i * ps.width()), ps)) is Some {
        Some(Seq::new(count, |i: int| p.mem_ptr(wrap_add(addr, i * ps.width()), ps)->0))
    } else {
        None
    }
}

/// The live elements of the list a reference at `at` holds: its count,
/// judged against the buffer of `n` elements and against the length of its
/// backing array, whose capacity is never read past.
pub open spec fn list_at<T: Element>(p: Process, ps: PointerSize, offsets: ListOffsets, at: u64, n: nat) -> Option<
    Seq<T>,
> {
    match p.mem_nonnull(at, ps) {
        Some(object) => match p.mem_i32(wrap_add(object, offsets.size as int)) {
            Some(size) => if 0 <= size <= n {
                match p.mem_nonnull(wrap_add(object, offsets.items as int), ps) {
                    Some(items) => match p.mem_ptr(wrap_add(items, header_size(ps) + ps.width()), ps) {
                        Some(backing) => if size <= backing {
                            elements_at::<T>(p, wrap_add(items, header_size(ps) + 2 * ps.width()), size as nat)
                        } else {
                            None
                        },
                        None => None,
                    },
                    None => None,
                }
            } else {
                None
            },
            None => None,
        },
        None => None,
    }
}

/// A read refuses rather than truncates: what a buffer of `n` reads holds
/// at most `n` elements, and any larger buffer reads exactly the same.
pub proof fn lemma_larger_buffers_read_the_same<T: Element>(
    p: Process,
    ps: PointerSize,
    offsets: ListOffsets,
    at: u64,
    n: nat,
    m: nat,
)
    requires
        n <= m,
    ensures
        string_at(p, ps, at, n) matches Some(s) ==> s.len() <= n && string_at(p, ps, at, m) == Some(s),
        array_at::<T>(p, ps, at, n) matches Some(a) ==> a.len() <= n && array_at::<T>(p, ps, at, m)
            == Some(a),
        list_at::<T>(p, ps, offsets, at, n) matches Some(l) ==> l.len() <= n && list_at::<T>(
            p,
            ps,
            offsets,
            at,
            m,
        ) == Some(l),
{
}

/// Reads `count` pointers laid one after another from `addr`.
fn read_pointers(process: &Process, ps: PointerSize, addr: Address, count: u64) -> (r: Option<Vec<Address>>)
    ensures
        match r {
            Some(v) => pointers_at(*process, ps, addr.0, count as nat) == Some(v@.map_values(|a: Address| a.0)),
            None => pointers_at(*process, ps, addr.0, count as nat).is_none(),
        },
{
    let w = ps.bytes();
    let mut out: Vec<Address> = Vec::new();
    let mut cur = addr;
    let mut i: u64 = 0;
    while i < count
        invariant
            i <= count,
            w == ps.width(),
            cur.0 == wrap_add(addr.0, i * ps.width()),
            out@.len() == i,
            forall|j: int| 0 <= j < i ==> process.mem_ptr(wrap_add(addr.0, j * ps.width()), ps) == Some(
                (#[trigger] out@[j]).0,
            ),
        decreases count - i,
    {
        let v = match process.read_ptr(cur, ps) {
            Some(v) => v,
            None => {
                assert(process.mem_ptr(wrap_add(addr.0, i * ps.width()), ps) is None);
                return None;
            },
        };
        out.push(v);
        proof {
            lemma_wrap_add_twice(addr.0, i * ps.width(), ps.width() as int);
            assert((i + 1) * ps.width() == i * ps.width() + ps.width()) by (nonlinear_arith);
        }
        cur = cur.add(w);
        i += 1;
    }
    proof {
        assert forall|j: int| 0 <= j < count implies (#[trigger] process.mem_ptr(
            wrap_add(addr.0, j * ps.width()),
            ps,
        )) is Some by {
            assert(process.mem_ptr(wrap_add(addr.0, j * ps.width()), ps) == Some(out@[j].0));
        }
        assert(out@.map_values(|a: Address| a.0) =~= Seq::new(
            count as nat,
            |j: int| process.mem_ptr(wrap_add(addr.0, j * ps.width()), ps)->0,
        ));
    }
    Some(out)
}

/// Reads the managed string object at `object`. The count is the string's
/// length, so a nul character inside the string is kept like any other; a
/// count past the buffer of `N` units refuses rather than truncates, as does
/// a null object.
pub fn read_string_object<const N: usize>(process: &Process, pointer_size: PointerSize, object: Address) -> (r:
    Result<ManagedString<N>, Error>)
    ensures
        match r {
            Ok(s) => string_object_at(*process, pointer_size, object.0, N as nat) == Some(s@) && s@.len() <= N,
            Err(_) => string_object_at(*process, pointer_size, object.0, N as nat).is_none(),
        },
{
    if object.0 == 0 {
        return Err(Error {});
    }
    let header = 2 * pointer_size.bytes();
    let count = match process.read_i32(object.add(header)) {
        Some(c) => c,
        None => return Err(Error {}),
    };
    if count < 0 || count as u64 > N as u64 {
        return Err(Error {});
    }
    match read_elements::<u16>(process, object.add(header + 4), count as u64) {
        Some(units) => Ok(ManagedString::from_units(units)),
        None => Err(Error {}),
    }
}

/// Reads the managed string the reference stored at `at` holds.
pub fn read_string<const N: usize>(process: &Process, pointer_size: PointerSize, at: Address) -> (r: Result<
    ManagedString<N>,
    Error,
>)
    ensures
        match r {
            Ok(s) => string_at(*process, pointer_size, at.0, N as nat) == Some(s@) && s@.len() <= N,
            Err(_) => string_at(*process, pointer_size, at.0, N as nat).is_none(),
        },
{
    let object = match process.read_nonnull(at, pointer_size) {
        Some(o) => o,
        None => return Err(Error {}),
    };
    read_string_object::<N>(process, pointer_size, object)
}

/// Reads the managed array of value elements the reference stored at `at`
/// holds. The length is judged at pointer width before any narrowing, so
/// garbage that a narrower read would truncate small still refuses.
pub fn read_array<T: Element, const N: usize>(process: &Process, pointer_size: PointerSize, at: Address) -> (r:
    Result<ManagedArray<T, N>, Error>)
    ensures
        match r {
            Ok(a) => array_at::<T>(*process, pointer_size, at.0, N as nat) == Some(a@) && a@.len() <= N,
            Err(_) => array_at::<T>(*process, pointer_size, at.0, N as nat).is_none(),
        },
{
    let object = match process.read_nonnull(at, pointer_size) {
        Some(o) => o,
        None => return Err(Error {}),
    };
    let header = 2 * pointer_size.bytes();
    let length = match process.read_ptr(object.add(header + pointer_size.bytes()), pointer_size) {
        Some(l) => l.0,
        None => return Err(Error {}),
    };
    if length > N as u64 {
        return Err(Error {});
    }
    match read_elements::<T>(process, object.add(header + 2 * pointer_size.bytes()), length) {
        Some(elements) => Ok(ManagedArray::from_vec(elements)),
        None => Err(Error {}),
    }
}

/// Reads the managed array of references the reference stored at `at`
/// holds. Null elements are data: they come back as null addresses at their
/// positions. Only a null array reference refuses.
pub fn read_reference_array<const N: usize>(process: &Process, pointer_size: PointerSize, at: Address) -> (r:
    Result<ManagedArray<Address, N>, Error>)
    ensures
        match r {
            Ok(a) => reference_array_at(*process, pointer_size, at.0, N as nat) == Some(
                a@.map_values(|x: Address| x.0),
            ) && a@.len() <= N,
            Err(_) => reference_array_at(*process, pointer_size, at.0, N as nat).is_none(),
        },
{
    let object = match process.read_nonnull(at, pointer_size) {
        Some(o) => o,
        None => return Err(Error {}),
    };
    let header = 2 * pointer_size.bytes();
    let length = match process.read_ptr(object.add(header + pointer_size.bytes()), pointer_size) {
        Some(l) => l.0,
        None => return Err(Error {}),
    };
    if length > N as u64 {
        return Err(Error {});
    }
    match read_pointers(process, pointer_size, object.add(header + 2 * pointer_size.bytes()), length) {
        Some(elements) => {
            assert(elements@.map_values(|x: Address| x.0).len() == length);
            Ok(ManagedArray::from_vec(elements))
        },
        None => Err(Error {}),
    }
}

/// Reads the live elements of the managed list the reference stored at
/// `at` holds, with the offsets a resolution handed out earlier. The count
/// is judged by the buffer, the backing array's capacity is not, and a
/// count past the backing's own length is a torn resize and refuses.
pub fn read_list<T: Element, const N: usize>(
    process: &Process,
    pointer_size: PointerSize,
    offsets: ListOffsets,
    at: Address,
) -> (r: Result<Vec<T>, Error>)
    ensures
        match r {
            Ok(v) => list_at::<T>(*process, pointer_size, offsets, at.0, N as nat) == Some(v@) && v@.len() <= N,
            Err(_) => list_at::<T>(*process, pointer_size, offsets, at.0, N as nat).is_none(),
        },
{
    let object = match process.read_nonnull(at, pointer_size) {
        Some(o) => o,
        None => return Err(Error {}),
    };
    let size = match process.read_i32(object.add(offsets.size as u64)) {
        Some(s) => s,
        None => return Err(Error {}),
    };
    if size < 0 || size as u64 > N as u64 {
        return Err(Error {});
    }
    let items = match process.read_nonnull(object.add(offsets.items as u64), pointer_size) {
        Some(i) => i,
        None => return Err(Error {}),
    };
    let header = 2 * pointer_size.bytes();
    let backing = match process.read_ptr(items.add(header + pointer_size.bytes()), pointer_size) {
        Some(b) => b.0,
        None => return Err(Error {}),
    };
    if size as u64 > backing {
        return Err(Error {});
    }
    match read_elements::<T>(process, items.add(header + 2 * pointer_size.bytes()), size as u64) {
        Some(elements) => Ok(elements),
        None => Err(Error {}),
    }
}


/// Whether an entry whose hash code and link read so is freed: the older
/// corlib marks a freed entry's hash code negative, the newer one links it
/// below the end marker.
pub open spec fn is_freed(hash: i32, next: i32) -> bool {
    hash < 0 || next < -1
}

/// The live pairs of the dictionary entries `i` up to `n` from `at`, in
/// their order, freed entries skipped.
pub open spec fn pairs_from<K: Element, V: Element>(
    p: Process,
    at: u64,
    layout: EntryLayout,
    i: int,
    n: int,
) -> Option<Seq<(K, V)>>
    decreases n - i,
{
    if i >= n {
        Some(Seq::empty())
    } else {
        let e = wrap_add(at, i * layout.stride);
        match (p.mem_i32(wrap_add(e, layout.hash as int)), p.mem_i32(wrap_add(e, layout.next as int))) {
            (Some(hash), Some(next)) => if is_freed(hash, next) {
                pairs_from::<K, V>(p, at, layout, i + 1, n)
            } else {
                match (K::at(p, wrap_add(e, layout.key as int)), V::at(p, wrap_add(e, layout.value as int))) {
                    (Some(k), Some(v)) => match pairs_from::<K, V>(p, at, layout, i + 1, n) {
                        Some(rest) => Some(seq![(k, v)] + rest),
                        None => None,
                    },
                    _ => None,
                }
            },
            _ => None,
        }
    }
}

/// The live values of the hash set slots `i` up to `n` from `at`, in their
/// order, freed slots, whose hash code is negative, skipped.
pub open spec fn values_from<T: Element>(p: Process, at: u64, layout: SlotLayout, i: int, n: int) -> Option<
    Seq<T>,
>
    decreases n - i,
{
    if i >= n {
        Some(Seq::empty())
    } else {
        let s = wrap_add(at, i * layout.stride);
        match p.mem_i32(wrap_add(s, layout.hash as int)) {
            Some(hash) => if hash < 0 {
                values_from::<T>(p, at, layout, i + 1, n)
            } else {
                match T::at(p, wrap_add(s, layout.value as int)) {
                    Some(v) => match values_from::<T>(p, at, layout, i + 1, n) {
                        Some(rest) => Some(seq![v] + rest),
                        None => None,
                    },
                    None => None,
                }
            },
            None => None,
        }
    }
}

/// The backing array a collection field at `field` of `object` holds, and
/// its length: nothing when the field is null or the length unreadable.
pub open spec fn backing_of(p: Process, ps: PointerSize, object: u64, field: u32) -> Option<(u64, u64)> {
    match p.mem_nonnull(wrap_add(object, field as int), ps) {
        Some(array) => match p.mem_ptr(wrap_add(array, header_size(ps) + ps.width()), ps) {
            Some(length) => Some((array, length)),
            None => None,
        },
        None => None,
    }
}

/// The live pairs of the dictionary a reference at `at` holds. The counts
/// have to be sane, the live pairs fit the buffer of `n`, each claimed type
/// fit the room its member has inside one entry, and the counted entries
/// fit the backing; the pairs read are the entries not freed, and their
/// tally has to balance against the counts.
pub open spec fn dictionary_at<K: Element, V: Element>(
    p: Process,
    ps: PointerSize,
    offsets: DictionaryOffsets,
    at: u64,
    n: nat,
) -> Option<Seq<(K, V)>> {
    match p.mem_nonnull(at, ps) {
        None => None,
        Some(object) => match (
            p.mem_i32(wrap_add(object, offsets.count as int)),
            p.mem_i32(wrap_add(object, offsets.free_count as int)),
        ) {
            (Some(count), Some(free)) => if !(0 <= free <= count && count - free <= n
                && offsets.layout.key + K::size() <= offsets.layout.stride && offsets.layout.value
                + V::size() <= offsets.layout.stride) {
                None
            } else if count == 0 {
                Some(Seq::empty())
            } else {
                match backing_of(p, ps, object, offsets.entries) {
                    Some((entries, length)) => if count <= length {
                        match pairs_from::<K, V>(
                            p,
                            wrap_add(entries, header_size(ps) + 2 * ps.width()),
                            offsets.layout,
                            0,
                            count as int,
                        ) {
                            Some(pairs) => if pairs.len() == count - free {
                                Some(pairs)
                            } else {
                                None
                            },
                            None => None,
                        }
                    } else {
                        None
                    },
                    None => None,
                }
            },
            _ => None,
        },
    }
}

/// The live values of the hash set a reference at `at` holds. The walk runs
/// to the high-water mark rather than the live count, since freed slots sit
/// inside it; the count has to fit the buffer of `n`, the claimed type the
/// room of its member, and the live tally has to balance against the count
/// exactly.
pub open spec fn hash_set_at<T: Element>(
    p: Process,
    ps: PointerSize,
    offsets: HashSetOffsets,
    at: u64,
    n: nat,
) -> Option<Seq<T>> {
    match p.mem_nonnull(at, ps) {
        None => None,
        Some(object) => match (
            p.mem_i32(wrap_add(object, offsets.count as int)),
            p.mem_i32(wrap_add(object, offsets.last_index as int)),
        ) {
            (Some(count), Some(last)) => if !(0 <= count <= n && 0 <= last && offsets.layout.value
                + T::size() <= offsets.layout.stride) {
                None
            } else if last == 0 {
                if count == 0 {
                    Some(Seq::empty())
                } else {
                    None
                }
            } else {
                match backing_of(p, ps, object, offsets.slots) {
                    Some((slots, length)) => if last <= length {
                        match values_from::<T>(
                            p,
                            wrap_add(slots, header_size(ps) + 2 * ps.width()),
                            offsets.layout,
                            0,
                            last as int,
                        ) {
                            Some(values) => if values.len() == count {
                                Some(values)
                            } else {
                                None
                            },
                            None => None,
                        }
                    } else {
                        None
                    },
                    None => None,
                }
            },
            _ => None,
        },
    }
}

/// The live references of the list a reference at `at` holds, read at the
/// target's pointer width, null ones kept in place.
pub open spec fn reference_list_at(p: Process, ps: PointerSize, offsets: ListOffsets, at: u64, n: nat) -> Option<
    Seq<u64>,
> {
    match p.mem_nonnull(at, ps) {
        Some(object) => match p.mem_i32(wrap_add(object, offsets.size as int)) {
            Some(size) => if 0 <= size <= n {
                match backing_of(p, ps, object, offsets.items) {
                    Some((items, backing)) => if size <= backing {
                        pointers_at(p, ps, wrap_add(items, header_size(ps) + 2 * ps.width()), size as nat)
                    } else {
                        None
                    },
                    None => None,
                }
            } else {
                None
            },
            None => None,
        },
        None => None,
    }
}

/// Reads the backing array a collection field of `object` holds, and its
/// length.
fn read_backing(process: &Process, ps: PointerSize, object: Address, field: u32) -> (r: Option<(Address, u64)>)
    ensures
        match r {
            Some((a, l)) => backing_of(*process, ps, object.0, field) == Some((a.0, l)),
            None => backing_of(*process, ps, object.0, field).is_none(),
        },
{
    let array = process.read_nonnull(object.add(field as u64), ps)?;
    let length = process.read_ptr(array.add(2 * ps.bytes() + ps.bytes()), ps)?;
    Some((array, length.0))
}

/// What one entry of a walk settles.
enum Step<T> {
    /// The walk stops: something could not be read.
    Fail,
    /// The entry is freed.
    Skip,
    /// The entry is live and holds this.
    Live(T),
}

/// Reads the dictionary entry at `e`.
fn read_pair<K: Element, V: Element>(process: &Process, e: Address, layout: EntryLayout) -> (r: Step<(K, V)>)
    ensures
        match (process.mem_i32(wrap_add(e.0, layout.hash as int)), process.mem_i32(
            wrap_add(e.0, layout.next as int),
        )) {
            (Some(hash), Some(next)) => if is_freed(hash, next) {
                r is Skip
            } else {
                match (K::at(*process, wrap_add(e.0, layout.key as int)), V::at(
                    *process,
                    wrap_add(e.0, layout.value as int),
                )) {
                    (Some(k), Some(v)) => r == Step::Live((k, v)),
                    _ => r is Fail,
                }
            },
            _ => r is Fail,
        },
{
    let hash = match process.read_i32(e.add(layout.hash as u64)) {
        Some(h) => h,
        None => return Step::Fail,
    };
    let next = match process.read_i32(e.add(layout.next as u64)) {
        Some(n) => n,
        None => return Step::Fail,
    };
    if hash < 0 || next < -1 {
        return Step::Skip;
    }
    let k = match K::read_at(process, e.add(layout.key as u64)) {
        Some(k) => k,
        None => return Step::Fail,
    };
    let v = match V::read_at(process, e.add(layout.value as u64)) {
        Some(v) => v,
        None => return Step::Fail,
    };
    Step::Live((k, v))
}

/// Reads the live pairs of `count` dictionary entries from `at`.
fn read_pairs<K: Element, V: Element>(process: &Process, at: Address, layout: EntryLayout, count: u64) -> (r: Option<
    Vec<(K, V)>,
>)
    ensures
        match r {
            Some(v) => pairs_from::<K, V>(*process, at.0, layout, 0, count as int) == Some(v@),
            None => pairs_from::<K, V>(*process, at.0, layout, 0, count as int).is_none(),
        },
{
    let mut out: Vec<(K, V)> = Vec::new();
    let mut cur = at;
    let mut i: u64 = 0;
    while i < count
        invariant
            i <= count,
            cur.0 == wrap_add(at.0, i * layout.stride),
            pairs_from::<K, V>(*process, at.0, layout, 0, count as int) == match pairs_from::<K, V>(
                *process,
                at.0,
                layout,
                i as int,
                count as int,
            ) {
                Some(rest) => Some(out@ + rest),
                None => None,
            },
        decreases count - i,
    {
        let step = read_pair::<K, V>(process, cur, layout);
        proof {
            lemma_wrap_add_twice(at.0, i * layout.stride, layout.stride as int);
            assert((i + 1) * layout.stride == i * layout.stride + layout.stride) by (nonlinear_arith);
        }
        match step {
            Step::Fail => return None,
            Step::Skip => {},
            Step::Live(pair) => {
                proof {
                    let rest = pairs_from::<K, V>(*process, at.0, layout, i + 1, count as int);
                    if let Some(r) = rest {
                        assert(out@ + (seq![pair] + r) =~= out@.push(pair) + r);
                    }
                }
                out.push(pair);
            },
        }
        cur = cur.add(layout.stride as u64);
        i += 1;
    }
    proof {
        assert(out@ + Seq::<(K, V)>::empty() =~= out@);
    }
    Some(out)
}

/// Reads the hash set slot at `s`.
fn read_slot<T: Element>(process: &Process, s: Address, layout: SlotLayout) -> (r: Step<T>)
    ensures
        match process.mem_i32(wrap_add(s.0, layout.hash as int)) {
            Some(hash) => if hash < 0 {
                r is Skip
            } else {
                match T::at(*process, wrap_add(s.0, layout.value as int)) {
                    Some(v) => r == Step::Live(v),
                    None => r is Fail,
                }
            },
            None => r is Fail,
        },
{
    let hash = match process.read_i32(s.add(layout.hash as u64)) {
        Some(h) => h,
        None => return Step::Fail,
    };
    if hash < 0 {
        return Step::Skip;
    }
    match T::read_at(process, s.add(layout.value as u64)) {
        Some(v) => Step::Live(v),
        None => Step::Fail,
    }
}

/// Reads the live values of `count` hash set slots from `at`.
fn read_values<T: Element>(process: &Process, at: Address, layout: SlotLayout, count: u64) -> (r: Option<Vec<T>>)
    ensures
        match r {
            Some(v) => values_from::<T>(*process, at.0, layout, 0, count as int) == Some(v@),
            None => values_from::<T>(*process, at.0, layout, 0, count as int).is_none(),
        },
{
    let mut out: Vec<T> = Vec::new();
    let mut cur = at;
    let mut i: u64 = 0;
    while i < count
        invariant
            i <= count,
            cur.0 == wrap_add(at.0, i * layout.stride),
            values_from::<T>(*process, at.0, layout, 0, count as int) == match values_from::<T>(
                *process,
                at.0,
                layout,
                i as int,
                count as int,
            ) {
                Some(rest) => Some(out@ + rest),
                None => None,
            },
        decreases count - i,
    {
        let step = read_slot::<T>(process, cur, layout);
        proof {
            lemma_wrap_add_twice(at.0, i * layout.stride, layout.stride as int);
            assert((i + 1) * layout.stride == i * layout.stride + layout.stride) by (nonlinear_arith);
        }
        match step {
            Step::Fail => return None,
            Step::Skip => {},
            Step::Live(v) => {
                proof {
                    let rest = values_from::<T>(*process, at.0, layout, i + 1, count as int);
                    if let Some(r) = rest {
                        assert(out@ + (seq![v] + r) =~= out@.push(v) + r);
                    }
                }
                out.push(v);
            },
        }
        cur = cur.add(layout.stride as u64);
        i += 1;
    }
    proof {
        assert(out@ + Seq::<T>::empty() =~= out@);
    }
    Some(out)
}

/// Reads the live pairs of the managed dictionary the reference stored at
/// `at` holds, with the offsets a resolution handed out earlier. `N` bounds
/// the live pairs, never the counted entries or the backing capacity; freed
/// entries are skipped by their marks, and a live tally that cannot balance
/// against the counts refuses rather than answering wrong pairs.
pub fn read_dictionary<K: Element, V: Element, const N: usize>(
    process: &Process,
    pointer_size: PointerSize,
    offsets: DictionaryOffsets,
    at: Address,
) -> (r: Result<Vec<(K, V)>, Error>)
    ensures
        match r {
            Ok(v) => dictionary_at::<K, V>(*process, pointer_size, offsets, at.0, N as nat) == Some(v@),
            Err(_) => dictionary_at::<K, V>(*process, pointer_size, offsets, at.0, N as nat).is_none(),
        },
{
    let object = match process.read_nonnull(at, pointer_size) {
        Some(o) => o,
        None => return Err(Error {}),
    };
    let count = match process.read_i32(object.add(offsets.count as u64)) {
        Some(c) => c,
        None => return Err(Error {}),
    };
    let free = match process.read_i32(object.add(offsets.free_count as u64)) {
        Some(f) => f,
        None => return Err(Error {}),
    };
    let layout = offsets.layout;
    if !(0 <= free && free <= count && (count - free) as u64 <= N as u64 && layout.key as u64
        + K::width() <= layout.stride as u64 && layout.value as u64 + V::width() <= layout.stride as u64) {
        return Err(Error {});
    }
    if count == 0 {
        return Ok(Vec::new());
    }
    let (entries, length) = match read_backing(process, pointer_size, object, offsets.entries) {
        Some(b) => b,
        None => return Err(Error {}),
    };
    if count as u64 > length {
        return Err(Error {});
    }
    let header = 2 * pointer_size.bytes();
    match read_pairs::<K, V>(process, entries.add(header + 2 * pointer_size.bytes()), layout, count as u64) {
        Some(pairs) => if pairs.len() as u64 == (count - free) as u64 {
            Ok(pairs)
        } else {
            Err(Error {})
        },
        None => Err(Error {}),
    }
}

/// Reads the live values of the managed hash set the reference stored at
/// `at` holds, with the offsets a resolution handed out earlier. The walk
/// runs to the high-water mark rather than the live count, since freed slots
/// sit inside it; `N` bounds the live values, and the live tally has to
/// balance against the count exactly.
pub fn read_hash_set<T: Element, const N: usize>(
    process: &Process,
    pointer_size: PointerSize,
    offsets: HashSetOffsets,
    at: Address,
) -> (r: Result<Vec<T>, Error>)
    ensures
        match r {
            Ok(v) => hash_set_at::<T>(*process, pointer_size, offsets, at.0, N as nat) == Some(v@),
            Err(_) => hash_set_at::<T>(*process, pointer_size, offsets, at.0, N as nat).is_none(),
        },
{
    let object = match process.read_nonnull(at, pointer_size) {
        Some(o) => o,
        None => return Err(Error {}),
    };
    let count = match process.read_i32(object.add(offsets.count as u64)) {
        Some(c) => c,
        None => return Err(Error {}),
    };
    let last = match process.read_i32(object.add(offsets.last_index as u64)) {
        Some(l) => l,
        None => return Err(Error {}),
    };
    let layout = offsets.layout;
    if !(0 <= count && count as u64 <= N as u64 && 0 <= last && layout.value as u64 + T::width()
        <= layout.stride as u64) {
        return Err(Error {});
    }
    if last == 0 {
        return if count == 0 {
            Ok(Vec::new())
        } else {
            Err(Error {})
        };
    }
    let (slots, length) = match read_backing(process, pointer_size, object, offsets.slots) {
        Some(b) => b,
        None => return Err(Error {}),
    };
    if last as u64 > length {
        return Err(Error {});
    }
    let header = 2 * pointer_size.bytes();
    match read_values::<T>(process, slots.add(header + 2 * pointer_size.bytes()), layout, last as u64) {
        Some(values) => if values.len() as u64 == count as u64 {
            Ok(values)
        } else {
            Err(Error {})
        },
        None => Err(Error {}),
    }
}

/// Reads the live references of the managed list the reference stored at
/// `at` holds, at the target's pointer width, null elements kept in place.
/// A count past the buffer of `N`, or past the backing array's own length,
/// refuses, as does a null list reference.
pub fn read_reference_list<const N: usize>(
    process: &Process,
    pointer_size: PointerSize,
    offsets: ListOffsets,
    at: Address,
) -> (r: Result<Vec<Address>, Error>)
    ensures
        match r {
            Ok(v) => reference_list_at(*process, pointer_size, offsets, at.0, N as nat) == Some(
                v@.map_values(|a: Address| a.0),
            ),
            Err(_) => reference_list_at(*process, pointer_size, offsets, at.0, N as nat).is_none(),
        },
{
    let object = match process.read_nonnull(at, pointer_size) {
        Some(o) => o,
        None => return Err(Error {}),
    };
    let size = match process.read_i32(object.add(offsets.size as u64)) {
        Some(s) => s,
        None => return Err(Error {}),
    };
    if size < 0 || size as u64 > N as u64 {
        return Err(Error {});
    }
    let (items, backing) = match read_backing(process, pointer_size, object, offsets.items) {
        Some(b) => b,
        None => return Err(Error {}),
    };
    if size as u64 > backing {
        return Err(Error {});
    }
    let header = 2 * pointer_size.bytes();
    match read_pointers(process, pointer_size, items.add(header + 2 * pointer_size.bytes()), size as u64) {
        Some(v) => Ok(v),
        None => Err(Error {}),
    }
}

} // verus!
