//! The scenes a scene manager keeps, and how a scene keeps its path.

use vstd::prelude::*;

use super::offsets::PathShape;
use super::SceneManager;
use crate::primitives::{wrap_add, Address, PointerSize};
use crate::process::{le_u32, le_u64, Error, Process};
use crate::string::{cstr, cstr_at, lemma_cstr_take, read_cstring, ArrayCString};
use crate::game_engine::unity::CSTR;
use crate::text::{find_byte, first_index, last_index, lemma_first_index, lemma_last_index, rfind_byte, sub_bytes};
use vstd::utf8::{decode_utf8, valid_utf8};

verus! {

/// A scene loaded in the attached game.
#[derive(Copy, Clone, Debug)]
pub struct Scene {
    /// Where the scene lives.
    pub address: Address,
}

/// The longest path a spilled path field is believed to point at.
pub const LONGEST_PATH: u64 = 4096;

/// The word of the pointer width at `at` in a path field.
pub open spec fn field_word(field: Seq<u8>, at: int, ps: PointerSize) -> u64 {
    match ps {
        PointerSize::Bit64 => le_u64(field.subrange(at, at + 8)),
        _ => le_u32(field.subrange(at, at + 4)) as u64,
    }
}

/// The path behind the pointer at the start of a path field, when the
/// length after the pointer is believable and the text at the pointer has
/// that length, or fills all `n` bytes read when the length is longer.
pub open spec fn spilled_path_of(p: Process, field: Seq<u8>, ps: PointerSize, n: nat) -> Option<Seq<u8>> {
    let pointer = field_word(field, 0, ps);
    let len = field_word(field, ps.width() as int, ps);
    if pointer == 0 || len > LONGEST_PATH {
        None
    } else {
        match cstr_at(p, pointer, n) {
            Some(text) => if text.len() == len || (text.len() == n && len > n) {
                Some(text)
            } else {
                None
            },
            None => None,
        }
    }
}

/// The length of the path kept inline in a path field, when the field holds
/// an inline path: the length the spare byte names, or the position of the
/// first nul, with the path free of nuls and ended by one unless it fills
/// 31 bytes.
pub open spec fn inline_len_of(field: Seq<u8>, shape: PathShape) -> Option<int> {
    let len = match shape {
        PathShape::InlineSpare => if field[31] <= 31 {
            Some(31 - field[31])
        } else {
            None
        },
        _ => first_index(field, 0),
    };
    match len {
        Some(l) => if l <= 31 && (l == 31 || field[l] == 0) && !field.take(l).contains(0) {
            Some(l)
        } else {
            None
        },
        None => None,
    }
}

/// The path of the scene at `scene`, read as up to `n` bytes. A pointer
/// field leads to the text. A field that may hold the path inline is a
/// union: the spilled form is tried first, because the bytes past an inline
/// path's nul are unrelated data that must not read as a path.
pub open spec fn path_of(p: Process, sm: SceneManager, scene: u64, n: nat) -> Option<Seq<u8>> {
    let at = wrap_add(scene, sm.profile.scene.path as int);
    if sm.profile.path == PathShape::Pointer {
        match p.mem_ptr(at, sm.pointer_size) {
            Some(a) => cstr_at(p, a, n),
            None => None,
        }
    } else {
        match p.mem(at, 32) {
            None => None,
            Some(field) => match spilled_path_of(p, field, sm.pointer_size, n) {
                Some(text) => Some(text),
                None => match inline_len_of(field, sm.profile.path) {
                    Some(len) => Some(field.take(if len <= n { len } else { n as int })),
                    None => None,
                },
            },
        }
    }
}

/// Decodes the word of the pointer width at `at` in a path field.
fn read_field_word(field: &Vec<u8>, at: usize, ps: PointerSize) -> (w: u64)
    requires
        field@.len() == 32,
        at == 0 || at == ps.width(),
    ensures
        w == field_word(field@, at as int, ps),
{
    match ps {
        PointerSize::Bit64 => {
            let lo = (field[at] as u64) + (field[at + 1] as u64) * 0x100 + (field[at + 2] as u64)
                * 0x1_0000 + (field[at + 3] as u64) * 0x100_0000;
            let hi = (field[at + 4] as u64) + (field[at + 5] as u64) * 0x100 + (field[at + 6] as u64)
                * 0x1_0000 + (field[at + 7] as u64) * 0x100_0000;
            proof {
                let b = field@.subrange(at as int, at + 8);
                assert(b[0] == field@[at as int] && b[1] == field@[at + 1] && b[2] == field@[at + 2]
                    && b[3] == field@[at + 3] && b[4] == field@[at + 4] && b[5] == field@[at + 5]
                    && b[6] == field@[at + 6] && b[7] == field@[at + 7]);
            }
            lo + hi * 0x1_0000_0000
        },
        _ => {
            proof {
                let b = field@.subrange(at as int, at + 4);
                assert(b[0] == field@[at as int] && b[1] == field@[at + 1] && b[2] == field@[at + 2]
                    && b[3] == field@[at + 3]);
            }
            ((field[at] as u32) + (field[at + 1] as u32) * 0x100 + (field[at + 2] as u32) * 0x1_0000
                + (field[at + 3] as u32) * 0x100_0000) as u64
        },
    }
}

/// The name of a scene file from its path: what follows the last `/`, up to
/// the last `.` after it.
pub open spec fn file_stem(path: Seq<u8>) -> Seq<u8> {
    let file = match last_index(path, 0x2F) {
        Some(i) => path.subrange(i + 1, path.len() as int),
        None => path,
    };
    match last_index(file, 0x2E) {
        Some(j) => file.take(j),
        None => file,
    }
}

/// A scene file's stem holds no `/`, and is a part of its path.
pub proof fn lemma_file_stems_hold_no_separator(path: Seq<u8>)
    ensures
        !file_stem(path).contains(0x2F),
        file_stem(path).len() <= path.len(),
{
    lemma_last_index(path, 0x2F);
    let file = match last_index(path, 0x2F) {
        Some(i) => path.subrange(i + 1, path.len() as int),
        None => path,
    };
    assert forall|k: int| 0 <= k < file.len() implies file[k] != 0x2F by {
        if let Some(i) = last_index(path, 0x2F) {
            assert(file[k] == path[i + 1 + k]);
        }
    }
    lemma_last_index(file, 0x2E);
    let stem = file_stem(path);
    assert forall|k: int| 0 <= k < stem.len() implies stem[k] != 0x2F by {
        assert(stem[k] == file[k]);
    }
}

/// Decodes UTF-8 text into a `String`, through `String::from_utf8`: the
/// text when the bytes are valid UTF-8, nothing otherwise.
#[verifier::external_body]
fn utf8_string(bytes: Vec<u8>) -> (r: Option<String>)
    ensures
        match r {
            Some(s) => valid_utf8(bytes@) && s@ == decode_utf8(bytes@),
            None => !valid_utf8(bytes@),
        },
{
    String::from_utf8(bytes).ok()
}

/// Cuts a byte string after its last `/` and before the last `.` that
/// follows.
fn stem_of(path: &[u8]) -> (r: Vec<u8>)
    ensures
        r@ == file_stem(path@),
{
    let n = path.len();
    proof {
        assert(path@.take(n as int) =~= path@);
        lemma_last_index(path@, 0x2F);
    }
    let start = match rfind_byte(path, n, 0x2F) {
        Some(i) => i + 1,
        None => 0,
    };
    let file = sub_bytes(path, start, n);
    proof {
        assert(file@ =~= match last_index(path@, 0x2F) {
            Some(i) => path@.subrange(i + 1, path@.len() as int),
            None => path@,
        });
        assert(file@.take(file@.len() as int) =~= file@);
        lemma_last_index(file@, 0x2E);
    }
    let m = file.len();
    match rfind_byte(file.as_slice(), m, 0x2E) {
        Some(j) => sub_bytes(file.as_slice(), 0, j),
        None => file,
    }
}

impl Scene {
    /// Returns the address of the scene in the attached game.
    pub fn address(&self) -> (a: Address)
        ensures
            a == self.address,
    {
        self.address
    }

    /// Returns [`true`] if the address of the scene still points to valid
    /// memory.
    pub fn is_valid(&self, process: &Process) -> (b: bool)
        ensures
            b == process.mem_u8(self.address.0) is Some,
    {
        process.read_u8(self.address).is_some()
    }

    /// Returns the build index of the scene. This index is unique to each
    /// scene in the game.
    pub fn index(&self, process: &Process, scene_manager: &SceneManager) -> (r: Result<i32, Error>)
        ensures
            match r {
                Ok(i) => process.mem_i32(
                    wrap_add(self.address.0, scene_manager.profile.scene.build_index as int),
                ) == Some(i),
                Err(_) => process.mem_i32(
                    wrap_add(self.address.0, scene_manager.profile.scene.build_index as int),
                ).is_none(),
            },
    {
        match process.read_i32(self.address.add(scene_manager.profile.scene.build_index as u64)) {
            Some(i) => Ok(i),
            None => Err(Error {}),
        }
    }

    /// Returns the full asset path of the scene.
    ///
    /// Usually looks like "`Assets/some/path/scene.unity`".
    pub fn path<const N: usize>(&self, process: &Process, scene_manager: &SceneManager) -> (r: Result<
        ArrayCString<N>,
        Error,
    >)
        ensures
            match r {
                Ok(s) => path_of(*process, *scene_manager, self.address.0, N as nat) == Some(s@),
                Err(_) => path_of(*process, *scene_manager, self.address.0, N as nat).is_none(),
            },
    {
        let at = self.address.add(scene_manager.profile.scene.path as u64);
        let pointer_size = scene_manager.pointer_size;
        let shape = scene_manager.profile.path;
        if shape == PathShape::Pointer {
            let text_at = match process.read_ptr(at, pointer_size) {
                Some(a) => a,
                None => return Err(Error {}),
            };
            return read_cstring::<N>(process, text_at);
        }
        let field = match process.read_bytes(at, 32) {
            Some(f) => f,
            None => return Err(Error {}),
        };
        if let Some(path) = Self::spilled_path::<N>(process, &field, pointer_size) {
            return Ok(path);
        }
        let len = match Self::inline_len(&field, shape) {
            Some(l) => l,
            None => return Err(Error {}),
        };
        let take = if len <= N {
            len
        } else {
            N
        };
        let mut text: Vec<u8> = Vec::new();
        let mut k: usize = 0;
        while k < take
            invariant
                0 <= k <= take,
                take <= len <= 31,
                field@.len() == 32,
                text@ =~= field@.take(k as int),
            decreases take - k,
        {
            text.push(field[k]);
            k += 1;
        }
        proof {
            assert(!field@.take(len as int).contains(0));
            assert forall|j: int| 0 <= j < take implies text@[j] != 0 by {
                assert(field@.take(len as int)[j] == text@[j]);
            }
            lemma_cstr_take(text@, take as int);
            assert(text@.take(take as int) =~= text@);
        }
        Ok(ArrayCString::from_read_bytes(text.as_slice()))
    }

    /// Reads the path behind the pointer at the start of the field, when the
    /// length after the pointer is believable and the text at the pointer
    /// has that length.
    fn spilled_path<const N: usize>(process: &Process, field: &Vec<u8>, pointer_size: PointerSize) -> (r:
        Option<ArrayCString<N>>)
        requires
            field@.len() == 32,
        ensures
            match r {
                Some(s) => spilled_path_of(*process, field@, pointer_size, N as nat) == Some(s@),
                None => spilled_path_of(*process, field@, pointer_size, N as nat).is_none(),
            },
    {
        let pointer = read_field_word(field, 0, pointer_size);
        let len = read_field_word(field, pointer_size.bytes() as usize, pointer_size);
        if pointer == 0 || len > LONGEST_PATH {
            return None;
        }
        let path = match read_cstring::<N>(process, Address(pointer)) {
            Ok(p) => p,
            Err(_) => return None,
        };
        let read = path.len() as u64;
        if read == len || (read == N as u64 && len > N as u64) {
            Some(path)
        } else {
            None
        }
    }

    /// Returns the length of the path kept inline in the field, or `None`
    /// when the field holds no inline path.
    #[verifier::loop_isolation(false)]
    fn inline_len(field: &Vec<u8>, shape: PathShape) -> (r: Option<usize>)
        requires
            field@.len() == 32,
        ensures
            match r {
                Some(l) => inline_len_of(field@, shape) == Some(l as int),
                None => inline_len_of(field@, shape).is_none(),
            },
    {
        let len = match shape {
            PathShape::InlineSpare => {
                if field[31] > 31 {
                    return None;
                }
                31 - field[31] as usize
            },
            _ => match find_byte(field.as_slice(), 0) {
                Some(i) => i,
                None => return None,
            },
        };
        if len > 31 {
            return None;
        }
        if len != 31 && field[len] != 0 {
            return None;
        }
        let mut k: usize = 0;
        while k < len
            invariant
                0 <= k <= len,
                len <= 31,
                field@.len() == 32,
                forall|j: int| 0 <= j < k ==> field@[j] != 0,
            decreases len - k,
        {
            if field[k] == 0 {
                proof {
                    assert(field@.take(len as int)[k as int] == 0);
                }
                return None;
            }
            k += 1;
        }
        proof {
            assert forall|j: int| 0 <= j < len implies field@.take(len as int)[j] != 0 by {}
            if field@.take(len as int).contains(0) {
                let j = choose|j: int| 0 <= j < len && field@.take(len as int)[j] == 0;
            }
        }
        Some(len)
    }
    /// Returns the full path of the scene as a `String`, when it is valid
    /// UTF-8.
    pub fn path_as_string(&self, process: &Process, scene_manager: &SceneManager) -> (r: Result<
        String,
        Error,
    >)
        ensures
            match r {
                Ok(s) => path_of(*process, *scene_manager, self.address.0, CSTR as nat) matches Some(
                    path,
                ) && valid_utf8(path) && s@ == decode_utf8(path),
                Err(_) => match path_of(*process, *scene_manager, self.address.0, CSTR as nat) {
                    Some(path) => !valid_utf8(path),
                    None => true,
                },
            },
    {
        let path = self.path::<CSTR>(process, scene_manager)?;
        let bytes = sub_bytes(path.as_bytes(), 0, path.len());
        proof {
            assert(bytes@ =~= path@);
        }
        match utf8_string(bytes) {
            Some(s) => Ok(s),
            None => Err(Error {}),
        }
    }

    /// Returns the name of the scene as a `String`: what follows the path's
    /// last `/`, up to the last `.` after it.
    pub fn name(&self, process: &Process, scene_manager: &SceneManager) -> (r: Result<String, Error>)
        ensures
            match r {
                Ok(s) => path_of(*process, *scene_manager, self.address.0, CSTR as nat) matches Some(
                    path,
                ) && valid_utf8(path) && valid_utf8(file_stem(path)) && s@ == decode_utf8(
                    file_stem(path),
                ),
                Err(_) => match path_of(*process, *scene_manager, self.address.0, CSTR as nat) {
                    Some(path) => !valid_utf8(path) || !valid_utf8(file_stem(path)),
                    None => true,
                },
            },
    {
        let path = self.path::<CSTR>(process, scene_manager)?;
        let bytes = sub_bytes(path.as_bytes(), 0, path.len());
        proof {
            assert(bytes@ =~= path@);
        }
        let stem = stem_of(bytes.as_slice());
        if utf8_string(bytes).is_none() {
            return Err(Error {});
        }
        match utf8_string(stem) {
            Some(s) => Ok(s),
            None => Err(Error {}),
        }
    }
}

} // verus!
