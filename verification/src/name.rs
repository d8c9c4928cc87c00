//! Lock names: which are accepted, and the operating-system object each one
//! stands for.

use crate::error::Error;
use vstd::prelude::*;
use vstd::string::{StrSliceExecFns, StringExecFns, StringSliceAdditionalSpecFns};
use vstd::utf8::{
    decode_utf8, encode_scalar, encode_utf8, encode_utf8_decode_utf8, has_width_1_encoding,
    has_width_2_encoding, has_width_3_encoding, last_continuation_byte, leading_byte_width_1,
    leading_byte_width_2, leading_byte_width_3, leading_byte_width_4,
    second_last_continuation_byte, third_last_continuation_byte,
};

verus! {

/// The characters that no lock name may hold: NUL, `/` and `\`.
pub open spec fn is_forbidden(c: char) -> bool {
    c == '\0' || c == '/' || c == '\\'
}

/// Some character of `name` is forbidden.
pub open spec fn has_forbidden(name: Seq<char>) -> bool {
    exists|i: int| 0 <= i < name.len() && is_forbidden(#[trigger] name[i])
}

/// A name is valid when it is not empty and holds no forbidden character.
pub open spec fn is_valid_name(name: Seq<char>) -> bool {
    name.len() > 0 && !has_forbidden(name)
}

/// What validation answers for `name`: emptiness is reported before a
/// forbidden character.
pub open spec fn name_verdict(name: Seq<char>) -> Result<(), Error> {
    if name.len() == 0 {
        Err(Error::EmptyName)
    } else if has_forbidden(name) {
        Err(Error::InvalidCharacter)
    } else {
        Ok(())
    }
}

/// Checks a lock name before anything is asked of the operating system.
pub fn validate_name(name: &str) -> (verdict: Result<(), Error>)
    ensures
        verdict == name_verdict(name@),
        verdict is Ok <==> is_valid_name(name@),
{
    if name.is_empty() {
        return Err(Error::EmptyName);
    }
    for c in it: name.chars()
        invariant
            it.seq() == name@,
            forall|i: int| 0 <= i < it.index() ==> !is_forbidden(#[trigger] name@[i]),
    {
        if c == '\0' || c == '/' || c == '\\' {
            return Err(Error::InvalidCharacter);
        }
    }
    Ok(())
}

/// Where the lock object of a name lives.
#[derive(Debug)]
pub enum Platform {
    /// A lock file in a temporary directory; `None` stands for the default
    /// directory `/tmp`.
    Unix { temp_dir: Option<Vec<u8>> },
    /// A mutex object in the global kernel namespace.
    Windows,
}

/// `/`, the byte that separates the parts of a path.
pub const SEPARATOR: u8 = 0x2f;

/// `/tmp`, the directory used when none is given.
pub open spec fn default_temp_dir() -> Seq<u8> {
    encode_utf8("/tmp"@)
}

/// `dir` made ready to take a file name: a separator follows it unless it is
/// empty or already ends in one.
pub open spec fn directory_prefix(dir: Seq<u8>) -> Seq<u8> {
    if dir.len() == 0 || dir.last() == SEPARATOR {
        dir
    } else {
        dir.push(SEPARATOR)
    }
}

/// `<name>.lock` in UTF-8: the file name of the lock file of `name`.
pub open spec fn lock_file_name_of(name: Seq<char>) -> Seq<u8> {
    encode_utf8(name + ".lock"@)
}

/// The lock file of `name`: `<temp_dir>/<name>.lock`, with `/tmp` for the
/// directory where none is given.
pub open spec fn lock_file_path_of(temp_dir: Option<Seq<u8>>, name: Seq<char>) -> Seq<u8> {
    let dir = match temp_dir {
        Some(dir) => dir,
        None => default_temp_dir(),
    };
    directory_prefix(dir) + lock_file_name_of(name)
}

/// `Global\`, the namespace of the mutex objects: the one that every session
/// of the machine sees.
pub open spec fn global_namespace() -> Seq<char> {
    "Global\\"@
}

/// The mutex object of `name`: `Global\<name>` in UTF-8.
pub open spec fn global_object_name_of(name: Seq<char>) -> Seq<u8> {
    encode_utf8(global_namespace() + name)
}

/// The identifier of the lock object of `name` on `platform`.
pub open spec fn resource_id_of(platform: Platform, name: Seq<char>) -> Seq<u8> {
    match platform {
        Platform::Unix { temp_dir: Some(dir) } => lock_file_path_of(Some(dir@), name),
        Platform::Unix { temp_dir: None } => lock_file_path_of(None, name),
        Platform::Windows => global_object_name_of(name),
    }
}

/// Builds the path of the lock file of `name` below `temp_dir`, or below `/tmp`
/// where no directory is given.
pub fn lock_file_path(temp_dir: Option<&[u8]>, name: &str) -> (path: Vec<u8>)
    ensures
        path@ == lock_file_path_of(
            match temp_dir {
                Some(dir) => Some(dir@),
                None => None,
            },
            name@,
        ),
{
    let mut path: Vec<u8> = Vec::new();
    match temp_dir {
        Some(dir) => path.extend_from_slice(dir),
        None => path.extend_from_slice("/tmp".as_bytes()),
    }
    let len = path.len();
    if len > 0 && path[len - 1] != SEPARATOR {
        path.push(SEPARATOR);
    }
    let mut file = String::from_str(name);
    file.append(".lock");
    path.extend_from_slice(file.as_str().as_bytes());
    path
}

/// Builds the name of the mutex object of `name` in the global namespace.
pub fn global_object_name(name: &str) -> (id: Vec<u8>)
    ensures
        id@ == global_object_name_of(name@),
{
    let mut text = String::from_str("Global\\");
    text.append(name);
    text.as_str().as_bytes_vec()
}

/// Builds the identifier of the lock object of `name` on `platform`.
pub fn resource_id(platform: &Platform, name: &str) -> (id: Vec<u8>)
    ensures
        id@ == resource_id_of(*platform, name@),
{
    match platform {
        Platform::Unix { temp_dir: Some(dir) } => lock_file_path(Some(dir.as_slice()), name),
        Platform::Unix { temp_dir: None } => lock_file_path(None, name),
        Platform::Windows => global_object_name(name),
    }
}

/// The bytes that stand for the forbidden characters: NUL, `/` and `\`.
pub open spec fn is_forbidden_byte(byte: u8) -> bool {
    byte == 0x00 || byte == 0x2f || byte == 0x5c
}

/// The encoding of one character holds a forbidden byte only where the
/// character itself is forbidden: a character beyond ASCII is made of bytes
/// with the top bit set.
proof fn lemma_scalar_bytes(c: char, i: int)
    requires
        !is_forbidden(c),
        0 <= i < encode_scalar(c as u32).len(),
    ensures
        !is_forbidden_byte(encode_scalar(c as u32)[i]),
{
    let scalar = c as u32;
    if has_width_1_encoding(scalar) {
        let byte = leading_byte_width_1(scalar);
        assert(byte != 0x00 && byte != 0x2f && byte != 0x5c) by (bit_vector)
            requires
                byte == (scalar & 0x7F) as u8,
                scalar <= 0x7F,
                scalar != 0x00 && scalar != 0x2f && scalar != 0x5c,
        ;
    } else {
        let lead = if has_width_2_encoding(scalar) {
            leading_byte_width_2(scalar)
        } else if has_width_3_encoding(scalar) {
            leading_byte_width_3(scalar)
        } else {
            leading_byte_width_4(scalar)
        };
        assert(lead >= 0x80) by (bit_vector)
            requires
                lead == 0xC0u8 | ((scalar >> 6) & 0x1F) as u8 || lead == 0xE0u8 | ((scalar >> 12)
                    & 0x0F) as u8 || lead == 0xF0u8 | ((scalar >> 18) & 0x7) as u8,
        ;
        let last = last_continuation_byte(scalar);
        assert(last >= 0x80) by (bit_vector)
            requires
                last == 0x80u8 | (scalar & 0x3F) as u8,
        ;
        let second = second_last_continuation_byte(scalar);
        assert(second >= 0x80) by (bit_vector)
            requires
                second == 0x80u8 | ((scalar >> 6) & 0x3F) as u8,
        ;
        let third = third_last_continuation_byte(scalar);
        assert(third >= 0x80) by (bit_vector)
            requires
                third == 0x80u8 | ((scalar >> 12) & 0x3F) as u8,
        ;
    }
}

/// Text without a forbidden character is encoded without a forbidden byte:
/// in a path it is one component, and in a C string it does not end early.
proof fn lemma_text_bytes(text: Seq<char>, i: int)
    requires
        !has_forbidden(text),
        0 <= i < encode_utf8(text).len(),
    ensures
        !is_forbidden_byte(encode_utf8(text)[i]),
    decreases text.len(),
{
    if text.len() > 0 {
        let head = encode_scalar(text[0] as u32);
        let rest = text.drop_first();
        assert forall|k: int| 0 <= k < rest.len() implies !is_forbidden(#[trigger] rest[k]) by {
            assert(rest[k] == text[k + 1]);
        }
        if i < head.len() {
            lemma_scalar_bytes(text[0], i);
        } else {
            lemma_text_bytes(rest, i - head.len());
        }
    }
}

/// The file name of the lock file of a valid name holds no forbidden byte.
pub proof fn lemma_lock_file_name_bytes(name: Seq<char>, i: int)
    requires
        !has_forbidden(name),
        0 <= i < lock_file_name_of(name).len(),
    ensures
        !is_forbidden_byte(lock_file_name_of(name)[i]),
{
    reveal_strlit(".lock");
    let text = name + ".lock"@;
    assert forall|k: int| 0 <= k < text.len() implies !is_forbidden(#[trigger] text[k]) by {
        if k < name.len() {
            assert(text[k] == name[k]);
        } else {
            assert(text[k] == ".lock"@[k - name.len()]);
        }
    }
    lemma_text_bytes(text, i);
}

/// What stands between the same beginning and the same ending is the same
/// where the results are.
proof fn lemma_middle_is_unique<T>(before: Seq<T>, first: Seq<T>, second: Seq<T>, after: Seq<T>)
    requires
        before + first + after == before + second + after,
    ensures
        first == second,
{
    let left = before + first + after;
    let right = before + second + after;
    assert(left.len() == before.len() + first.len() + after.len());
    assert(right.len() == before.len() + second.len() + after.len());
    assert forall|i: int| 0 <= i < first.len() implies first[i] == second[i] by {
        assert(left[before.len() + i] == first[i]);
        assert(right[before.len() + i] == second[i]);
    }
    assert(first =~= second);
}

/// On one platform, two names that differ stand for two lock objects.
pub proof fn lemma_resource_id_is_injective(platform: Platform, first: Seq<char>, second: Seq<char>)
    requires
        resource_id_of(platform, first) == resource_id_of(platform, second),
    ensures
        first == second,
{
    match platform {
        Platform::Unix { temp_dir } => {
            let dir = match temp_dir {
                Some(dir) => dir@,
                None => default_temp_dir(),
            };
            lemma_middle_is_unique(
                directory_prefix(dir),
                lock_file_name_of(first),
                lock_file_name_of(second),
                Seq::empty(),
            );
            encode_utf8_decode_utf8(first + ".lock"@);
            encode_utf8_decode_utf8(second + ".lock"@);
            lemma_middle_is_unique(Seq::empty(), first, second, ".lock"@);
        },
        Platform::Windows => {
            encode_utf8_decode_utf8(global_namespace() + first);
            encode_utf8_decode_utf8(global_namespace() + second);
            lemma_middle_is_unique(global_namespace(), first, second, Seq::empty());
        },
    }
}

} // verus!
