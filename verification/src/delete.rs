//! The checks before a vault entry is deleted.

use vstd::prelude::*;

use crate::error::ErrorKind;
use crate::path::{
    file_name, is_bare_file_name, join_name, joined, lemma_file_name_is_bare, parent_of,
    path_file_name, same_path,
    std_path_parent, std_paths_equal,
};
use crate::text::chars_of;

verus! {

/// Whether `c` is white space, as `char::is_whitespace` decides it (the
/// Unicode `White_Space` property).
pub open spec fn is_white_space(c: char) -> bool {
    let u = c as u32;
    (0x09 <= u && u <= 0x0D) || u == 0x20 || u == 0x85 || u == 0xA0 || u == 0x1680 || (0x2000 <= u
        && u <= 0x200A) || u == 0x2028 || u == 0x2029 || u == 0x202F || u == 0x205F || u == 0x3000
}

/// `s` without its leading white space.
pub open spec fn trim_start(s: Seq<char>) -> Seq<char>
    decreases s.len(),
{
    if s.len() > 0 && is_white_space(s[0]) {
        trim_start(s.drop_first())
    } else {
        s
    }
}

/// `s` without its trailing white space.
pub open spec fn trim_end(s: Seq<char>) -> Seq<char>
    decreases s.len(),
{
    if s.len() > 0 && is_white_space(s.last()) {
        trim_end(s.drop_last())
    } else {
        s
    }
}

fn white_space(c: char) -> (r: bool)
    ensures
        r == is_white_space(c),
{
    let u = c as u32;
    (0x09 <= u && u <= 0x0D) || u == 0x20 || u == 0x85 || u == 0xA0 || u == 0x1680 || (0x2000 <= u
        && u <= 0x200A) || u == 0x2028 || u == 0x2029 || u == 0x202F || u == 0x205F || u == 0x3000
}

/// Whether the answer to the confirmation prompt is `YES`, white space
/// around it aside.
pub fn answer_confirms(answer: &str) -> (r: bool)
    ensures
        r == (trim_end(trim_start(answer@)) == seq!['Y', 'E', 'S']),
{
    let chars = chars_of(answer);
    let n = chars.len();
    let mut start: usize = 0;
    assert(chars@.subrange(0, n as int) == chars@);
    while start < n && white_space(chars[start])
        invariant
            start <= n == chars@.len(),
            trim_start(chars@) == trim_start(chars@.subrange(start as int, n as int)),
        decreases n - start,
    {
        assert(chars@.subrange(start as int, n as int).drop_first() == chars@.subrange(
            start + 1,
            n as int,
        ));
        start = start + 1;
    }
    let ghost t = chars@.subrange(start as int, n as int);
    assert(trim_start(chars@) == t);
    let mut end: usize = n;
    assert(t.subrange(0, t.len() as int) == t);
    while end > start && white_space(chars[end - 1])
        invariant
            start <= end <= n == chars@.len(),
            t == chars@.subrange(start as int, n as int),
            trim_end(t) == trim_end(chars@.subrange(start as int, end as int)),
        decreases end - start,
    {
        assert(chars@.subrange(start as int, end as int).drop_last() == chars@.subrange(
            start as int,
            end - 1,
        ));
        end = end - 1;
    }
    let ghost u = chars@.subrange(start as int, end as int);
    assert(trim_end(t) == u);
    if end - start != 3 {
        return false;
    }
    let r = chars[start] == 'Y' && chars[start + 1] == 'E' && chars[start + 2] == 'S';
    assert(r ==> u == seq!['Y', 'E', 'S']);
    assert(u == seq!['Y', 'E', 'S'] ==> u[0] == 'Y' && u[1] == 'E' && u[2] == 'S');
    r
}

/// Why a deletion was refused.
#[derive(Debug, Clone, Copy, PartialEq, Eq, Structural)]
pub enum DeleteError {
    /// The vault path is not a directory.
    InvalidVaultDirectory,
    /// The name is neither a bare file name nor a path inside the vault.
    InvalidStoredFileName,
    /// The file is not a regular file or has other links.
    UnsafeToWipe,
}

impl DeleteError {
    /// The category of the failure: always `InvalidInput`.
    pub fn kind(&self) -> (r: ErrorKind)
        ensures
            r == ErrorKind::InvalidInput,
    {
        ErrorKind::InvalidInput
    }
}

/// Whether `name` designates an entry of the vault at `base`: a bare file
/// name, or a path whose parent is the vault directory; the entry's file name.
pub open spec fn stored_name(base: Seq<char>, name: Seq<char>) -> Option<Seq<char>> {
    if path_file_name(name) == Some(name) {
        Some(name)
    } else {
        match (std_path_parent(name), path_file_name(name)) {
            (Some(parent), Some(f)) => if std_paths_equal(parent, base) {
                Some(f)
            } else {
                None
            },
            _ => None,
        }
    }
}

/// The path of the vault entry designated by `name` in the vault at
/// `base_path`, whose metadata says whether it is a directory. `name` is
/// either a bare file name or a path inside the vault directory, such as
/// `~/secure-safe/secret.txt`; anything else is refused.
pub fn resolve_stored_file(base_path: &str, base_is_directory: bool, name: &str) -> (r: Result<
    String,
    DeleteError,
>)
    ensures
        !base_is_directory ==> r == Err::<String, DeleteError>(DeleteError::InvalidVaultDirectory),
        base_is_directory && stored_name(base_path@, name@) is None ==> r == Err::<
            String,
            DeleteError,
        >(DeleteError::InvalidStoredFileName),
        base_is_directory ==> (stored_name(base_path@, name@) matches Some(f) ==> (r matches Ok(p)
            && p@ == joined(base_path@, f))),
        r matches Ok(p) ==> (stored_name(base_path@, name@) matches Some(f) && path_file_name(f)
            == Some(f) && p@ == joined(base_path@, f)),
{
    proof {
        if path_file_name(name@) is Some {
            lemma_file_name_is_bare(name@);
        }
    }
    if !base_is_directory {
        return Err(DeleteError::InvalidVaultDirectory);
    }
    if is_bare_file_name(name) {
        return Ok(join_name(base_path, name));
    }
    match (parent_of(name), file_name(name)) {
        (Some(parent), Some(f)) => {
            if same_path(parent.as_str(), base_path) {
                Ok(join_name(base_path, f.as_str()))
            } else {
                Err(DeleteError::InvalidStoredFileName)
            }
        },
        _ => Err(DeleteError::InvalidStoredFileName),
    }
}

/// Refuses to wipe anything but a regular file with a single link.
pub fn ensure_safe_to_wipe(is_regular_file: bool, link_count: u64) -> (r: Result<(), DeleteError>)
    ensures
        r is Ok <==> (is_regular_file && link_count == 1),
        r is Err ==> r == Err::<(), DeleteError>(DeleteError::UnsafeToWipe),
{
    if !is_regular_file || link_count != 1 {
        return Err(DeleteError::UnsafeToWipe);
    }
    Ok(())
}

} // verus!
