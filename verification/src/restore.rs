//! Opening a vault entry: reading its header, checking its hash and
//! decrypting its contents for the path it records.

use vstd::prelude::*;

use crate::add::is_entry_for;
use crate::crypto::blake3_digest;
use crate::encryption::contents::{open_payload, sealed_payload, ContentError, Safe};
use crate::encryption::password::{Derived, Password};
use crate::error::ErrorKind;
use crate::file_format::header::{
    header_bytes, lemma_load_saved_header, parse_header, Header, HeaderError, Load, Red,
};

verus! {

/// Why an entry could not be opened.
#[derive(Debug, Clone, Copy, PartialEq, Eq, Structural)]
pub enum RestoreError {
    /// The header could not be read.
    Header(HeaderError),
    /// The contents could not be decrypted.
    Content(ContentError),
}

/// The category of a failure to open an entry.
pub open spec fn restore_error_kind(e: RestoreError) -> ErrorKind {
    match e {
        RestoreError::Header(HeaderError::Truncated) => ErrorKind::UnexpectedEof,
        RestoreError::Header(_) => ErrorKind::InvalidData,
        RestoreError::Content(ContentError::Truncated) => ErrorKind::UnexpectedEof,
        RestoreError::Content(ContentError::RandomSource) => ErrorKind::Other,
        RestoreError::Content(_) => ErrorKind::InvalidData,
    }
}

impl RestoreError {
    /// The category of the failure.
    pub fn kind(&self) -> (r: ErrorKind)
        ensures
            r == restore_error_kind(*self),
    {
        match self {
            RestoreError::Header(e) => e.kind(),
            RestoreError::Content(e) => e.kind(),
        }
    }
}

/// The contents of an entry and the path to restore them to.
pub struct Restored {
    pub path: String,
    pub contents: Vec<u8>,
}

/// What opening the entry `data` with `key` gives: the recorded path and the
/// decrypted contents.
pub open spec fn open_entry(key: Seq<u8>, data: Seq<u8>) -> Result<(Seq<char>, Seq<u8>), RestoreError> {
    match parse_header(data) {
        Err(e) => Err(RestoreError::Header(e)),
        Ok((path, _len, _hash, start)) => match open_payload(
            key,
            data,
            start,
            vstd::utf8::encode_utf8(path),
        ) {
            Ok(m) => Ok((path, m)),
            Err(e) => Err(RestoreError::Content(e)),
        },
    }
}

/// Where the parts of an entry built for `path`, `msg` and `nonce` lie.
proof fn lemma_entry_layout(data: Seq<u8>, key: Seq<u8>, path: Seq<char>, msg: Seq<u8>, nonce: Seq<u8>)
    requires
        is_entry_for(data, key, path, msg, nonce),
        vstd::utf8::encode_utf8(path).len() <= u64::MAX,
    ensures
        ({
            let aad = vstd::utf8::encode_utf8(path);
            let start = 51 + aad.len() as int;
            let hash = blake3_digest(sealed_payload(key, nonce, msg, aad));
            &&& parse_header(data) == Ok::<(Seq<char>, u64, Seq<u8>, int), HeaderError>(
                (path, aad.len() as u64, hash, start),
            )
            &&& data.subrange(start, start + 12) == nonce
            &&& data.subrange(start + 12, data.len() as int)
                == crate::crypto::chacha20poly1305_seal(key, nonce, msg, aad)
        }),
{
    let aad = vstd::utf8::encode_utf8(path);
    let payload = sealed_payload(key, nonce, msg, aad);
    let hash = blake3_digest(payload);
    lemma_load_saved_header(path, payload, hash);
    assert(data == header_bytes(path, aad.len() as u64, hash) + payload);
    let start = 51 + aad.len() as int;
    assert(data.subrange(start, start + 12) == nonce);
    assert(data.subrange(start + 12, data.len() as int) == crate::crypto::chacha20poly1305_seal(
        key,
        nonce,
        msg,
        aad,
    ));
}

/// Opens the entry `data` with the derived key. An entry built for a path
/// and contents with this key opens to that path and those contents.
pub fn restore(pass: &Password<Derived>, data: &[u8]) -> (r: Result<Restored, RestoreError>)
    ensures
        match open_entry(pass@.pass, data@) {
            Ok((path, m)) => r matches Ok(x) && x.path@ == path && x.contents@ == m,
            Err(e) => r matches Err(f) && f == e,
        },
        forall|path: Seq<char>, msg: Seq<u8>, nonce: Seq<u8>|
            #[trigger] is_entry_for(data@, pass@.pass, path, msg, nonce)
                && vstd::utf8::encode_utf8(path).len() <= u64::MAX ==> (r matches Ok(x) && x.path@
                == path && x.contents@ == msg),
{
    let (header, file_ptr_location) = match <Header<Red> as Load>::load(data) {
        Ok(x) => x,
        Err(e) => {
            proof {
                assert forall|p: Seq<char>, msg: Seq<u8>, nonce: Seq<u8>|
                    #[trigger] is_entry_for(data@, pass@.pass, p, msg, nonce) && vstd::utf8::encode_utf8(p).len() <= u64::MAX implies false by {
                    lemma_entry_layout(data@, pass@.pass, p, msg, nonce);
                }
            }
            return Err(RestoreError::Header(e));
        },
    };
    let path = header.path();
    let aad = path.as_str().as_bytes();
    let contents = match Safe::load(pass, data, file_ptr_location, aad) {
        Ok(c) => c,
        Err(e) => {
            proof {
                assert forall|p: Seq<char>, msg: Seq<u8>, nonce: Seq<u8>|
                    #[trigger] is_entry_for(data@, pass@.pass, p, msg, nonce) && vstd::utf8::encode_utf8(p).len() <= u64::MAX implies false by {
                    lemma_entry_layout(data@, pass@.pass, p, msg, nonce);
                }
            }
            return Err(RestoreError::Content(e));
        },
    };
    let r = Restored { path, contents };
    proof {
        assert forall|p: Seq<char>, msg: Seq<u8>, nonce: Seq<u8>|
            #[trigger] is_entry_for(data@, pass@.pass, p, msg, nonce)
                && vstd::utf8::encode_utf8(p).len() <= u64::MAX implies r.path@ == p
            && r.contents@ == msg by {
            lemma_entry_layout(data@, pass@.pass, p, msg, nonce);
        }
    }
    Ok(r)
}

/// The path of the entry `name` in the vault at `safe_path`; only a bare
/// file name is accepted, so that no path leads outside the vault.
pub fn restore_path(safe_path: &str, name: &str) -> (r: Result<String, ErrorKind>)
    ensures
        crate::path::path_file_name(name@) == Some(name@) ==> (r matches Ok(p) && p@
            == crate::path::joined(safe_path@, name@)),
        crate::path::path_file_name(name@) != Some(name@) ==> r == Err::<String, ErrorKind>(
            ErrorKind::InvalidInput,
        ),
{
    if !crate::path::is_bare_file_name(name) {
        return Err(ErrorKind::InvalidInput);
    }
    Ok(crate::path::join_name(safe_path, name))
}

} // verus!
