//! Building a vault entry from a file's path and contents.

use vstd::prelude::*;

use crate::crypto::{aead_length_ok, blake3_digest, os_random};
use crate::encryption::contents::{sealable, sealed_payload, ContentError, Safe};
use crate::encryption::password::{Derived, Password};
use crate::file_format::header::{header_bytes, Header, Save};
use crate::path::path_file_name;

verus! {

/// The bytes of an entry for `path` whose payload is `nonce` followed by the
/// encryption of `msg`, with `hash` stored in its header.
pub open spec fn entry_bytes(key: Seq<u8>, path: Seq<char>, msg: Seq<u8>, nonce: Seq<u8>, hash: Seq<
    u8,
>) -> Seq<u8> {
    let aad = vstd::utf8::encode_utf8(path);
    header_bytes(path, aad.len() as u64, hash) + sealed_payload(key, nonce, msg, aad)
}

/// Whether `bytes` is the entry for `path` and `msg` with this nonce: the
/// message is one that encryption accepts, its ciphertext is the message
/// plus the tag, and the stored hash is the BLAKE3 hash of the payload.
pub open spec fn is_entry_for(
    bytes: Seq<u8>,
    key: Seq<u8>,
    path: Seq<char>,
    msg: Seq<u8>,
    nonce: Seq<u8>,
) -> bool {
    let aad = vstd::utf8::encode_utf8(path);
    let hash = blake3_digest(sealed_payload(key, nonce, msg, aad));
    &&& nonce.len() == 12
    &&& sealable(key, nonce, msg, aad)
    &&& hash.len() == 32
    &&& bytes == entry_bytes(key, path, msg, nonce, hash)
}

/// A vault entry ready to be written: its name in the vault and its bytes.
pub struct VaultEntry {
    pub file_name: String,
    pub bytes: Vec<u8>,
}

/// Builds the entry for the file at `path` with `file_contents`, encrypting
/// with `nonce`.
pub fn add_with_nonce(
    password: &Password<Derived>,
    path: &str,
    file_contents: &[u8],
    nonce: [u8; 12],
) -> (r: Result<VaultEntry, ContentError>)
    requires
        path_file_name(path@) is Some,
    ensures
        aead_length_ok(file_contents@.len()) ==> (r matches Ok(e) && path_file_name(path@) == Some(
            e.file_name@,
        ) && is_entry_for(e.bytes@, password@.pass, path@, file_contents@, nonce@)),
        !aead_length_ok(file_contents@.len()) ==> r == Err::<VaultEntry, ContentError>(
            ContentError::EncryptionFailed,
        ),
{
    let header = Header::default();
    let mut header = header.configure(path);
    let mut plain: Vec<u8> = Vec::new();
    crate::bytes::push_all(&mut plain, file_contents);
    let safe = Safe::new(password, plain);
    let aad = path.as_bytes();
    let safe = match safe.encrypt_with_nonce(aad, nonce) {
        Ok(s) => s,
        Err(e) => return Err(e),
    };
    let mut encrypted_contents: Vec<u8> = Vec::new();
    match safe.save(&mut encrypted_contents) {
        Ok(()) => {},
        Err(e) => return Err(e),
    }
    header.hash(encrypted_contents.as_slice());
    let file_name = header.file_name();
    let hash = match header.stored_hash() {
        Some(h) => h,
        None => return Err(ContentError::MissingData),
    };
    let mut contents = match header.save() {
        Ok(c) => c,
        Err(_) => return Err(ContentError::MissingData),
    };
    crate::bytes::push_all(&mut contents, encrypted_contents.as_slice());
    proof {
        assert(hash@.len() == 32);
    }
    Ok(VaultEntry { file_name, bytes: contents })
}

/// Builds the entry for the file at `path` with `file_contents`, encrypting
/// with a fresh random nonce.
pub fn add(password: &Password<Derived>, path: &str, file_contents: &[u8]) -> (r: Result<
    VaultEntry,
    ContentError,
>)
    requires
        path_file_name(path@) is Some,
    ensures
        r matches Ok(e) ==> path_file_name(path@) == Some(e.file_name@) && exists|nonce: Seq<u8>|
            is_entry_for(e.bytes@, password@.pass, path@, file_contents@, nonce),
        r matches Err(e) ==> e == ContentError::RandomSource || (e == ContentError::EncryptionFailed
            && !aead_length_ok(file_contents@.len())),
{
    let nonce = match os_random::<12>() {
        Some(n) => n,
        None => return Err(ContentError::RandomSource),
    };
    add_with_nonce(password, path, file_contents, nonce)
}

} // verus!
