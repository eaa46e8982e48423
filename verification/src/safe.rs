//! The stand-alone entry format with a salt per entry:
//!
//! ```text
//! 11 bytes   marker "secure-safe"
//! 16 bytes   Argon2 salt
//! 24 bytes   XChaCha20-Poly1305 nonce
//! 4 bytes    path length, little-endian
//! N bytes    path of the file (associated data)
//! M bytes    ciphertext of the zstd-compressed contents, with its tag
//! ```

use vstd::prelude::*;

use crate::bytes::{
    bytes_equal, copy_16, copy_range, lemma_u32_le_roundtrip, push_all, push_u32_le, read_u32_le,
    u32_from_le, u32_le_bytes,
};
use crate::crypto::{
    aead_ciphertext_ok, aead_length_ok, argon2_hash_into, argon2_key, ciphertext_length_ok,
    message_length_ok, os_random, xchacha20poly1305_decrypt,
    xchacha20poly1305_encrypt, xchacha20poly1305_open, xchacha20poly1305_seal, zstd_decode_all,
    zstd_decoded, zstd_encode_all, zstd_encoded, zeroize_key,
};
use crate::path::{file_name, path_file_name};
use crate::text::string_from_utf8;

verus! {

broadcast use vstd::utf8::encode_utf8_valid_utf8, vstd::utf8::encode_utf8_decode_utf8;

/// Size of a salt.
pub const SALT_SIZE: usize = 16;

/// Size of a derived key.
pub const KEY_SIZE: usize = 32;

/// Size of an XChaCha20-Poly1305 nonce.
pub const NOUNCE_SIZE: usize = 24;

/// Largest path an entry may record.
pub const MAX_PATH_SIZE: usize = 16384;

/// Size of the path length field.
pub const PATH_SIZE_BYTES: usize = 4;

/// zstd level used for the contents.
pub const COMPRESSION_LEVEL: i32 = 5;

/// The first bytes of every entry: `b"secure-safe"`.
pub const MARKER: [u8; 11] = [115u8, 101u8, 99u8, 117u8, 114u8, 101u8, 45u8, 115u8, 97u8, 102u8, 101u8];

/// The marker as a sequence.
pub open spec fn marker_bytes() -> Seq<u8> {
    seq![115u8, 101u8, 99u8, 117u8, 114u8, 101u8, 45u8, 115u8, 97u8, 102u8, 101u8]
}

/// Where the path starts: after the marker, the salt, the nonce and the
/// path length.
pub open spec fn path_start() -> int {
    55
}

/// An encrypted file, ready to be stored.
pub struct Raw {
    pub salt: [u8; 16],
    pub nounce: [u8; 24],
    pub ciphertext: Vec<u8>,
    pub name: String,
    pub path: Vec<u8>,
}

/// A file in one state of storing.
pub struct Safe<State> {
    pub state: State,
}

/// The fields of a stored entry after the marker.
pub struct StoredEntry {
    pub salt: [u8; 16],
    pub nounce: [u8; 24],
    pub path: Vec<u8>,
    pub ciphertext: Vec<u8>,
}

/// The decrypted contents of a stored entry and the path to restore them to.
pub struct Opened {
    pub path: String,
    pub contents: Vec<u8>,
}

/// Why a file could not be encrypted.
#[derive(Debug, PartialEq, Eq)]
pub enum SealError {
    /// zstd reported an error.
    Compression(String),
    /// The path has no file name.
    InvalidFileName,
    /// No salt could be generated.
    Salt,
    /// Argon2 refused its inputs.
    Derivation(String),
    /// The operating system's random source failed.
    RandomSource,
    /// Encryption refused the compressed contents.
    Encryption,
}

/// The I/O error that a failed write of a restored file carries; opaque here.
#[verifier::external_type_specification]
#[verifier::external_body]
pub struct ExIoError(std::io::Error);

/// Why a stored entry could not be opened.
#[derive(Debug)]
pub enum EncError {
    /// Decryption refused the entry of this file name.
    Decryption(String),
    /// Decompression failed.
    UnZip(String),
    /// The entry could not be read or has a malformed field.
    Read,
    /// Argon2 refused its inputs.
    Crypto(String),
    /// Writing or syncing the restored file failed.
    Io(std::io::Error),
}

/// The saved form of an entry with these fields.
pub open spec fn stored_bytes(salt: Seq<u8>, nounce: Seq<u8>, path: Seq<u8>, ciphertext: Seq<u8>) -> Seq<
    u8,
> {
    marker_bytes() + salt + nounce + u32_le_bytes(path.len() as u32) + path + ciphertext
}

/// What reading an entry after its marker gives: salt, nonce, path and
/// ciphertext, or `None` for a malformed entry.
pub open spec fn parse_stored(data: Seq<u8>) -> Option<(Seq<u8>, Seq<u8>, Seq<u8>, Seq<u8>)> {
    if data.len() < 55 {
        None
    } else {
        let n = u32_from_le(data.subrange(51, 55)) as int;
        if n > 16384 || data.len() < 55 + n {
            None
        } else {
            Some(
                (
                    data.subrange(11, 27),
                    data.subrange(27, 51),
                    data.subrange(55, 55 + n),
                    data.subrange(55 + n, data.len() as int),
                ),
            )
        }
    }
}

/// Whether `entry` holds the encryption of `contents` for `path` under the
/// key derived from `password` and the entry's salt.
pub open spec fn sealed_for(
    salt: Seq<u8>,
    nounce: Seq<u8>,
    stored_path: Seq<u8>,
    ciphertext: Seq<u8>,
    password: Seq<u8>,
    path: Seq<char>,
    contents: Seq<u8>,
) -> bool {
    &&& stored_path == vstd::utf8::encode_utf8(path)
    &&& zstd_encoded(contents, 5) is Some
    &&& aead_length_ok(zstd_encoded(contents, 5)->0.len())
    &&& ciphertext.len() == zstd_encoded(contents, 5)->0.len() + 16
    &&& ciphertext == xchacha20poly1305_seal(
        argon2_key(password, salt),
        nounce,
        zstd_encoded(contents, 5)->0,
        stored_path,
    )
}

impl Safe<Raw> {
    /// Compresses and encrypts `contents` of the file at `path` with the key
    /// derived from `password` and `salt`, and with `nounce`; the path is the
    /// associated data.
    pub fn seal(path: &str, contents: &[u8], password: &[u8], salt: [u8; 16], nounce: [u8; 24]) -> (r:
        Result<Self, SealError>)
        ensures
            r matches Ok(s) ==> {
                &&& Some(s.state.name@) == path_file_name(path@)
                &&& s.state.salt == salt
                &&& s.state.nounce == nounce
                &&& s.state.path@ == vstd::utf8::encode_utf8(path@)
                &&& sealed_for(
                    salt@,
                    nounce@,
                    s.state.path@,
                    s.state.ciphertext@,
                    password@,
                    path@,
                    contents@,
                )
            },
            r matches Err(e) ==> match e {
                SealError::Compression(_) => zstd_encoded(contents@, 5) is None,
                SealError::InvalidFileName => zstd_encoded(contents@, 5) is Some && path_file_name(
                    path@,
                ) is None,
                SealError::Derivation(_) => password@.len() > 0xFFFF_FFFF,
                SealError::Encryption => !aead_length_ok(zstd_encoded(contents@, 5)->0.len()),
                _ => false,
            },
            (zstd_encoded(contents@, 5) matches Some(c) && aead_length_ok(c.len()) && path_file_name(
                path@,
            ) is Some && password@.len() <= 0xFFFF_FFFF) ==> r is Ok,
    {
        let compressed = match zstd_encode_all(contents, COMPRESSION_LEVEL) {
            Ok(c) => c,
            Err(e) => return Err(SealError::Compression(e)),
        };
        let name = match file_name(path) {
            Some(n) => n,
            None => return Err(SealError::InvalidFileName),
        };
        let mut key = match argon2_hash_into(password, salt.as_slice()) {
            Ok(k) => k,
            Err(e) => return Err(SealError::Derivation(e)),
        };
        let path_bytes = path.as_bytes();
        let sealed = if message_length_ok(compressed.len()) {
            xchacha20poly1305_encrypt(&key, &nounce, compressed.as_slice(), path_bytes)
        } else {
            None
        };
        zeroize_key(&mut key);
        let ciphertext = match sealed {
            Some(c) => c,
            None => return Err(SealError::Encryption),
        };
        let mut stored_path: Vec<u8> = Vec::new();
        push_all(&mut stored_path, path_bytes);
        Ok(Self { state: Raw { salt, name, ciphertext, path: stored_path, nounce } })
    }

    /// Compresses and encrypts `contents` of the file at `path` with a fresh
    /// salt and nonce.
    pub fn new(path: &str, contents: &[u8], password: &[u8]) -> (r: Result<Self, SealError>)
        ensures
            r matches Err(e) ==> match e {
                SealError::Compression(_) => zstd_encoded(contents@, 5) is None,
                SealError::InvalidFileName => zstd_encoded(contents@, 5) is Some && path_file_name(
                    path@,
                ) is None,
                SealError::Derivation(_) => password@.len() > 0xFFFF_FFFF,
                SealError::Encryption => !aead_length_ok(zstd_encoded(contents@, 5)->0.len()),
                SealError::Salt | SealError::RandomSource => true,
            },
            r matches Ok(s) ==> {
                &&& Some(s.state.name@) == path_file_name(path@)
                &&& s.state.path@ == vstd::utf8::encode_utf8(path@)
                &&& sealed_for(
                    s.state.salt@,
                    s.state.nounce@,
                    s.state.path@,
                    s.state.ciphertext@,
                    password@,
                    path@,
                    contents@,
                )
            },
    {
        let salt = match os_random::<16>() {
            Some(s) => s,
            None => return Err(SealError::Salt),
        };
        let nounce = match os_random::<24>() {
            Some(n) => n,
            None => return Err(SealError::RandomSource),
        };
        Self::seal(path, contents, password, salt, nounce)
    }

    /// The bytes to store: marker, salt, nonce, path length (truncated to 32
    /// bits), path and ciphertext.
    pub fn to_bytes(&self) -> (r: Vec<u8>)
        ensures
            r@ == stored_bytes(
                self.state.salt@,
                self.state.nounce@,
                self.state.path@,
                self.state.ciphertext@,
            ),
    {
        let mut out: Vec<u8> = Vec::new();
        push_all(&mut out, &MARKER);
        push_all(&mut out, &self.state.salt);
        push_all(&mut out, &self.state.nounce);
        push_u32_le(&mut out, self.state.path.len() as u32);
        push_all(&mut out, self.state.path.as_slice());
        push_all(&mut out, self.state.ciphertext.as_slice());
        out
    }
}

/// Whether the entry starts with the marker; `None` when it is shorter than
/// the marker.
pub fn read_marker(data: &[u8]) -> (r: Option<bool>)
    ensures
        data@.len() < 11 ==> r is None,
        data@.len() >= 11 ==> r == Some(data@.subrange(0, 11) == marker_bytes()),
{
    if data.len() < MARKER.len() {
        return None;
    }
    let marker = copy_range(data, 0, 11);
    assert(MARKER@ == marker_bytes());
    Some(bytes_equal(marker.as_slice(), &MARKER))
}

/// Reads the fields that follow the marker.
pub fn parse_stored_body(data: &[u8]) -> (r: Option<StoredEntry>)
    ensures
        match parse_stored(data@) {
            Some((salt, nounce, path, ciphertext)) => r matches Some(e) && e.salt@ == salt
                && e.nounce@ == nounce && e.path@ == path && e.ciphertext@ == ciphertext,
            None => r is None,
        },
{
    if data.len() < 55 {
        return None;
    }
    let salt = copy_16(data, 11);
    let nounce_bytes = copy_range(data, 27, 51);
    let mut nounce = [0u8; 24];
    let mut i: usize = 0;
    while i < 24
        invariant
            i <= 24,
            nounce@.len() == 24,
            nounce_bytes@.len() == 24,
            forall|j: int| 0 <= j < i ==> nounce@[j] == nounce_bytes@[j],
        decreases 24 - i,
    {
        nounce[i] = nounce_bytes[i];
        i = i + 1;
    }
    assert(nounce@ == nounce_bytes@);
    let path_size = read_u32_le(data, 51) as usize;
    if path_size > MAX_PATH_SIZE {
        return None;
    }
    if data.len() - 55 < path_size {
        return None;
    }
    let path = copy_range(data, 55, 55 + path_size);
    let ciphertext = copy_range(data, 55 + path_size, data.len());
    Some(StoredEntry { salt, nounce, path, ciphertext })
}

/// Decrypts and decompresses a stored entry with `password`: the recorded
/// path and the contents to restore there.
pub fn decrypt_stored(password: &[u8], entry: &StoredEntry) -> (r: Result<Opened, EncError>)
    ensures
        password@.len() > 0xFFFF_FFFF <==> r matches Err(EncError::Crypto(_)),
        password@.len() <= 0xFFFF_FFFF ==> ({
            let key = argon2_key(password@, entry.salt@);
            if !vstd::utf8::valid_utf8(entry.path@) {
                r matches Err(EncError::Read)
            } else {
                let path = vstd::utf8::decode_utf8(entry.path@);
                match path_file_name(path) {
                    None => r matches Err(EncError::Read),
                    Some(name) => if !aead_ciphertext_ok(entry.ciphertext@.len()) {
                        r matches Err(EncError::Decryption(n)) && n@ == name
                    } else {
                        match xchacha20poly1305_open(
                            key,
                            entry.nounce@,
                            entry.ciphertext@,
                            entry.path@,
                        ) {
                            None => r matches Err(EncError::Decryption(n)) && n@ == name,
                        Some(compressed) => match zstd_decoded(compressed) {
                            None => r matches Err(EncError::UnZip(_)),
                            Some(m) => r matches Ok(o) && o.path@ == path && o.contents@ == m,
                        },
                        }
                    },
                }
            }
        }),
        forall|path: Seq<char>, contents: Seq<u8>|
            #[trigger] sealed_for(
                entry.salt@,
                entry.nounce@,
                entry.path@,
                entry.ciphertext@,
                password@,
                path,
                contents,
            ) && password@.len() <= 0xFFFF_FFFF && path_file_name(path) is Some ==> (r matches Ok(o)
                && o.path@ == path && o.contents@ == contents),
{
    let mut key = match argon2_hash_into(password, entry.salt.as_slice()) {
        Ok(k) => k,
        Err(e) => return Err(EncError::Crypto(e)),
    };
    let opened = if ciphertext_length_ok(entry.ciphertext.len()) {
        xchacha20poly1305_decrypt(&key, &entry.nounce, entry.ciphertext.as_slice(), entry.path.as_slice())
    } else {
        None
    };
    zeroize_key(&mut key);
    let mut path_bytes: Vec<u8> = Vec::new();
    push_all(&mut path_bytes, entry.path.as_slice());
    let path = match string_from_utf8(path_bytes) {
        Some(p) => p,
        None => return Err(EncError::Read),
    };
    let name = match file_name(path.as_str()) {
        Some(n) => n,
        None => return Err(EncError::Read),
    };
    let decrypted = match opened {
        Some(d) => d,
        None => return Err(EncError::Decryption(name)),
    };
    let contents = match zstd_decode_all(decrypted.as_slice()) {
        Ok(c) => c,
        Err(e) => return Err(EncError::UnZip(e)),
    };
    Ok(Opened { path, contents })
}

/// The integrity check of a stored entry with `password`: whether the
/// ciphertext decrypts under the key and the recorded path; an error when
/// Argon2 refuses the password.
pub fn check_stored(password: &[u8], entry: &StoredEntry) -> (r: Result<bool, String>)
    ensures
        r is Ok <==> password@.len() <= 0xFFFF_FFFF,
        r matches Ok(b) ==> b == (aead_ciphertext_ok(entry.ciphertext@.len()) && xchacha20poly1305_open(
            argon2_key(password@, entry.salt@),
            entry.nounce@,
            entry.ciphertext@,
            entry.path@,
        ) is Some),
{
    let mut key = match argon2_hash_into(password, entry.salt.as_slice()) {
        Ok(k) => k,
        Err(e) => return Err(e),
    };
    let opened = if ciphertext_length_ok(entry.ciphertext.len()) {
        xchacha20poly1305_decrypt(&key, &entry.nounce, entry.ciphertext.as_slice(), entry.path.as_slice())
    } else {
        None
    };
    zeroize_key(&mut key);
    match opened {
        Some(_) => Ok(true),
        None => Ok(false),
    }
}

/// Reading back a stored entry: the fields after the marker read back as
/// they were stored, provided the path is no longer than the limit.
pub proof fn lemma_parse_stored_bytes(
    salt: Seq<u8>,
    nounce: Seq<u8>,
    path: Seq<u8>,
    ciphertext: Seq<u8>,
)
    requires
        salt.len() == 16,
        nounce.len() == 24,
        path.len() <= 16384,
    ensures
        stored_bytes(salt, nounce, path, ciphertext).subrange(0, 11) == marker_bytes(),
        parse_stored(stored_bytes(salt, nounce, path, ciphertext)) == Some((salt, nounce, path, ciphertext)),
{
    let data = stored_bytes(salt, nounce, path, ciphertext);
    lemma_u32_le_roundtrip(path.len() as u32);
    assert(data.subrange(0, 11) == marker_bytes());
    assert(data.subrange(11, 27) == salt);
    assert(data.subrange(27, 51) == nounce);
    assert(data.subrange(51, 55) == u32_le_bytes(path.len() as u32));
    let n = path.len() as int;
    assert(data.subrange(55, 55 + n) == path);
    assert(data.subrange(55 + n, data.len() as int) == ciphertext);
}

/// The path of the stored entry `name` in the directory `enc_dir`; only a
/// bare file name is accepted, so that no name leads outside that directory.
pub fn stored_entry_path(enc_dir: &str, name: &str) -> (r: Result<String, EncError>)
    ensures
        path_file_name(name@) == Some(name@) ==> (r matches Ok(p) && p@ == crate::path::joined(
            enc_dir@,
            name@,
        )),
        path_file_name(name@) != Some(name@) ==> r matches Err(EncError::Read),
{
    if !crate::path::is_bare_file_name(name) {
        return Err(EncError::Read);
    }
    Ok(crate::path::join_name(enc_dir, name))
}

} // verus!
