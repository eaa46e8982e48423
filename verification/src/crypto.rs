//! The cryptographic, compression and randomness primitives the vault uses,
//! each behind one call into the crate that provides it.

use vstd::prelude::*;

use argon2::Argon2;
use chacha20poly1305::aead::{Aead, Payload};
use chacha20poly1305::{ChaCha20Poly1305, KeyInit, XChaCha20Poly1305};
use rand_core::{OsRng, RngCore};
use zeroize::Zeroize;

verus! {

/// The BLAKE3 digest of `input`.
pub uninterp spec fn blake3_digest(input: Seq<u8>) -> Seq<u8>;

/// The output of ChaCha20-Poly1305 (ciphertext followed by the tag) for a key,
/// a 12-byte nonce, a message and associated data.
pub uninterp spec fn chacha20poly1305_seal(
    key: Seq<u8>,
    nonce: Seq<u8>,
    msg: Seq<u8>,
    aad: Seq<u8>,
) -> Seq<u8>;

/// What ChaCha20-Poly1305 decryption yields for a key, a 12-byte nonce, a
/// ciphertext with its tag and associated data (`None` when rejected).
pub uninterp spec fn chacha20poly1305_open(
    key: Seq<u8>,
    nonce: Seq<u8>,
    ct: Seq<u8>,
    aad: Seq<u8>,
) -> Option<Seq<u8>>;

/// The output of XChaCha20-Poly1305 for a key, a 24-byte nonce, a message and
/// associated data.
pub uninterp spec fn xchacha20poly1305_seal(
    key: Seq<u8>,
    nonce: Seq<u8>,
    msg: Seq<u8>,
    aad: Seq<u8>,
) -> Seq<u8>;

/// What XChaCha20-Poly1305 decryption yields (`None` when rejected).
pub uninterp spec fn xchacha20poly1305_open(
    key: Seq<u8>,
    nonce: Seq<u8>,
    ct: Seq<u8>,
    aad: Seq<u8>,
) -> Option<Seq<u8>>;

/// The 32-byte Argon2id key (default parameters) of a password and a salt.
pub uninterp spec fn argon2_key(password: Seq<u8>, salt: Seq<u8>) -> Seq<u8>;

/// The zstd frame that `encode_all` produces for `data` at `level`
/// (`None` when it reports an error).
pub uninterp spec fn zstd_encoded(data: Seq<u8>, level: int) -> Option<Seq<u8>>;

/// The bytes that `decode_all` produces for `data` (`None` when it reports an
/// error).
pub uninterp spec fn zstd_decoded(data: Seq<u8>) -> Option<Seq<u8>>;

/// Longest message that (X)ChaCha20-Poly1305 encrypts without running out of
/// keystream: `u32::MAX - 1` blocks of 64 bytes (block 0 keys Poly1305).
pub const AEAD_MAX_MESSAGE: u64 = 274877906816;

/// Whether a message of this length can be encrypted.
pub open spec fn aead_length_ok(len: nat) -> bool {
    len <= 274877906816
}

/// Whether a ciphertext of this length (message plus 16-byte tag) is within
/// the same limit.
pub open spec fn aead_ciphertext_ok(len: nat) -> bool {
    len <= 274877906816 + 16
}

/// Whether a message length is within the limit.
pub fn message_length_ok(len: usize) -> (r: bool)
    ensures
        r == aead_length_ok(len as nat),
{
    len as u64 <= AEAD_MAX_MESSAGE
}

/// Whether a ciphertext length is within the limit.
pub fn ciphertext_length_ok(len: usize) -> (r: bool)
    ensures
        r == aead_ciphertext_ok(len as nat),
{
    len as u64 <= AEAD_MAX_MESSAGE + 16
}

/// BLAKE3 hash.
///
/// Calls `blake3::hash`; claims only that the 32 bytes are the digest of the
/// input, which is a function of the input alone.
#[verifier::external_body]
pub(crate) fn blake3_hash(input: &[u8]) -> (r: [u8; 32])
    ensures
        r@ == blake3_digest(input@),
{
    *blake3::hash(input).as_bytes()
}

/// ChaCha20-Poly1305 encryption.
///
/// Calls `Aead::encrypt` of `ChaCha20Poly1305`. Its source encrypts a message
/// of at most `u32::MAX - 1` blocks (a longer one either fails or, when it
/// does not end on a block boundary, panics when the keystream runs out, so
/// `requires` leaves it out) and appends the 16-byte tag to the ciphertext,
/// which has the message's length.
#[verifier::external_body]
pub(crate) fn chacha20poly1305_encrypt(key: &[u8; 32], nonce: &[u8; 12], msg: &[u8], aad: &[u8]) -> (r:
    Option<Vec<u8>>)
    requires
        aead_length_ok(msg@.len()),
    ensures
        r is Some,
        r matches Some(c) ==> c@ == chacha20poly1305_seal(key@, nonce@, msg@, aad@) && c@.len()
            == msg@.len() + 16,
{
    let cipher = ChaCha20Poly1305::new(chacha20poly1305::Key::from_slice(key));
    match cipher.encrypt(&chacha20poly1305::Nonce::from(*nonce), Payload { msg, aad }) {
        Ok(c) => Some(c),
        Err(_) => None,
    }
}

/// ChaCha20-Poly1305 decryption.
///
/// Calls `Aead::decrypt` of `ChaCha20Poly1305`. Claims that the result is the
/// named decryption of the arguments, that a ciphertext shorter than the tag is
/// refused, that an accepted ciphertext is the plaintext plus the tag, and
/// that decrypting what encryption produced with the same key, nonce and
/// associated data gives the message back. What it does with a ciphertext that
/// no encryption produced is left to the name: that a forgery is refused is a
/// matter of probability, which no clause states. A ciphertext beyond the
/// encryption limit is left out by `requires`: were its tag accepted, the
/// source would panic when the keystream runs out.
#[verifier::external_body]
pub(crate) fn chacha20poly1305_decrypt(key: &[u8; 32], nonce: &[u8; 12], ct: &[u8], aad: &[u8]) -> (r:
    Option<Vec<u8>>)
    requires
        aead_ciphertext_ok(ct@.len()),
    ensures
        r is Some <==> chacha20poly1305_open(key@, nonce@, ct@, aad@) is Some,
        r matches Some(p) ==> chacha20poly1305_open(key@, nonce@, ct@, aad@) == Some(p@) && p@.len()
            + 16 == ct@.len(),
        ct@.len() < 16 ==> r is None,
        forall|m: Seq<u8>|
            aead_length_ok(m.len()) && #[trigger] chacha20poly1305_seal(key@, nonce@, m, aad@)
                == ct@ ==> (r is Some && r->0@ == m),
{
    let cipher = ChaCha20Poly1305::new(chacha20poly1305::Key::from_slice(key));
    match cipher.decrypt(&chacha20poly1305::Nonce::from(*nonce), Payload { msg: ct, aad }) {
        Ok(p) => Some(p),
        Err(_) => None,
    }
}

/// XChaCha20-Poly1305 encryption.
///
/// Calls `Aead::encrypt` of `XChaCha20Poly1305`, with the same length limit
/// (longer messages are left out by `requires`) and layout as the
/// 12-byte-nonce variant.
#[verifier::external_body]
pub(crate) fn xchacha20poly1305_encrypt(key: &[u8; 32], nonce: &[u8; 24], msg: &[u8], aad: &[u8]) -> (r:
    Option<Vec<u8>>)
    requires
        aead_length_ok(msg@.len()),
    ensures
        r is Some,
        r matches Some(c) ==> c@ == xchacha20poly1305_seal(key@, nonce@, msg@, aad@) && c@.len()
            == msg@.len() + 16,
{
    let cipher = XChaCha20Poly1305::new(chacha20poly1305::Key::from_slice(key));
    match cipher.encrypt(&chacha20poly1305::XNonce::from(*nonce), Payload { msg, aad }) {
        Ok(c) => Some(c),
        Err(_) => None,
    }
}

/// XChaCha20-Poly1305 decryption.
///
/// Calls `Aead::decrypt` of `XChaCha20Poly1305`; claims the same as the
/// 12-byte-nonce variant, and leaves unstated, as it does, what happens to a
/// ciphertext that no encryption produced. Ciphertexts beyond the limit are
/// left out by `requires`, as for the 12-byte-nonce variant.
#[verifier::external_body]
pub(crate) fn xchacha20poly1305_decrypt(key: &[u8; 32], nonce: &[u8; 24], ct: &[u8], aad: &[u8]) -> (r:
    Option<Vec<u8>>)
    requires
        aead_ciphertext_ok(ct@.len()),
    ensures
        r is Some <==> xchacha20poly1305_open(key@, nonce@, ct@, aad@) is Some,
        r matches Some(p) ==> xchacha20poly1305_open(key@, nonce@, ct@, aad@) == Some(p@) && p@.len()
            + 16 == ct@.len(),
        ct@.len() < 16 ==> r is None,
        forall|m: Seq<u8>|
            aead_length_ok(m.len()) && #[trigger] xchacha20poly1305_seal(key@, nonce@, m, aad@)
                == ct@ ==> (r is Some && r->0@ == m),
{
    let cipher = XChaCha20Poly1305::new(chacha20poly1305::Key::from_slice(key));
    match cipher.decrypt(&chacha20poly1305::XNonce::from(*nonce), Payload { msg: ct, aad }) {
        Ok(p) => Some(p),
        Err(_) => None,
    }
}

/// Argon2id key derivation into 32 bytes with the default parameters.
///
/// Calls `Argon2::hash_password_into`. Its source refuses a password longer
/// than `u32::MAX` bytes and a salt shorter than 8 or longer than `u32::MAX`
/// bytes, and for a 32-byte output reports no other error; the text of the
/// error it reports is not stated.
#[verifier::external_body]
pub(crate) fn argon2_hash_into(password: &[u8], salt: &[u8]) -> (r: Result<[u8; 32], String>)
    ensures
        r is Ok <==> (password@.len() <= 0xFFFF_FFFF && 8 <= salt@.len() <= 0xFFFF_FFFF),
        r matches Ok(k) ==> k@ == argon2_key(password@, salt@),
{
    let mut key = [0u8; 32];
    match Argon2::default().hash_password_into(password, salt, &mut key) {
        Ok(()) => Ok(key),
        Err(e) => Err(e.to_string()),
    }
}

/// Bytes from the operating system's random source.
///
/// Calls `RngCore::try_fill_bytes` of `OsRng`. Nothing is claimed of the
/// bytes; `None` stands for a failure of the random source.
#[verifier::external_body]
pub(crate) fn os_random<const N: usize>() -> (r: Option<[u8; N]>) {
    let mut bytes = [0u8; N];
    match OsRng.try_fill_bytes(&mut bytes) {
        Ok(()) => Some(bytes),
        Err(_) => None,
    }
}

/// Overwrites the 32 bytes of a key with zeros.
///
/// Calls `Zeroize::zeroize` on the array, which writes each byte with a
/// volatile write that the compiler keeps; claims that every byte is zero
/// afterwards and that the call does not unwind.
#[verifier::external_body]
pub(crate) fn zeroize_key(key: &mut [u8; 32])
    ensures
        final(key)@ == Seq::new(32, |i: int| 0u8),
    opens_invariants none
    no_unwind
{
    key.zeroize();
}

/// zstd compression of a whole buffer.
///
/// Calls `zstd::encode_all`; claims only that the result is the named frame
/// of the data at that level. The error text is not stated.
#[verifier::external_body]
pub(crate) fn zstd_encode_all(data: &[u8], level: i32) -> (r: Result<Vec<u8>, String>)
    ensures
        r is Ok <==> zstd_encoded(data@, level as int) is Some,
        r matches Ok(c) ==> zstd_encoded(data@, level as int) == Some(c@),
{
    match zstd::encode_all(std::io::Cursor::new(data), level) {
        Ok(c) => Ok(c),
        Err(e) => Err(e.to_string()),
    }
}

/// zstd decompression of a whole buffer.
///
/// Calls `zstd::decode_all`. Claims that the result is the named decoding of
/// the data, and that a frame that `encode_all` produced decodes to the data
/// it was made from. The error text is not stated.
#[verifier::external_body]
pub(crate) fn zstd_decode_all(data: &[u8]) -> (r: Result<Vec<u8>, String>)
    ensures
        r is Ok <==> zstd_decoded(data@) is Some,
        r matches Ok(p) ==> zstd_decoded(data@) == Some(p@),
        forall|x: Seq<u8>, level: int|
            #[trigger] zstd_encoded(x, level) == Some(data@) ==> (r is Ok && r->Ok_0@ == x),
{
    match zstd::decode_all(std::io::Cursor::new(data)) {
        Ok(p) => Ok(p),
        Err(e) => Err(e.to_string()),
    }
}

} // verus!
