//! Encryption of an entry's contents with ChaCha20-Poly1305. The encrypted
//! payload is the 12-byte nonce followed by the ciphertext and its tag; the
//! path the file was added from is the associated data.

use core::marker::PhantomData;
use vstd::prelude::*;

use crate::bytes::{copy_range, push_all};
use crate::crypto::{
    aead_ciphertext_ok, aead_length_ok, chacha20poly1305_decrypt, chacha20poly1305_encrypt,
    chacha20poly1305_open, chacha20poly1305_seal, ciphertext_length_ok, message_length_ok, os_random,
};
use crate::encryption::password::{Derived, Password};
use crate::error::ErrorKind;
use crate::file_format::header::Red;

verus! {

/// Size of a ChaCha20-Poly1305 nonce.
pub const NONCE_SIZE: usize = 12;

/// Contents not yet encrypted.
pub struct Raw;

/// Contents encrypted.
pub struct Encrypted;

/// Why contents could not be encrypted or decrypted.
#[derive(Debug, Clone, Copy, PartialEq, Eq, Structural)]
pub enum ContentError {
    /// The payload ends before the nonce is complete.
    Truncated,
    /// Decryption refused the ciphertext (wrong key, tampered data or path).
    DecryptionFailed,
    /// Encryption refused the message (it is too long).
    EncryptionFailed,
    /// A field needed for the operation is missing.
    MissingData,
    /// The operating system's random source failed.
    RandomSource,
}

impl ContentError {
    /// The category of the failure.
    pub fn kind(&self) -> (r: ErrorKind)
        ensures
            r == match *self {
                ContentError::Truncated => ErrorKind::UnexpectedEof,
                ContentError::RandomSource => ErrorKind::Other,
                _ => ErrorKind::InvalidData,
            },
    {
        match self {
            ContentError::Truncated => ErrorKind::UnexpectedEof,
            ContentError::RandomSource => ErrorKind::Other,
            _ => ErrorKind::InvalidData,
        }
    }
}

/// The encrypted payload for a key, nonce, message and associated data.
pub open spec fn sealed_payload(key: Seq<u8>, nonce: Seq<u8>, msg: Seq<u8>, aad: Seq<u8>) -> Seq<
    u8,
> {
    nonce + chacha20poly1305_seal(key, nonce, msg, aad)
}

/// Whether `m` is a message that encryption accepts with these arguments, so
/// that its ciphertext is the message plus the 16-byte tag.
pub open spec fn sealable(key: Seq<u8>, nonce: Seq<u8>, m: Seq<u8>, aad: Seq<u8>) -> bool {
    &&& aead_length_ok(m.len())
    &&& chacha20poly1305_seal(key, nonce, m, aad).len() == m.len() + 16
}

/// What decrypting the payload that starts at `offset` in `data` gives; a
/// ciphertext longer than any encryption produces is refused.
pub open spec fn open_payload(key: Seq<u8>, data: Seq<u8>, offset: int, aad: Seq<u8>) -> Result<
    Seq<u8>,
    ContentError,
> {
    if offset + 12 > data.len() {
        Err(ContentError::Truncated)
    } else if !aead_ciphertext_ok((data.len() - (offset + 12)) as nat) {
        Err(ContentError::DecryptionFailed)
    } else {
        match chacha20poly1305_open(
            key,
            data.subrange(offset, offset + 12),
            data.subrange(offset + 12, data.len() as int),
            aad,
        ) {
            Some(m) => Ok(m),
            None => Err(ContentError::DecryptionFailed),
        }
    }
}

/// The fields of a `Safe`.
pub struct SafeView {
    pub key: Seq<u8>,
    pub contents: Option<Seq<u8>>,
    pub nonce: Option<Seq<u8>>,
}

/// Contents to be encrypted with a derived key, in one of three states.
pub struct Safe<'a, State> {
    password: &'a Password<Derived>,
    contents: Option<Vec<u8>>,
    nonce: Option<[u8; 12]>,
    _data: PhantomData<State>,
}

impl<'a, State> View for Safe<'a, State> {
    type V = SafeView;

    closed spec fn view(&self) -> SafeView {
        SafeView {
            key: self.password@.pass,
            contents: match self.contents {
                Some(c) => Some(c@),
                None => None,
            },
            nonce: match self.nonce {
                Some(n) => Some(n@),
                None => None,
            },
        }
    }
}

impl<'a> Safe<'a, Red> {
    /// Decrypts the payload that starts at `file_ptr_location` in the bytes of
    /// an entry, with `path` as associated data.
    pub fn load(
        pass: &Password<Derived>,
        data: &[u8],
        file_ptr_location: usize,
        path: &[u8],
    ) -> (r: Result<Vec<u8>, ContentError>)
        ensures
            match open_payload(pass@.pass, data@, file_ptr_location as int, path@) {
                Ok(m) => r matches Ok(p) && p@ == m,
                Err(e) => r == Err::<Vec<u8>, ContentError>(e),
            },
            forall|m: Seq<u8>|
                file_ptr_location + 12 <= data@.len() && sealable(
                    pass@.pass,
                    data@.subrange(file_ptr_location as int, file_ptr_location + 12),
                    m,
                    path@,
                ) && #[trigger] chacha20poly1305_seal(
                    pass@.pass,
                    data@.subrange(file_ptr_location as int, file_ptr_location + 12),
                    m,
                    path@,
                ) == data@.subrange(file_ptr_location + 12, data@.len() as int) ==> (r matches Ok(
                    p,
                ) && p@ == m),
    {
        if file_ptr_location > data.len() || data.len() - file_ptr_location < NONCE_SIZE {
            return Err(ContentError::Truncated);
        }
        let nonce_bytes = copy_range(data, file_ptr_location, file_ptr_location + NONCE_SIZE);
        let mut nonce = [0u8; 12];
        let mut i: usize = 0;
        while i < 12
            invariant
                i <= 12,
                nonce@.len() == 12,
                nonce_bytes@.len() == 12,
                forall|j: int| 0 <= j < i ==> nonce@[j] == nonce_bytes@[j],
            decreases 12 - i,
        {
            nonce[i] = nonce_bytes[i];
            i = i + 1;
        }
        assert(nonce@ == nonce_bytes@);
        let contents = copy_range(data, file_ptr_location + NONCE_SIZE, data.len());
        decrypt(pass, &nonce, contents.as_slice(), path)
    }
}

impl<'a> Safe<'a, Raw> {
    /// Contents to encrypt with `password`.
    pub fn new(password: &'a Password<Derived>, contents: Vec<u8>) -> (r: Self)
        ensures
            r@.key == password@.pass,
            r@.contents == Some(contents@),
            r@.nonce is None,
    {
        Self { password, contents: Some(contents), nonce: None, _data: PhantomData }
    }

    /// The same key with other contents, marked as encrypted and without a
    /// nonce.
    pub fn configure(self, contents: Vec<u8>) -> (r: Safe<'a, Encrypted>)
        ensures
            r@.key == self@.key,
            r@.contents == Some(contents@),
            r@.nonce is None,
    {
        Safe::<Encrypted> {
            password: self.password,
            contents: Some(contents),
            nonce: None,
            _data: PhantomData,
        }
    }

    /// Encrypts the contents with `nonce`, with `path` as associated data.
    pub fn encrypt_with_nonce(&self, path: &[u8], nonce: [u8; 12]) -> (r: Result<
        Safe<'a, Encrypted>,
        ContentError,
    >)
        ensures
            match self@.contents {
                None => r == Err::<Safe<'a, Encrypted>, ContentError>(ContentError::MissingData),
                Some(m) => if aead_length_ok(m.len()) {
                    r matches Ok(s) && s@.key == self@.key && s@.nonce == Some(nonce@)
                        && s@.contents == Some(chacha20poly1305_seal(self@.key, nonce@, m, path@))
                        && sealable(self@.key, nonce@, m, path@)
                } else {
                    r == Err::<Safe<'a, Encrypted>, ContentError>(ContentError::EncryptionFailed)
                },
            },
    {
        let plaintext = match &self.contents {
            Some(c) => c,
            None => return Err(ContentError::MissingData),
        };
        if !message_length_ok(plaintext.len()) {
            return Err(ContentError::EncryptionFailed);
        }
        match chacha20poly1305_encrypt(self.password.key_bytes(), &nonce, plaintext.as_slice(), path) {
            Some(ciphertext) => Ok(
                Safe::<Encrypted> {
                    contents: Some(ciphertext),
                    nonce: Some(nonce),
                    password: self.password,
                    _data: PhantomData,
                },
            ),
            None => Err(ContentError::EncryptionFailed),
        }
    }

    /// Encrypts the contents with a fresh random nonce, with `path` as
    /// associated data.
    pub fn encrypt(&self, path: &[u8]) -> (r: Result<Safe<'a, Encrypted>, ContentError>)
        ensures
            r matches Ok(s) ==> self@.contents matches Some(m) && s@.nonce matches Some(n)
                && n.len() == 12 && s@.key == self@.key && sealable(self@.key, n, m, path@)
                && s@.contents == Some(chacha20poly1305_seal(self@.key, n, m, path@)),
            r matches Err(e) ==> (e == ContentError::RandomSource || (self@.contents is None && e
                == ContentError::MissingData) || (self@.contents matches Some(m) && !aead_length_ok(
                m.len(),
            ) && e == ContentError::EncryptionFailed)),
    {
        let nonce = match os_random::<12>() {
            Some(n) => n,
            None => return Err(ContentError::RandomSource),
        };
        self.encrypt_with_nonce(path, nonce)
    }
}

impl<'a> Safe<'a, Encrypted> {
    /// Appends the nonce and then the ciphertext to `vec`.
    pub fn save(&self, vec: &mut Vec<u8>) -> (r: Result<(), ContentError>)
        ensures
            match (self@.nonce, self@.contents) {
                (Some(n), Some(c)) => r is Ok && final(vec)@ == old(vec)@ + n + c,
                (None, _) => r == Err::<(), ContentError>(ContentError::MissingData) && final(vec)@
                    == old(vec)@,
                (Some(n), None) => r == Err::<(), ContentError>(ContentError::MissingData)
                    && final(vec)@ == old(vec)@ + n,
            },
    {
        let nonce = match self.nonce {
            Some(n) => n,
            None => return Err(ContentError::MissingData),
        };
        push_all(vec, &nonce);
        match &self.contents {
            Some(c) => {
                push_all(vec, c.as_slice());
                Ok(())
            },
            None => Err(ContentError::MissingData),
        }
    }

    /// The ciphertext.
    pub fn extract(&self) -> (r: Vec<u8>)
        requires
            self@.contents is Some,
        ensures
            self@.contents == Some(r@),
    {
        match &self.contents {
            Some(c) => c.clone(),
            None => Vec::new(),
        }
    }
}

/// Decrypts `contents` with the derived key and `nonce`, with `path` as
/// associated data.
pub fn decrypt(pass: &Password<Derived>, nonce: &[u8; 12], contents: &[u8], path: &[u8]) -> (r:
    Result<Vec<u8>, ContentError>)
    ensures
        !aead_ciphertext_ok(contents@.len()) ==> r == Err::<Vec<u8>, ContentError>(
            ContentError::DecryptionFailed,
        ),
        aead_ciphertext_ok(contents@.len()) ==> match chacha20poly1305_open(
            pass@.pass,
            nonce@,
            contents@,
            path@,
        ) {
            Some(m) => r matches Ok(p) && p@ == m,
            None => r == Err::<Vec<u8>, ContentError>(ContentError::DecryptionFailed),
        },
        forall|m: Seq<u8>|
            sealable(pass@.pass, nonce@, m, path@) && #[trigger] chacha20poly1305_seal(
                pass@.pass,
                nonce@,
                m,
                path@,
            ) == contents@ ==> (r matches Ok(p) && p@ == m),
{
    if !ciphertext_length_ok(contents.len()) {
        return Err(ContentError::DecryptionFailed);
    }
    match chacha20poly1305_decrypt(pass.key_bytes(), nonce, contents, path) {
        Some(p) => Ok(p),
        None => Err(ContentError::DecryptionFailed),
    }
}

} // verus!
