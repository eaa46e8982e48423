//! The login password: padded to 32 bytes, then stretched with Argon2 and a
//! 16-byte salt into the key that encrypts vault entries.

use core::marker::PhantomData;
use vstd::prelude::*;

use crate::bytes::copy_16;
use crate::crypto::{argon2_hash_into, argon2_key, os_random, zeroize_key};
use crate::error::ErrorKind;

verus! {

/// Size of a padded password and of a derived key.
pub const PASS_SIZE: usize = 32;

/// Size of a salt.
pub const SALT_SIZE: usize = 16;

/// A password as typed, padded.
pub struct Default;

/// A key derived from a password.
pub struct Derived;

/// Why a password could not be accepted or derived.
#[derive(Debug, Clone, Copy, PartialEq, Eq, Structural)]
pub enum PasswordError {
    /// The password is empty.
    Empty,
    /// The password is longer than 32 bytes.
    TooLong,
    /// The operating system's random source failed.
    RandomSource,
    /// Argon2 refused its inputs.
    Derivation,
    /// There is no salt to save.
    MissingSalt,
}

impl PasswordError {
    /// The category of the failure.
    pub fn kind(&self) -> (r: ErrorKind)
        ensures
            r == match *self {
                PasswordError::Empty | PasswordError::TooLong => ErrorKind::InvalidInput,
                PasswordError::RandomSource => ErrorKind::Other,
                _ => ErrorKind::InvalidData,
            },
    {
        match self {
            PasswordError::Empty | PasswordError::TooLong => ErrorKind::InvalidInput,
            PasswordError::RandomSource => ErrorKind::Other,
            _ => ErrorKind::InvalidData,
        }
    }
}

/// The bytes of a password followed by zeroes up to 32 bytes.
pub open spec fn padded(bytes: Seq<u8>) -> Seq<u8> {
    bytes + Seq::new((32 - bytes.len()) as nat, |i: int| 0u8)
}

/// What padding a typed password gives.
pub open spec fn pad_result(password: Seq<char>) -> Result<Seq<u8>, PasswordError> {
    let bytes = vstd::utf8::encode_utf8(password);
    if password.len() == 0 {
        Err(PasswordError::Empty)
    } else if bytes.len() > 32 {
        Err(PasswordError::TooLong)
    } else {
        Ok(padded(bytes))
    }
}

/// Pads a typed password with zeroes to 32 bytes; an empty password and one
/// longer than 32 bytes are refused.
pub fn pad_password(password: &str) -> (r: Result<[u8; 32], PasswordError>)
    ensures
        match pad_result(password@) {
            Ok(b) => r matches Ok(a) && a@ == b,
            Err(e) => r == Err::<[u8; 32], PasswordError>(e),
        },
{
    if password.is_empty() {
        return Err(PasswordError::Empty);
    }
    let bytes = password.as_bytes();
    let n = bytes.len();
    if n > PASS_SIZE {
        return Err(PasswordError::TooLong);
    }
    let mut out = [0u8; 32];
    let mut i: usize = 0;
    while i < n
        invariant
            n == bytes@.len() <= 32,
            i <= n,
            out@.len() == 32,
            forall|j: int| 0 <= j < i ==> out@[j] == bytes@[j],
            forall|j: int| n <= j < 32 ==> out@[j] == 0u8,
        decreases n - i,
    {
        out[i] = bytes[i];
        i = i + 1;
    }
    assert(out@ == padded(bytes@));
    Ok(out)
}

/// The salt held in the salt file: the file must hold exactly 16 bytes.
pub fn salt_from_file(bytes: &[u8]) -> (r: Option<[u8; 16]>)
    ensures
        r is Some <==> bytes@.len() == 16,
        r matches Some(s) ==> s@ == bytes@,
{
    if bytes.len() != SALT_SIZE {
        return None;
    }
    let s = copy_16(bytes, 0);
    assert(bytes@.subrange(0, 16) == bytes@);
    Some(s)
}

/// The content of a password: the padded password or the derived key, and
/// the salt when one is known.
pub struct PasswordView {
    pub pass: Seq<u8>,
    pub salt: Option<Seq<u8>>,
}

/// A password in one of two states.
pub struct Password<State> {
    pass: [u8; 32],
    salt: Option<[u8; 16]>,
    _data: PhantomData<State>,
}

impl<State> View for Password<State> {
    type V = PasswordView;

    closed spec fn view(&self) -> PasswordView {
        PasswordView {
            pass: self.pass@,
            salt: match self.salt {
                Some(s) => Some(s@),
                None => None,
            },
        }
    }
}

impl<State> Drop for Password<State> {
    /// Clears the password or key bytes when the password goes away.
    fn drop(&mut self)
        opens_invariants none
        no_unwind
    {
        zeroize_key(&mut self.pass);
    }
}

impl<State> Password<State> {
    /// The salt, if one is known.
    pub fn salt(&self) -> (r: Option<[u8; 16]>)
        ensures
            r matches Some(s) ==> self@.salt == Some(s@),
            r is None ==> self@.salt is None,
    {
        self.salt
    }

    /// The 32 bytes this password holds.
    pub fn key_bytes(&self) -> (r: &[u8; 32])
        ensures
            r@ == self@.pass,
    {
        &self.pass
    }
}

impl Password<Default> {
    /// A password from already padded bytes and an optional salt.
    pub fn new_with(pass: [u8; 32], salt: Option<[u8; 16]>) -> (r: Self)
        ensures
            r@.pass == pass@,
            r@.salt == (match salt {
                Some(s) => Some(s@),
                None => None::<Seq<u8>>,
            }),
    {
        Password { pass, salt, _data: PhantomData }
    }

    /// A password from already padded bytes, with no salt.
    pub fn test_create_pass(bytes: [u8; 32]) -> (r: Password<Default>)
        ensures
            r@.pass == bytes@,
            r@.salt is None,
    {
        Self::new_with(bytes, None)
    }

    /// The password as typed, padded, with the salt read from the salt file
    /// (or none for a first login).
    pub fn from_typed(password: &str, salt: Option<[u8; 16]>) -> (r: Result<Self, PasswordError>)
        ensures
            match pad_result(password@) {
                Ok(b) => r matches Ok(p) && p@.pass == b && p@.salt == (match salt {
                    Some(s) => Some(s@),
                    None => None::<Seq<u8>>,
                }),
                Err(e) => r matches Err(f) && f == e,
            },
    {
        match pad_password(password) {
            Ok(bytes) => Ok(Self::new_with(bytes, salt)),
            Err(e) => Err(e),
        }
    }

    /// Derives the key with the known salt, or with `fresh_salt` when no
    /// salt is known.
    pub fn derive_with_salt(self, fresh_salt: [u8; 16]) -> (r: Password<Derived>)
        ensures
            r@.salt == Some(
                match self@.salt {
                    Some(s) => s,
                    None => fresh_salt@,
                },
            ),
            r@.pass == argon2_key(self@.pass, r@.salt->0),
    {
        let salt = match self.salt {
            Some(s) => s,
            None => fresh_salt,
        };
        let key = match argon2_hash_into(self.pass.as_slice(), salt.as_slice()) {
            Ok(k) => k,
            Err(_) => [0u8; 32],
        };
        Password { pass: key, salt: Some(salt), _data: PhantomData }
    }

    /// Derives the key: with the known salt, or with a fresh random salt when
    /// none is known.
    pub fn derive(self) -> (r: Result<Password<Derived>, PasswordError>)
        ensures
            self@.salt is Some ==> r is Ok,
            r matches Ok(d) ==> {
                &&& d@.salt is Some
                &&& self@.salt is Some ==> d@.salt == self@.salt
                &&& d@.pass == argon2_key(self@.pass, d@.salt->0)
            },
            r matches Err(e) ==> e == PasswordError::RandomSource,
    {
        let fresh = match self.salt {
            Some(s) => s,
            None => match os_random::<16>() {
                Some(s) => s,
                None => return Err(PasswordError::RandomSource),
            },
        };
        Ok(self.derive_with_salt(fresh))
    }
}

impl Password<Derived> {
    /// The derived key.
    pub fn extract(&self) -> (r: &[u8])
        ensures
            r@ == self@.pass,
    {
        self.pass.as_slice()
    }
}

/// The salt that belongs in the salt file.
pub trait SaveSalt {
    /// The 16 bytes to store, or an error when the salt is missing.
    fn salt_to_save(&self) -> Result<[u8; 16], PasswordError>;
}

impl SaveSalt for Password<Derived> {
    fn salt_to_save(&self) -> (r: Result<[u8; 16], PasswordError>)
        ensures
            self@.salt matches Some(s) ==> r matches Ok(t) && t@ == s,
            self@.salt is None ==> r == Err::<[u8; 16], PasswordError>(PasswordError::MissingSalt),
    {
        match self.salt {
            Some(s) => Ok(s),
            None => Err(PasswordError::MissingSalt),
        }
    }
}

} // verus!
