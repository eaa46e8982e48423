//! The header of a vault entry:
//!
//! ```text
//! 11 bytes   marker "secure_safe"
//! 8 bytes    length of the path the file was added from, big-endian
//! N bytes    that path, UTF-8
//! 32 bytes   BLAKE3 hash of everything that follows the header
//! ```

use core::marker::PhantomData;
use vstd::prelude::*;

use crate::bytes::{
    bytes_equal, copy_range, lemma_u64_be_roundtrip, push_all, push_u64_be, read_u64_be,
    u64_be_bytes, u64_from_be,
};
use crate::crypto::{blake3_digest, blake3_hash};
use crate::error::ErrorKind;
use crate::path::path_file_name;
use crate::text::string_from_utf8;

verus! {

broadcast use vstd::utf8::encode_utf8_valid_utf8, vstd::utf8::encode_utf8_decode_utf8;

/// The first bytes of every entry: `b"secure_safe"`.
pub const MARKER: [u8; 11] = [115u8, 101u8, 99u8, 117u8, 114u8, 101u8, 95u8, 115u8, 97u8, 102u8, 101u8];

/// The marker as a sequence.
pub open spec fn marker_bytes() -> Seq<u8> {
    seq![115u8, 101u8, 99u8, 117u8, 114u8, 101u8, 95u8, 115u8, 97u8, 102u8, 101u8]
}

/// Length of the marker.
pub const MARKER_LEN: usize = 11;

/// Length of the stored hash.
pub const HASH_LEN: usize = 32;

/// Saving a header.
pub trait Save: Sized {
    /// Whether every field that the saved form needs is present.
    spec fn ready_to_save(&self) -> bool;

    /// The bytes that `save` produces.
    spec fn saved_bytes(&self) -> Seq<u8>;

    /// Checks that every field that the saved form needs is present.
    fn check_to_save(&self)
        requires
            self.ready_to_save(),
    ;

    /// The saved form.
    fn save(self) -> (r: Result<Vec<u8>, HeaderError>)
        requires
            self.ready_to_save(),
        ensures
            r matches Ok(b) ==> b@ == self.saved_bytes(),
    ;
}

/// Loading something from its stored form.
pub trait Load {
    /// What it is loaded from.
    type Input: ?Sized;

    /// What loading gives.
    type Output;

    /// Loads from `input`.
    fn load(input: &Self::Input) -> Result<Self::Output, HeaderError>;
}

/// A header that was read from an entry.
#[derive(PartialEq, Eq)]
pub struct Red;

/// A header that has no path yet.
#[derive(PartialEq, Eq)]
pub struct Unconfigured;

/// A header that has its path.
#[derive(PartialEq, Eq)]
pub struct Configured;

/// Why a header could not be read.
#[derive(Debug, Clone, Copy, PartialEq, Eq, Structural)]
pub enum HeaderError {
    /// The input ended inside the marker, the path length or the hash.
    Truncated,
    /// The input does not start with the marker.
    BadMarker,
    /// The path length leaves no room for the path and the hash.
    PathLengthExceedsInput,
    /// The path is not valid UTF-8.
    PathNotUtf8,
    /// The stored hash does not match what follows the header.
    Corrupted,
}

impl HeaderError {
    /// The category of the failure: `UnexpectedEof` for truncated input,
    /// `InvalidData` otherwise.
    pub fn kind(&self) -> (r: ErrorKind)
        ensures
            r == (if *self == HeaderError::Truncated {
                ErrorKind::UnexpectedEof
            } else {
                ErrorKind::InvalidData
            }),
    {
        match self {
            HeaderError::Truncated => ErrorKind::UnexpectedEof,
            _ => ErrorKind::InvalidData,
        }
    }
}

/// The fields of a header.
pub struct HeaderView {
    pub path: Option<Seq<char>>,
    pub path_len: Option<u64>,
    pub hash: Option<Seq<u8>>,
}

/// The header of a vault entry, in one of three states.
pub struct Header<State> {
    marker: [u8; 11],
    path: Option<String>,
    path_len: Option<u64>,
    hash: Option<[u8; 32]>,
    _data: PhantomData<State>,
}

impl<State> View for Header<State> {
    type V = HeaderView;

    closed spec fn view(&self) -> HeaderView {
        HeaderView {
            path: match self.path {
                Some(p) => Some(p@),
                None => None,
            },
            path_len: self.path_len,
            hash: match self.hash {
                Some(h) => Some(h@),
                None => None,
            },
        }
    }
}

impl<State> Header<State> {
    #[verifier::type_invariant]
    closed spec fn marker_is_fixed(self) -> bool {
        self.marker@ == marker_bytes()
    }

    /// The marker this header carries.
    pub fn marker(&self) -> (r: [u8; 11])
        ensures
            r@ == marker_bytes(),
    {
        proof {
            use_type_invariant(self);
        }
        self.marker
    }

    /// The stored path, if any.
    pub fn path_text(&self) -> (r: Option<String>)
        ensures
            r matches Some(p) ==> self@.path == Some(p@),
            r is None ==> self@.path is None,
    {
        match &self.path {
            Some(p) => Some(p.clone()),
            None => None,
        }
    }

    /// The stored path length, if any.
    pub fn path_len(&self) -> (r: Option<u64>)
        ensures
            r == self@.path_len,
    {
        self.path_len
    }

    /// The stored hash, if any.
    pub fn stored_hash(&self) -> (r: Option<[u8; 32]>)
        ensures
            r matches Some(h) ==> self@.hash == Some(h@),
            r is None ==> self@.hash is None,
    {
        self.hash
    }
}

/// The saved form of a header with these fields.
pub open spec fn header_bytes(path: Seq<char>, path_len: u64, hash: Seq<u8>) -> Seq<u8> {
    marker_bytes() + u64_be_bytes(path_len) + vstd::utf8::encode_utf8(path) + hash
}

/// How many path bytes an input of `len` bytes can hold after the marker, the
/// length and the hash.
pub open spec fn available_path_bytes(len: int) -> int {
    if len >= 51 {
        len - 51
    } else {
        0
    }
}

/// What reading a header from `data` gives: the path, its length, the stored
/// hash and where the payload starts.
pub open spec fn parse_header(data: Seq<u8>) -> Result<(Seq<char>, u64, Seq<u8>, int), HeaderError> {
    if data.len() < 11 {
        Err(HeaderError::Truncated)
    } else if data.subrange(0, 11) != marker_bytes() {
        Err(HeaderError::BadMarker)
    } else if data.len() < 19 {
        Err(HeaderError::Truncated)
    } else {
        let n = u64_from_be(data.subrange(11, 19));
        if n > available_path_bytes(data.len() as int) {
            Err(HeaderError::PathLengthExceedsInput)
        } else {
            let path = data.subrange(19, 19 + n);
            let hash = data.subrange(19 + n, 51 + n);
            if !vstd::utf8::valid_utf8(path) {
                Err(HeaderError::PathNotUtf8)
            } else if data.len() < 51 + n {
                Err(HeaderError::Truncated)
            } else if blake3_digest(data.subrange(51 + n, data.len() as int)) != hash {
                Err(HeaderError::Corrupted)
            } else {
                Ok((vstd::utf8::decode_utf8(path), n, hash, 51 + n))
            }
        }
    }
}

impl Header<Unconfigured> {
    /// A header with the marker and no other field.
    pub fn default() -> (r: Self)
        ensures
            r@.path is None,
            r@.path_len is None,
            r@.hash is None,
    {
        Self { marker: MARKER, path: None, path_len: None, hash: None, _data: PhantomData }
    }

    /// The same header with `path` and its length in bytes recorded.
    pub fn configure(self, path: &str) -> (r: Header<Configured>)
        ensures
            r@.path == Some(path@),
            r@.path_len == Some(vstd::utf8::encode_utf8(path@).len() as u64),
            r@.hash == self@.hash,
    {
        let mut this = self;
        this.with_path(path);
        proof {
            use_type_invariant(&this);
        }
        Header::<Configured> {
            marker: this.marker,
            path: this.path,
            path_len: this.path_len,
            hash: this.hash,
            _data: PhantomData,
        }
    }

    fn with_path(&mut self, path: &str)
        ensures
            final(self)@.path == Some(path@),
            final(self)@.path_len == Some(vstd::utf8::encode_utf8(path@).len() as u64),
            final(self)@.hash == old(self)@.hash,
    {
        proof {
            use_type_invariant(&*self);
        }
        let len = path.as_bytes().len() as u64;
        self.path = Some(path.to_owned());
        self.path_len = Some(len);
    }
}

impl Save for Header<Configured> {
    open spec fn ready_to_save(&self) -> bool {
        &&& self@.path is Some
        &&& self@.path_len is Some
        &&& self@.hash is Some
    }

    open spec fn saved_bytes(&self) -> Seq<u8> {
        header_bytes(self@.path->0, self@.path_len->0, self@.hash->0)
    }

    fn check_to_save(&self) {
    }

    fn save(self) -> (r: Result<Vec<u8>, HeaderError>)
        ensures
            r is Ok,
    {
        self.check_to_save();
        proof {
            use_type_invariant(&self);
        }
        let mut contents: Vec<u8> = Vec::new();
        push_all(&mut contents, &self.marker);
        match (&self.path, self.path_len, &self.hash) {
            (Some(path), Some(len), Some(hash)) => {
                push_u64_be(&mut contents, len);
                push_all(&mut contents, path.as_str().as_bytes());
                push_all(&mut contents, hash);
            },
            _ => {},
        }
        Ok(contents)
    }
}

impl Header<Configured> {
    /// Records the BLAKE3 hash of `contents`.
    pub fn hash(&mut self, contents: &[u8])
        ensures
            final(self)@.hash == Some(blake3_digest(contents@)),
            final(self)@.path == old(self)@.path,
            final(self)@.path_len == old(self)@.path_len,
    {
        proof {
            use_type_invariant(&*self);
        }
        let hash = blake3_hash(contents);
        self.hash = Some(hash);
    }

    /// The last component of the recorded path.
    pub fn file_name(&self) -> (r: String)
        requires
            self@.path is Some,
            path_file_name(self@.path->0) is Some,
        ensures
            path_file_name(self@.path->0) == Some(r@),
    {
        match &self.path {
            Some(p) => match crate::path::file_name(p.as_str()) {
                Some(name) => name,
                None => String::new(),
            },
            None => String::new(),
        }
    }
}

impl Header<Red> {
    /// Reads a header from the bytes of an entry, checks the stored hash
    /// against everything after the header, and returns the header with the
    /// offset where the payload starts.
    pub fn load_inner(data: &[u8]) -> (r: Result<(Header<Red>, usize), HeaderError>)
        ensures
            match parse_header(data@) {
                Ok((path, len, hash, start)) => r matches Ok((h, s)) && h@.path == Some(path)
                    && h@.path_len == Some(len) && h@.hash == Some(hash) && s == start,
                Err(e) => r == Err::<(Header<Red>, usize), HeaderError>(e),
            },
    {
        let total = data.len();
        if total < MARKER_LEN {
            return Err(HeaderError::Truncated);
        }
        let marker = copy_range(data, 0, MARKER_LEN);
        if !bytes_equal(marker.as_slice(), &MARKER) {
            return Err(HeaderError::BadMarker);
        }
        if total < 19 {
            return Err(HeaderError::Truncated);
        }
        let path_len = read_u64_be(data, 11);
        let available: usize = if total >= 51 {
            total - 51
        } else {
            0
        };
        if path_len > available as u64 {
            return Err(HeaderError::PathLengthExceedsInput);
        }
        let n = path_len as usize;
        let path_bytes = copy_range(data, 19, 19 + n);
        let path = match string_from_utf8(path_bytes) {
            Some(p) => p,
            None => return Err(HeaderError::PathNotUtf8),
        };
        let hash_start = 19 + n;
        if total < hash_start + HASH_LEN {
            return Err(HeaderError::Truncated);
        }
        let stored = copy_range(data, hash_start, hash_start + HASH_LEN);
        let payload_start = hash_start + HASH_LEN;
        let rest = copy_range(data, payload_start, total);
        let computed = blake3_hash(rest.as_slice());
        if !bytes_equal(stored.as_slice(), &computed) {
            return Err(HeaderError::Corrupted);
        }
        let mut hash = [0u8; 32];
        let mut i: usize = 0;
        while i < 32
            invariant
                i <= 32,
                hash@.len() == 32,
                computed@.len() == 32,
                forall|j: int| 0 <= j < i ==> hash@[j] == computed@[j],
            decreases 32 - i,
        {
            hash[i] = computed[i];
            i = i + 1;
        }
        assert(hash@ == computed@);
        Ok((
            Header::<Red> {
                marker: MARKER,
                path_len: Some(path_len),
                path: Some(path),
                hash: Some(hash),
                _data: PhantomData,
            },
            payload_start,
        ))
    }

    /// Reads a header from arbitrary bytes, for fuzzing.
    pub fn fuzzing_load_inner(data: &[u8]) -> (r: Result<(Header<Red>, usize), HeaderError>)
        ensures
            match parse_header(data@) {
                Ok((path, len, hash, start)) => r matches Ok((h, s)) && h@.path == Some(path)
                    && h@.path_len == Some(len) && h@.hash == Some(hash) && s == start,
                Err(e) => r == Err::<(Header<Red>, usize), HeaderError>(e),
            },
    {
        Self::load_inner(data)
    }

    /// The recorded path.
    pub fn path(&self) -> (r: String)
        requires
            self@.path is Some,
        ensures
            self@.path == Some(r@),
    {
        match &self.path {
            Some(p) => p.clone(),
            None => String::new(),
        }
    }
}

impl Load for Header<Red> {
    type Input = [u8];

    type Output = (Header<Red>, usize);

    fn load(input: &[u8]) -> (r: Result<(Header<Red>, usize), HeaderError>)
        ensures
            match parse_header(input@) {
                Ok((path, len, hash, start)) => r matches Ok((h, s)) && h@.path == Some(path)
                    && h@.path_len == Some(len) && h@.hash == Some(hash) && s == start,
                Err(e) => r == Err::<(Header<Red>, usize), HeaderError>(e),
            },
    {
        Self::load_inner(input)
    }
}

/// Reading back a saved header: a header saved with the BLAKE3 hash of the
/// payload that follows it reads back as the same path, length and hash, and
/// the payload starts right after it.
pub proof fn lemma_load_saved_header(path: Seq<char>, payload: Seq<u8>, hash: Seq<u8>)
    requires
        hash.len() == 32,
        hash == blake3_digest(payload),
        vstd::utf8::encode_utf8(path).len() <= u64::MAX,
    ensures
        ({
            let n = vstd::utf8::encode_utf8(path).len() as int;
            parse_header(header_bytes(path, n as u64, hash) + payload) == Ok::<
                (Seq<char>, u64, Seq<u8>, int),
                HeaderError,
            >((path, n as u64, hash, 51 + n))
        }),
{
    let pb = vstd::utf8::encode_utf8(path);
    let n = pb.len() as int;
    let data = header_bytes(path, n as u64, hash) + payload;
    lemma_u64_be_roundtrip(n as u64);
    assert(data.subrange(0, 11) == marker_bytes());
    assert(data.subrange(11, 19) == u64_be_bytes(n as u64));
    assert(data.subrange(19, 19 + n) == pb);
    assert(data.subrange(19 + n, 51 + n) == hash);
    assert(data.subrange(51 + n, data.len() as int) == payload);
}

} // verus!
