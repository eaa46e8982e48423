use secure_safe::error::ErrorKind;
use secure_safe::file_format::header::{
    Header, HeaderError, Load, Red, Save, Unconfigured, MARKER,
};

fn u64_be(x: u64) -> [u8; 8] {
    x.to_be_bytes()
}

#[test]
fn header() {
    let file_path = "/tmp/secure-safe-header/test.tst";

    let header = Header::<Unconfigured>::default();

    let header = header.configure(file_path);

    assert_eq!(header.marker(), MARKER);
    assert_eq!(header.path_text(), Some(file_path.to_string()));
    assert_eq!(header.path_len(), Some(file_path.to_string().len() as u64));
    assert_eq!(header.stored_hash(), None);
}

#[test]
fn rejects_path_length_larger_than_input() {
    let mut input = MARKER.to_vec();
    input.extend_from_slice(&u64::MAX.to_be_bytes());

    let error = Header::<Red>::load_inner(&input).err().unwrap();
    assert_eq!(error.kind(), ErrorKind::InvalidData);
}

#[test]
fn rejects_non_utf8_path() {
    let mut input = MARKER.to_vec();
    input.extend_from_slice(&1_u64.to_be_bytes());
    input.push(0xff);
    input.extend_from_slice(&[0; 32]);

    let error = Header::<Red>::load_inner(&input).err().unwrap();
    assert_eq!(error.kind(), ErrorKind::InvalidData);
}

#[test]
fn saved_header_layout() {
    let mut header = Header::<Unconfigured>::default().configure("/a/b.txt");
    header.hash(b"payload");
    let hash = header.stored_hash().unwrap();
    assert_eq!(hash, *blake3::hash(b"payload").as_bytes());
    let bytes = header.save().unwrap();
    let mut expected = b"secure_safe".to_vec();
    expected.extend_from_slice(&u64_be(8));
    expected.extend_from_slice(b"/a/b.txt");
    expected.extend_from_slice(&hash);
    assert_eq!(bytes, expected);
}

#[test]
fn saved_header_reads_back() {
    let payload = b"nonce and ciphertext".to_vec();
    let mut header = Header::<Unconfigured>::default().configure("/home/alice/report.txt");
    header.hash(&payload);
    assert_eq!(header.file_name(), "report.txt");
    let mut bytes = header.save().unwrap();
    let header_len = bytes.len();
    bytes.extend_from_slice(&payload);

    let (read, start) = <Header<Red> as Load>::load(&bytes).unwrap();
    assert_eq!(read.path(), "/home/alice/report.txt");
    assert_eq!(read.path_len(), Some(22));
    assert_eq!(start, header_len);
    assert_eq!(start, 11 + 8 + 22 + 32);
    assert_eq!(&bytes[start..], payload.as_slice());
}

#[test]
fn corrupted_payload_is_refused() {
    let payload = b"some payload".to_vec();
    let mut header = Header::<Unconfigured>::default().configure("/x/y");
    header.hash(&payload);
    let mut bytes = header.save().unwrap();
    bytes.extend_from_slice(&payload);
    let last = bytes.len() - 1;
    bytes[last] ^= 1;
    assert_eq!(Header::<Red>::load_inner(&bytes).err().unwrap(), HeaderError::Corrupted);
}

#[test]
fn header_errors_by_input() {
    assert_eq!(Header::<Red>::load_inner(b"secure").err().unwrap(), HeaderError::Truncated);
    assert_eq!(
        Header::<Red>::load_inner(b"secure_safe").err().unwrap().kind(),
        ErrorKind::UnexpectedEof
    );
    assert_eq!(Header::<Red>::load_inner(b"not_a_vault_file").err().unwrap(), HeaderError::BadMarker);
    // A zero-length path but no room for the hash.
    let mut short = MARKER.to_vec();
    short.extend_from_slice(&0u64.to_be_bytes());
    short.extend_from_slice(&[0u8; 10]);
    assert_eq!(Header::<Red>::load_inner(&short).err().unwrap(), HeaderError::Truncated);
    let mut long = MARKER.to_vec();
    long.extend_from_slice(&5u64.to_be_bytes());
    long.extend_from_slice(&[b'a'; 20]);
    assert_eq!(
        Header::<Red>::load_inner(&long).err().unwrap(),
        HeaderError::PathLengthExceedsInput
    );
    assert_eq!(Header::<Red>::fuzzing_load_inner(&long).err().unwrap(), HeaderError::PathLengthExceedsInput);
}
