use chacha20poly1305::aead::{Aead, KeyInit, Payload};
use secure_safe::safe::{
    check_stored, decrypt_stored, parse_stored_body, read_marker, stored_entry_path, EncError, Safe,
    SealError,
};

#[test]
fn stores_and_restores_binary_files() {
    let source = "/tmp/secure_safe-test/source.bin";
    let contents = [0, 159, 146, 150, 255];

    let sealed = Safe::new(source, &contents, b"password").ok().unwrap();
    assert_eq!(sealed.state.name, "source.bin");
    let bytes = sealed.to_bytes();

    assert_eq!(read_marker(&bytes), Some(true));
    let entry = parse_stored_body(&bytes).unwrap();
    assert_eq!(check_stored(b"password", &entry), Ok(true));
    let opened = decrypt_stored(b"password", &entry).ok().unwrap();

    assert_eq!(opened.contents, contents);
    assert_eq!(opened.path, source);
}

#[test]
fn stored_layout() {
    let sealed = Safe::seal("/a/b", b"xyz", b"pw", [1u8; 16], [2u8; 24]).ok().unwrap();
    let bytes = sealed.to_bytes();
    assert_eq!(&bytes[..11], b"secure-safe");
    assert_eq!(&bytes[11..27], &[1u8; 16]);
    assert_eq!(&bytes[27..51], &[2u8; 24]);
    assert_eq!(&bytes[51..55], &4u32.to_le_bytes());
    assert_eq!(&bytes[55..59], b"/a/b");
    assert_eq!(&bytes[59..], sealed.state.ciphertext.as_slice());
    // The ciphertext holds the compressed contents and the tag.
    let compressed = zstd::encode_all(std::io::Cursor::new(b"xyz"), 5).unwrap();
    assert_eq!(sealed.state.ciphertext.len(), compressed.len() + 16);
}

#[test]
fn wrong_password_fails_the_integrity_check() {
    let sealed = Safe::seal("/a/b", b"xyz", b"pw", [1u8; 16], [2u8; 24]).ok().unwrap();
    let entry = parse_stored_body(&sealed.to_bytes()).unwrap();
    assert_eq!(check_stored(b"other", &entry), Ok(false));
    match decrypt_stored(b"other", &entry) {
        Err(EncError::Decryption(name)) => assert_eq!(name, "b"),
        _ => panic!("expected a decryption error"),
    }
}

#[test]
fn malformed_stored_entries() {
    assert_eq!(read_marker(b"secure"), None);
    assert_eq!(read_marker(b"something else"), Some(false));
    assert!(parse_stored_body(&[0u8; 54]).is_none());
    let mut too_long = b"secure-safe".to_vec();
    too_long.extend_from_slice(&[0u8; 40]);
    too_long.extend_from_slice(&(16385u32).to_le_bytes());
    too_long.extend_from_slice(&vec![b'a'; 16385]);
    assert!(parse_stored_body(&too_long).is_none());
    let mut short_path = b"secure-safe".to_vec();
    short_path.extend_from_slice(&[0u8; 40]);
    short_path.extend_from_slice(&10u32.to_le_bytes());
    short_path.extend_from_slice(b"abc");
    assert!(parse_stored_body(&short_path).is_none());
}

#[test]
fn stored_path_without_file_name_is_refused() {
    assert_eq!(Safe::seal("/", b"x", b"pw", [1u8; 16], [2u8; 24]).err().unwrap(), SealError::InvalidFileName);
    let sealed = Safe::seal("/a/b", b"xyz", b"pw", [1u8; 16], [2u8; 24]).ok().unwrap();
    let mut entry = parse_stored_body(&sealed.to_bytes()).unwrap();
    entry.path = vec![0xff];
    assert!(matches!(decrypt_stored(b"pw", &entry), Err(EncError::Read)));
    entry.path = b"/".to_vec();
    assert!(matches!(decrypt_stored(b"pw", &entry), Err(EncError::Read)));
}

#[test]
fn decompression_failure_is_reported() {
    // Encrypt bytes that are not a zstd frame with the key the entry uses.
    let key = {
        let mut k = [0u8; 32];
        argon2::Argon2::default().hash_password_into(b"pw", &[1u8; 16], &mut k).unwrap();
        k
    };
    let cipher = chacha20poly1305::XChaCha20Poly1305::new_from_slice(&key).unwrap();
    let ct = cipher
        .encrypt(&chacha20poly1305::XNonce::from([2u8; 24]), Payload { msg: b"not zstd", aad: b"/a/b" })
        .unwrap();
    let mut bytes = b"secure-safe".to_vec();
    bytes.extend_from_slice(&[1u8; 16]);
    bytes.extend_from_slice(&[2u8; 24]);
    bytes.extend_from_slice(&4u32.to_le_bytes());
    bytes.extend_from_slice(b"/a/b");
    bytes.extend_from_slice(&ct);
    let entry = parse_stored_body(&bytes).unwrap();
    assert!(matches!(decrypt_stored(b"pw", &entry), Err(EncError::UnZip(_))));
}

#[test]
fn stored_entries_are_named_by_bare_file_names() {
    assert_eq!(stored_entry_path("/enc", "a.bin").ok().unwrap(), "/enc/a.bin");
    assert!(matches!(stored_entry_path("/enc", "../a.bin"), Err(EncError::Read)));
    assert!(matches!(stored_entry_path("/enc", "/enc/a.bin"), Err(EncError::Read)));
    assert!(matches!(stored_entry_path("/enc", ".."), Err(EncError::Read)));
}
