use secure_safe::add::{add, add_with_nonce};
use secure_safe::encryption::contents::{ContentError, Safe};
use secure_safe::encryption::password::Password;
use secure_safe::error::ErrorKind;
use secure_safe::file_format::header::HeaderError;
use secure_safe::login::{password_is_correct, PASS_CHECK_CONTENTS};
use secure_safe::restore::{restore, restore_path, RestoreError};

/// A password as typed, before its key is derived.
type Typed = Password<secure_safe::encryption::password::Default>;

fn key(byte: u8) -> Password<secure_safe::encryption::password::Derived> {
    Typed::new_with([byte; 32], Some([1u8; 16])).derive().unwrap()
}

#[test]
fn round_trip() {
    let source = "/tmp/secure-safe-round-trip/hello.bin";
    let file_contents = vec![0u8; 9000];

    let password = Typed::test_create_pass([20u8; 32]).derive().unwrap();

    let entry = add(&password, source, &file_contents).ok().unwrap();
    assert_eq!(entry.file_name, "hello.bin");

    let restored = restore(&password, &entry.bytes).ok().unwrap();

    assert_eq!(restored.contents, file_contents);
    assert_eq!(restored.path, source);
}

#[test]
fn entry_layout_matches_the_documented_format() {
    let password = key(3);
    let nonce = [7u8; 12];
    let entry = add_with_nonce(&password, "/p/f.txt", b"hi", nonce).ok().unwrap();
    let bytes = &entry.bytes;
    assert_eq!(&bytes[..11], b"secure_safe");
    assert_eq!(&bytes[11..19], &8u64.to_be_bytes());
    assert_eq!(&bytes[19..27], b"/p/f.txt");
    let payload = &bytes[59..];
    assert_eq!(&bytes[27..59], blake3::hash(payload).as_bytes());
    assert_eq!(&payload[..12], &nonce);
    // ciphertext plus 16-byte tag, not the plaintext
    assert_eq!(payload.len(), 12 + 2 + 16);
    assert_ne!(&payload[12..14], b"hi");
}

#[test]
fn tampered_entries_are_refused() {
    let password = key(4);
    let entry = add(&password, "/p/secret.txt", b"top secret").ok().unwrap();

    // A changed ciphertext no longer matches the stored hash.
    let mut corrupted = entry.bytes.clone();
    let last = corrupted.len() - 1;
    corrupted[last] ^= 0x80;
    assert_eq!(restore(&password, &corrupted).err().unwrap(), RestoreError::Header(HeaderError::Corrupted));

    // A wrong key fails to decrypt.
    let wrong = key(5);
    let error = restore(&wrong, &entry.bytes).err().unwrap();
    assert_eq!(error, RestoreError::Content(ContentError::DecryptionFailed));
    assert_eq!(error.kind(), ErrorKind::InvalidData);
}

#[test]
fn changed_path_fails_authentication() {
    let password = key(6);
    let entry = add(&password, "/p/aaaa", b"data").ok().unwrap();
    let mut bytes = entry.bytes.clone();
    // Same length, other path: the hash still matches the payload but the
    // associated data differs.
    bytes[19 + 3] = b'b';
    assert_eq!(
        restore(&password, &bytes).err().unwrap(),
        RestoreError::Content(ContentError::DecryptionFailed)
    );
}

#[test]
fn truncated_entry_reports_end_of_input() {
    let password = key(7);
    let error = restore(&password, b"secure_sa").err().unwrap();
    assert_eq!(error.kind(), ErrorKind::UnexpectedEof);
}

#[test]
fn login_check() {
    let password = key(8);
    let entry = add(&password, "/home/u/secure-safe/pass-check", &PASS_CHECK_CONTENTS).ok().unwrap();
    assert_eq!(password_is_correct(&password, &entry.bytes), Ok(true));
    assert_eq!(password_is_correct(&key(9), &entry.bytes), Ok(false));
    let other = add(&password, "/home/u/secure-safe/pass-check", b"something else").ok().unwrap();
    assert_eq!(password_is_correct(&password, &other.bytes), Ok(false));
    assert!(password_is_correct(&password, b"sec").is_err());
}

#[test]
fn restore_accepts_bare_names_only() {
    assert_eq!(restore_path("/home/u/secure-safe", "secret.txt"), Ok("/home/u/secure-safe/secret.txt".to_string()));
    assert_eq!(restore_path("/home/u/secure-safe/", "s"), Ok("/home/u/secure-safe/s".to_string()));
    assert_eq!(restore_path("/v", "../secret.txt"), Err(ErrorKind::InvalidInput));
    assert_eq!(restore_path("/v", ".."), Err(ErrorKind::InvalidInput));
    assert_eq!(restore_path("/v", ""), Err(ErrorKind::InvalidInput));
}

#[test]
fn contents_safe_states() {
    let password = key(10);
    let safe = Safe::new(&password, b"abc".to_vec());
    let encrypted = safe.encrypt_with_nonce(b"/x", [2u8; 12]).ok().unwrap();
    let mut out = vec![9u8];
    encrypted.save(&mut out).unwrap();
    assert_eq!(out[0], 9);
    assert_eq!(&out[1..13], &[2u8; 12]);
    assert_eq!(&out[13..], encrypted.extract().as_slice());
    assert_eq!(Safe::load(&password, &out, 1, b"/x").unwrap(), b"abc");
    assert_eq!(Safe::load(&password, &out, out.len() - 5, b"/x").unwrap_err(), ContentError::Truncated);

    let configured = Safe::new(&password, vec![]).configure(b"plain".to_vec());
    let mut out2 = Vec::new();
    assert_eq!(configured.save(&mut out2).unwrap_err(), ContentError::MissingData);
    assert!(out2.is_empty());
}

#[test]
fn encryption_adds_a_sixteen_byte_tag() {
    let password = key(11);
    let message = b"seventeen bytes!!".to_vec();
    let safe = Safe::new(&password, message.clone());
    let encrypted = safe.encrypt(b"/doc").ok().unwrap();
    assert_eq!(encrypted.extract().len(), message.len() + 16);
    let mut out = Vec::new();
    encrypted.save(&mut out).unwrap();
    assert_eq!(out.len(), 12 + message.len() + 16);
    assert_eq!(Safe::load(&password, &out, 0, b"/doc").unwrap(), message);
}
