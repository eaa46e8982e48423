use secure_safe::encryption::contents::Safe;
use secure_safe::encryption::password::{
    pad_password, salt_from_file, Password, PasswordError, SaveSalt, PASS_SIZE,
};
use secure_safe::error::ErrorKind;

/// A password as typed, before its key is derived.
type Typed = Password<secure_safe::encryption::password::Default>;

#[test]
fn pads_short_password() {
    let password = pad_password("secret").unwrap();

    assert_eq!(&password[..6], b"secret");
    assert_eq!(&password[6..], &[0u8; PASS_SIZE - 6]);
}

#[test]
fn rejects_empty_password() {
    assert_eq!(pad_password("").unwrap_err().kind(), ErrorKind::InvalidInput);
}

#[test]
fn rejects_password_longer_than_32_bytes() {
    let long = "a".repeat(33);
    assert_eq!(pad_password(&long).unwrap_err(), PasswordError::TooLong);
    assert_eq!(pad_password(&long).unwrap_err().kind(), ErrorKind::InvalidInput);
    let exact = "b".repeat(32);
    assert_eq!(pad_password(&exact).unwrap(), [b'b'; 32]);
}

#[test]
fn pads_multibyte_password_by_bytes() {
    // '\u{e9}' is two bytes in UTF-8.
    let password = pad_password("\u{e9}").unwrap();
    assert_eq!(&password[..2], "\u{e9}".as_bytes());
    assert_eq!(&password[2..], &[0u8; 30]);
    // sixteen two-byte characters fill the 32 bytes exactly; seventeen do not fit.
    assert!(pad_password(&"\u{e9}".repeat(16)).is_ok());
    assert_eq!(pad_password(&"\u{e9}".repeat(17)).unwrap_err(), PasswordError::TooLong);
}

#[test]
fn derived_password_reuses_existing_salt() {
    let salt = [3u8; 16];
    let password = Typed::new_with([7u8; PASS_SIZE], Some(salt));

    let password = password.derive().unwrap();

    assert_eq!(password.salt(), Some(salt));
}

#[test]
fn derive_without_salt_picks_one_and_stretches_the_password() {
    let password = Typed::test_create_pass([9u8; 32]).derive().unwrap();
    let salt = password.salt().unwrap();
    assert_eq!(password.salt_to_save().unwrap(), salt);
    assert_ne!(password.extract(), &[9u8; 32]);
    // The same password and salt derive the same key.
    let again = Typed::new_with([9u8; 32], Some(salt)).derive().unwrap();
    assert_eq!(again.extract(), password.extract());
}

#[test]
fn derive_with_salt_uses_the_known_salt_first() {
    let known = [1u8; 16];
    let fresh = [2u8; 16];
    let with_known = Typed::new_with([5u8; 32], Some(known)).derive_with_salt(fresh);
    assert_eq!(with_known.salt(), Some(known));
    let with_fresh = Typed::new_with([5u8; 32], None).derive_with_salt(fresh);
    assert_eq!(with_fresh.salt(), Some(fresh));
    assert_ne!(with_known.extract(), with_fresh.extract());
}

#[test]
fn from_typed_pads_and_keeps_the_salt() {
    let password = Typed::from_typed("abc", Some([8u8; 16])).ok().unwrap();
    let mut expected = [0u8; 32];
    expected[..3].copy_from_slice(b"abc");
    assert_eq!(password.key_bytes(), &expected);
    assert_eq!(password.salt(), Some([8u8; 16]));
    assert_eq!(Typed::from_typed("", None).err().unwrap(), PasswordError::Empty);
}

#[test]
fn salt_file_must_hold_sixteen_bytes() {
    assert_eq!(salt_from_file(&[6u8; 16]), Some([6u8; 16]));
    assert_eq!(salt_from_file(&[6u8; 15]), None);
    assert_eq!(salt_from_file(&[6u8; 17]), None);
}

#[test]
fn wrong_password() {
    const CONTENTS: &[u8] = b"bandjfkjfkadjf";
    const PATH: &[u8] = b"potato";

    let salt = [4; 16];
    let derive_password = |password: &str| {
        Typed::new_with(pad_password(password).unwrap(), Some(salt)).derive().unwrap()
    };

    let password = derive_password("BANANAN!");
    let safe = Safe::new(&password, CONTENTS.to_vec());
    let encrypted = safe.encrypt(PATH).ok().unwrap();

    let mut encrypted_contents = Vec::new();
    encrypted.save(&mut encrypted_contents).unwrap();

    let wrong_password = derive_password("boooo");

    let result = Safe::load(&wrong_password, &encrypted_contents, 0, PATH);

    assert!(result.is_err());

    // The right password opens it.
    assert_eq!(Safe::load(&password, &encrypted_contents, 0, PATH).unwrap(), CONTENTS);
}
