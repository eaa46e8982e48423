//! The login check: a known entry, made at the first login, that opens with
//! the right password only.

use vstd::prelude::*;

use crate::add::is_entry_for;
use crate::bytes::bytes_equal;
use crate::encryption::password::{Derived, Password};
use crate::error::ErrorKind;
use crate::restore::{open_entry, restore, restore_error_kind, RestoreError};

verus! {

/// The contents of the login-check entry: `b"secure-safe-verified"`.
pub const PASS_CHECK_CONTENTS: [u8; 20] = [
    115u8, 101u8, 99u8, 117u8, 114u8, 101u8, 45u8, 115u8, 97u8, 102u8, 101u8, 45u8, 118u8, 101u8,
    114u8, 105u8, 102u8, 105u8, 101u8, 100u8,
];

/// The contents of the login-check entry, as a sequence.
pub open spec fn pass_check_bytes() -> Seq<u8> {
    seq![
        115u8, 101u8, 99u8, 117u8, 114u8, 101u8, 45u8, 115u8, 97u8, 102u8, 101u8, 45u8, 118u8, 101u8,
        114u8, 105u8, 102u8, 105u8, 101u8, 100u8,
    ]
}

/// Whether `password` opens the login-check entry `entry` to the expected
/// contents. A failure to read or decrypt the entry as data (wrong key,
/// corruption) counts as a wrong password; a truncated entry or another
/// failure is reported.
pub fn password_is_correct(password: &Password<Derived>, entry: &[u8]) -> (r: Result<bool, RestoreError>)
    ensures
        match open_entry(password@.pass, entry@) {
            Ok((_path, m)) => r == Ok::<bool, RestoreError>(m == pass_check_bytes()),
            Err(e) => if restore_error_kind(e) == ErrorKind::InvalidData {
                r == Ok::<bool, RestoreError>(false)
            } else {
                r == Err::<bool, RestoreError>(e)
            },
        },
        forall|path: Seq<char>, nonce: Seq<u8>|
            #[trigger] is_entry_for(entry@, password@.pass, path, pass_check_bytes(), nonce)
                && vstd::utf8::encode_utf8(path).len() <= u64::MAX ==> r == Ok::<bool, RestoreError>(
                true),
{
    match restore(password, entry) {
        Ok(contents) => {
            assert(PASS_CHECK_CONTENTS@ == pass_check_bytes());
            Ok(bytes_equal(contents.contents.as_slice(), &PASS_CHECK_CONTENTS))
        },
        Err(error) => if error.kind() == ErrorKind::InvalidData {
            Ok(false)
        } else {
            Err(error)
        },
    }
}

} // verus!
