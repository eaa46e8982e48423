//! Keys derived from the login password, and the encryption of entry
//! contents.

pub mod contents;
pub mod password;
