//! A local encrypted-file vault: the entry formats, the key handling and the
//! decisions of the command-line tool, with their contracts.

pub mod bytes;
pub mod error;
pub mod text;
pub mod crypto;
pub mod path;
pub mod file_format;
pub mod encryption;
pub mod add;
pub mod restore;
pub mod login;
pub mod safe;
pub mod parsing;
pub mod navigation;
pub mod delete;
pub mod dir_watch;
pub mod settings;
