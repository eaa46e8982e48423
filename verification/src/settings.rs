//! Where the stand-alone entries are kept, and the user's configuration.

use vstd::prelude::*;

use crate::error::ErrorKind;
use crate::path::{join_name, joined, parent_of, std_path_parent};

pub mod configs;

verus! {

/// Saving settings.
pub trait Store {
    /// Writes the settings where they are looked for.
    fn store(&self) -> Result<(), String>;
}

/// The directory that holds the stand-alone entries.
pub struct Settings {
    pub enc_dir: String,
}

/// Name of the settings file in the home directory.
pub open spec fn settings_name() -> Seq<char> {
    seq!['s', 'e', 'c', 'u', 'r', 'e', '_', 's', 'a', 'f', 'e', '.', 's', 'e', 't', 't', 'i', 'n', 'g', 's']
}

/// Name of the default entry directory.
pub open spec fn default_enc_dir_name() -> Seq<char> {
    seq!['.', 's', 'a', 'f', 'e', '_', 'd', 'i', 'r']
}

/// The path of the settings file for a home directory.
pub fn settings_path(home: &str) -> (r: String)
    ensures
        r@ == joined(home@, settings_name()),
{
    let name = "secure_safe.settings";
    proof {
        reveal_strlit("secure_safe.settings");
    }
    assert(name@ == settings_name());
    join_name(home, name)
}

impl Settings {
    /// The default settings for a home directory: the directory `.safe_dir`
    /// beside the settings file.
    pub fn default(home: &str) -> (r: Result<Self, ErrorKind>)
        ensures
            match std_path_parent(joined(home@, settings_name())) {
                Some(p) => r matches Ok(s) && s.enc_dir@ == joined(p, default_enc_dir_name()),
                None => r == Err::<Settings, ErrorKind>(ErrorKind::InvalidInput),
            },
    {
        let path = settings_path(home);
        let parent = match parent_of(path.as_str()) {
            Some(p) => p,
            None => return Err(ErrorKind::InvalidInput),
        };
        let name = ".safe_dir";
        proof {
            reveal_strlit(".safe_dir");
        }
        assert(name@ == default_enc_dir_name());
        Ok(Settings { enc_dir: join_name(parent.as_str(), name) })
    }
}

} // verus!
