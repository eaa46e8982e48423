//! The user's configuration.

use vstd::prelude::*;

verus! {

/// The configuration: how many zero-overwrite passes a deletion makes.
pub struct Configs {
    overwrite_times: u8,
}

impl Default for Configs {
    /// No overwrite pass.
    fn default() -> (r: Self)
        ensures
            r.spec_overwrite_times() == 0,
    {
        Configs { overwrite_times: 0 }
    }
}

impl Configs {
    /// A configuration with `overwrite_times` passes.
    pub fn from_overwrite_times(overwrite_times: u8) -> (r: Self)
        ensures
            r.spec_overwrite_times() == overwrite_times,
    {
        Configs { overwrite_times }
    }

    /// How many zero-overwrite passes a deletion makes.
    pub fn overwrite_times(&self) -> (r: u8)
        ensures
            r == self.spec_overwrite_times(),
    {
        self.overwrite_times
    }

    /// How many zero-overwrite passes a deletion makes.
    pub closed spec fn spec_overwrite_times(&self) -> u8 {
        self.overwrite_times
    }
}

} // verus!
