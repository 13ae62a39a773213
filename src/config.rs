//! User settings for downloaded archives and experimental input.

use vstd::prelude::*;

verus! {

#[derive(Debug, Clone, Copy, PartialEq, Eq, Structural)]
pub struct Config {
    pub extract_chall_file: bool,
    pub keep_chall_file: bool,
    pub experimental_features: bool,
}

/// Colour settings; none are defined yet.
#[derive(Debug, Clone, Copy)]
pub struct Colors {}

impl Config {
    /// The settings written on first run: extract and keep archives, mouse
    /// input off.
    pub fn default_config() -> (r: Config)
        ensures
            r.extract_chall_file,
            r.keep_chall_file,
            !r.experimental_features,
    {
        Config { extract_chall_file: true, keep_chall_file: true, experimental_features: false }
    }

    /// An archive that is neither extracted nor kept would be lost: in that
    /// case it is kept.
    pub fn validate_config(&mut self)
        ensures
            final(self).extract_chall_file == old(self).extract_chall_file,
            final(self).experimental_features == old(self).experimental_features,
            final(self).keep_chall_file == (old(self).keep_chall_file || !old(self).extract_chall_file),
            final(self).extract_chall_file || final(self).keep_chall_file,
    {
        if !self.extract_chall_file && !self.keep_chall_file {
            self.keep_chall_file = true;
        }
    }
}

} // verus!
