//! The configuration surface the core consumes: two booleans, read once at
//! construction. Loading them from a file is the host's concern.

use vstd::prelude::*;

verus! {

/// The plugin's configuration: whether the presence session starts active,
/// and whether cover-art lookup is enabled.
#[derive(Clone, Copy, Debug, PartialEq, Eq, Structural)]
pub struct Config {
    pub active: bool,
    pub cover_art: bool,
}

impl Config {
    pub fn new(active: bool, cover_art: bool) -> (r: Self)
        ensures
            r.active == active,
            r.cover_art == cover_art,
    {
        Self { active, cover_art }
    }
}

impl Default for Config {
    /// The configuration used when none can be loaded: inactive at start,
    /// cover-art lookup enabled.
    fn default() -> (r: Self)
        ensures
            r.active == false,
            r.cover_art == true,
    {
        Self { active: false, cover_art: true }
    }
}

} // verus!
