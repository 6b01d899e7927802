use crate::state::SavedPosition;
use vstd::prelude::*;

verus! {

/// What the configuration file holds.
#[derive(Debug, Clone)]
pub struct Config {
    /// The address of a device to connect to at start, as text.
    pub predefined_mac: Option<String>,
    pub saved_positions: Vec<SavedPosition>,
}

impl Config {
    /// The configuration used when the file is absent or unreadable.
    pub fn default() -> (r: Self)
        ensures
            r.predefined_mac is None,
            r.saved_positions@.len() == 0,
    {
        Config { predefined_mac: None, saved_positions: Vec::new() }
    }
}

} // verus!
