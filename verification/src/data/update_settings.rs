//! Settings for automatic updates.
use vstd::prelude::*;

verus! {

/// Whether the application checks for updates by itself.
#[derive(Clone, Copy, PartialEq, Eq, Structural, Debug)]
pub struct UpdateSettings {
    pub auto_update: bool,
}

impl Default for UpdateSettings {
    /// Automatic updates are on by default.
    fn default() -> (s: Self)
        ensures
            s.auto_update,
    {
        Self { auto_update: true }
    }
}

} // verus!
