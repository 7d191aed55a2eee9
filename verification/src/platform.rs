//! The operating systems between which the client distinguishes.

use vstd::prelude::*;

verus! {

/// The operating system the client runs on.
#[derive(Debug, Clone, Copy, PartialEq, Eq, Structural)]
pub enum Platform {
    Android,
    MacOs,
    Other,
}

impl Platform {
    /// Whether the client runs on Android.
    pub fn is_android(&self) -> (r: bool)
        ensures
            r == (*self is Android),
    {
        matches!(self, Platform::Android)
    }
}

} // verus!
