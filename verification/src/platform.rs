//! The operating systems the dictation feature distinguishes.
//!
//! Platform-dependent choices (default shortcut, accepted modifiers,
//! permission handling) take the platform as an explicit value, so each
//! choice is verified on every platform rather than only on the build host.

use vstd::prelude::*;

verus! {

#[derive(Debug, Clone, Copy, PartialEq, Eq, Structural)]
pub enum Platform {
    MacOs,
    Windows,
    Linux,
}

impl Platform {
    /// Whether this platform uses the Cmd/Option modifier vocabulary.
    pub fn is_mac_os(&self) -> (r: bool)
        ensures
            r == (*self == Platform::MacOs),
    {
        matches!(self, Platform::MacOs)
    }
}

} // verus!
