//! Global-shortcut handling for push-to-talk dictation: the shortcut
//! grammar, its validation per platform, and the platform managers'
//! registration bookkeeping.
//!
//! A shortcut is written `Mod+...+Mod+Key`, at least one modifier and then a
//! key. The hotkey/input collaborator turns the registered shortcut into
//! three abstract events — down, up, cancel — that drive the session state
//! machine.

use vstd::prelude::*;
use vstd::string::*;

use crate::platform::Platform;
use crate::strutil::{split_char, split_char_spec, str_eq};

pub mod linux;
pub mod macos;
pub mod windows;

verus! {

/// The abstract keyboard events the hotkey collaborator emits.
#[derive(Debug, Clone, Copy, PartialEq, Eq, Structural)]
pub enum KeyboardEvent {
    /// Hotkey pressed down: start recording.
    HotkeyDown,
    /// Hotkey released: stop recording.
    HotkeyUp,
    /// ESC pressed: cancel recording.
    CancelPressed,
}

/// Why a shortcut was rejected or a hook could not be installed.
#[derive(Debug, Clone, Copy, PartialEq, Eq, Structural)]
pub enum HookError {
    /// The shortcut has no `+`-separated modifier before its key.
    InvalidFormat,
    /// A modifier is not in the platform's vocabulary.
    InvalidModifier,
    /// The shortcut's key part is empty.
    EmptyKey,
    /// The key is not one the platform tables can translate.
    UnsupportedKey,
    /// The display server offers no global hotkeys.
    DisplayServerUnsupported,
}

impl HookError {
    /// A short human-readable description of the failure.
    pub fn message(&self) -> (text: String)
        ensures
            text@ == self.message_spec(),
    {
        match self {
            HookError::InvalidFormat => String::from_str("invalid shortcut format"),
            HookError::InvalidModifier => String::from_str("invalid modifier for this platform"),
            HookError::EmptyKey => String::from_str("shortcut must have a key"),
            HookError::UnsupportedKey => String::from_str("unsupported key"),
            HookError::DisplayServerUnsupported => String::from_str(
                "global hotkeys are not supported on this display server",
            ),
        }
    }

    pub open spec fn message_spec(&self) -> Seq<char> {
        match self {
            HookError::InvalidFormat => "invalid shortcut format"@,
            HookError::InvalidModifier => "invalid modifier for this platform"@,
            HookError::EmptyKey => "shortcut must have a key"@,
            HookError::UnsupportedKey => "unsupported key"@,
            HookError::DisplayServerUnsupported => "global hotkeys are not supported on this display server"@,
        }
    }
}

/// The segments of a shortcut string: its modifiers followed by its key.
pub open spec fn shortcut_parts(shortcut: Seq<char>) -> Seq<Seq<char>> {
    split_char_spec(shortcut, '+')
}

/// The platform's modifier vocabulary: macOS accepts the Cmd/Option family,
/// Windows and Linux the Ctrl/Alt family.
pub open spec fn modifier_allowed(platform: Platform, modifier: Seq<char>) -> bool {
    if platform is MacOs {
        ||| modifier == "Cmd"@
        ||| modifier == "Command"@
        ||| modifier == "Option"@
        ||| modifier == "Alt"@
        ||| modifier == "Shift"@
        ||| modifier == "Ctrl"@
        ||| modifier == "Control"@
    } else {
        ||| modifier == "Ctrl"@
        ||| modifier == "Control"@
        ||| modifier == "Alt"@
        ||| modifier == "Shift"@
    }
}

/// A shortcut that the given platform accepts: at least one modifier, every
/// modifier in the platform's vocabulary, and a nonempty key.
pub open spec fn shortcut_valid(platform: Platform, shortcut: Seq<char>) -> bool {
    let parts = shortcut_parts(shortcut);
    &&& parts.len() >= 2
    &&& forall|i: int| 0 <= i < parts.len() - 1 ==> modifier_allowed(platform, #[trigger] parts[i])
    &&& parts.last().len() > 0
}

/// How validation rejects a shortcut, checked in order: too few parts,
/// then a modifier outside the platform's vocabulary, then an empty key.
/// `None` when the shortcut is valid.
pub open spec fn shortcut_error_spec(platform: Platform, shortcut: Seq<char>) -> Option<
    HookError,
> {
    let parts = shortcut_parts(shortcut);
    if parts.len() < 2 {
        Some(HookError::InvalidFormat)
    } else if exists|i: int|
        0 <= i < parts.len() - 1 && !modifier_allowed(platform, #[trigger] parts[i]) {
        Some(HookError::InvalidModifier)
    } else if parts.last().len() == 0 {
        Some(HookError::EmptyKey)
    } else {
        None
    }
}

/// The default shortcut of each platform.
pub open spec fn default_shortcut_spec(platform: Platform) -> Seq<char> {
    if platform is MacOs {
        "Cmd+Shift+Space"@
    } else {
        "Ctrl+Alt+S"@
    }
}

/// The platform's default push-to-talk shortcut: Cmd+Shift+Space on macOS,
/// Ctrl+Alt+S elsewhere.
pub fn get_default_shortcut(platform: Platform) -> (shortcut: &'static str)
    ensures
        shortcut@ == default_shortcut_spec(platform),
{
    if platform.is_mac_os() {
        "Cmd+Shift+Space"
    } else {
        "Ctrl+Alt+S"
    }
}

/// Split a shortcut into its modifiers and its key. Fails with
/// `InvalidFormat` exactly when the shortcut has fewer than two
/// `+`-separated parts; otherwise the key is the last part and the
/// modifiers are all the parts before it, in order.
pub fn parse_shortcut(shortcut: &str) -> (result: Result<(Vec<String>, String), HookError>)
    ensures
        result is Ok <==> shortcut_parts(shortcut@).len() >= 2,
        result matches Ok((modifiers, key)) ==> modifiers.deep_view() == shortcut_parts(
            shortcut@,
        ).drop_last() && key@ == shortcut_parts(shortcut@).last(),
        result is Err ==> result == Err::<(Vec<String>, String), HookError>(
            HookError::InvalidFormat,
        ),
{
    let mut parts = split_char(shortcut, '+');
    if parts.len() < 2 {
        return Err(HookError::InvalidFormat);
    }
    let key = match parts.pop() {
        Some(last) => last,
        None => {
            return Err(HookError::InvalidFormat);
        },
    };
    proof {
        let all = shortcut_parts(shortcut@);
        assert(parts.deep_view() =~= all.drop_last());
    }
    Ok((parts, key))
}

/// Check a shortcut against the platform's rules: it must parse, every
/// modifier must be in the platform's vocabulary, and the key must be
/// nonempty — each failure reported as its own error kind, in that order.
pub fn validate_shortcut(platform: Platform, shortcut: &str) -> (result: Result<(), HookError>)
    ensures
        result is Ok <==> shortcut_valid(platform, shortcut@),
        result == match shortcut_error_spec(platform, shortcut@) {
            Some(e) => Err::<(), HookError>(e),
            None => Ok::<(), HookError>(()),
        },
{
    let (modifiers, key) = match parse_shortcut(shortcut) {
        Ok(pair) => pair,
        Err(e) => {
            return Err(e);
        },
    };
    let ghost all = shortcut_parts(shortcut@);
    let mut i: usize = 0;
    while i < modifiers.len()
        invariant
            i <= modifiers.len(),
            all == shortcut_parts(shortcut@),
            modifiers.deep_view() == all.drop_last(),
            all.len() >= 2,
            forall|j: int| 0 <= j < i ==> modifier_allowed(platform, #[trigger] all[j]),
        decreases modifiers.len() - i,
    {
        let m = &modifiers[i];
        let allowed = if platform.is_mac_os() {
            str_eq(m.as_str(), "Cmd") || str_eq(m.as_str(), "Command") || str_eq(
                m.as_str(),
                "Option",
            ) || str_eq(m.as_str(), "Alt") || str_eq(m.as_str(), "Shift") || str_eq(
                m.as_str(),
                "Ctrl",
            ) || str_eq(m.as_str(), "Control")
        } else {
            str_eq(m.as_str(), "Ctrl") || str_eq(m.as_str(), "Control") || str_eq(
                m.as_str(),
                "Alt",
            ) || str_eq(m.as_str(), "Shift")
        };
        proof {
            let views = modifiers.deep_view();
            assert(views.len() == all.len() - 1);
            assert(m@ == views[i as int]);
            assert(all.drop_last() =~= all.subrange(0, all.len() - 1));
            assert(views[i as int] == all[i as int]);
        }
        if !allowed {
            proof {
                assert(!modifier_allowed(platform, all[i as int]));
                assert(exists|j: int|
                    0 <= j < all.len() - 1 && !modifier_allowed(platform, #[trigger] all[j]));
            }
            return Err(HookError::InvalidModifier);
        }
        i = i + 1;
    }
    proof {
        assert(i == modifiers@.len());
        assert(modifiers.deep_view().len() == modifiers@.len());
        assert(all.drop_last().len() == all.len() - 1);
        assert(forall|j: int|
            0 <= j < all.len() - 1 ==> modifier_allowed(platform, #[trigger] all[j]));
    }
    if key.as_str().is_empty() {
        return Err(HookError::EmptyKey);
    }
    Ok(())
}

} // verus!
