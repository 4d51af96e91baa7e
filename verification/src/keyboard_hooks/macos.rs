//! macOS hotkey bookkeeping: Cocoa modifier masks, virtual key codes, and
//! the registration state a Cocoa event monitor would be driven from.
//!
//! Installing the actual event monitor is the shell's job; this manager
//! validates and remembers the configuration it would install.

use vstd::prelude::*;
use vstd::string::*;

use crate::keyboard_hooks::{shortcut_error_spec, shortcut_parts, HookError};
use crate::platform::Platform;
use crate::strutil::{eq_ignore_ascii_case_spec, str_eq, str_eq_ignore_ascii_case};

verus! {

/// The Cocoa modifier mask bit of one modifier name: NSCommandKeyMask,
/// NSShiftKeyMask, NSAlternateKeyMask, NSControlKeyMask; 0 for anything else.
pub open spec fn macos_modifier_flag(modifier: Seq<char>) -> u32 {
    if modifier == "Cmd"@ || modifier == "Command"@ {
        0x0008u32
    } else if modifier == "Shift"@ {
        0x0002u32
    } else if modifier == "Option"@ || modifier == "Alt"@ {
        0x0004u32
    } else if modifier == "Ctrl"@ || modifier == "Control"@ {
        0x0001u32
    } else {
        0u32
    }
}

/// The Cocoa modifier mask of a modifier list: the OR of each name's bit.
pub open spec fn macos_flags_spec(modifiers: Seq<Seq<char>>) -> u32
    decreases modifiers.len(),
{
    if modifiers.len() == 0 {
        0u32
    } else {
        macos_flags_spec(modifiers.drop_last()) | macos_modifier_flag(modifiers.last())
    }
}

/// The macOS virtual key code of a key name, compared without regard to
/// ASCII case; `None` for keys outside the table.
pub open spec fn macos_key_code_spec(key: Seq<char>) -> Option<u16> {
    if eq_ignore_ascii_case_spec(key, "space"@) {
        Some(49u16)
    } else if eq_ignore_ascii_case_spec(key, "s"@) {
        Some(1u16)
    } else if eq_ignore_ascii_case_spec(key, "a"@) {
        Some(0u16)
    } else if eq_ignore_ascii_case_spec(key, "d"@) {
        Some(2u16)
    } else if eq_ignore_ascii_case_spec(key, "f"@) {
        Some(3u16)
    } else if eq_ignore_ascii_case_spec(key, "escape"@) || eq_ignore_ascii_case_spec(
        key,
        "esc"@,
    ) {
        Some(53u16)
    } else {
        None
    }
}

/// Why registering a shortcut on macOS fails: the shortcut is invalid, or
/// its key has no entry in the key code table.
pub open spec fn macos_register_error(shortcut: Seq<char>) -> Option<HookError> {
    match shortcut_error_spec(Platform::MacOs, shortcut) {
        Some(e) => Some(e),
        None => if macos_key_code_spec(shortcut_parts(shortcut).last()) is None {
            Some(HookError::UnsupportedKey)
        } else {
            None
        },
    }
}

/// macOS keyboard hook manager: remembers the registered shortcut and the
/// press state the event monitor toggles.
pub struct MacOSKeyboardHookManager {
    registered_shortcut: Option<String>,
    is_key_down: bool,
}

impl MacOSKeyboardHookManager {
    /// The shortcut currently registered, if any.
    pub closed spec fn registered_spec(&self) -> Option<Seq<char>> {
        match self.registered_shortcut {
            Some(ref s) => Some(s@),
            None => None,
        }
    }

    /// Whether the hotkey is currently held down.
    pub closed spec fn key_down_spec(&self) -> bool {
        self.is_key_down
    }

    /// A manager with nothing registered.
    pub fn new() -> (result: Result<Self, HookError>)
        ensures
            result matches Ok(manager) && manager.registered_spec() is None
                && !manager.key_down_spec(),
    {
        Ok(MacOSKeyboardHookManager { registered_shortcut: None, is_key_down: false })
    }

    /// Translate modifier names to a Cocoa modifier mask; names outside the
    /// vocabulary contribute nothing.
    pub fn parse_macos_modifiers(modifiers: &[String]) -> (flags: u32)
        ensures
            flags == macos_flags_spec(modifiers.deep_view()),
    {
        let mut flags: u32 = 0;
        let mut i: usize = 0;
        while i < modifiers.len()
            invariant
                i <= modifiers@.len(),
                flags == macos_flags_spec(modifiers.deep_view().subrange(0, i as int)),
            decreases modifiers@.len() - i,
        {
            let m = &modifiers[i];
            let bit: u32 = if str_eq(m.as_str(), "Cmd") || str_eq(m.as_str(), "Command") {
                0x0008
            } else if str_eq(m.as_str(), "Shift") {
                0x0002
            } else if str_eq(m.as_str(), "Option") || str_eq(m.as_str(), "Alt") {
                0x0004
            } else if str_eq(m.as_str(), "Ctrl") || str_eq(m.as_str(), "Control") {
                0x0001
            } else {
                0
            };
            proof {
                let views = modifiers.deep_view();
                let pre = views.subrange(0, i as int);
                let post = views.subrange(0, i + 1 as int);
                assert(post.drop_last() =~= pre);
                assert(post.last() == views[i as int]);
                assert(views[i as int] == modifiers@[i as int]@);
            }
            flags = flags | bit;
            i = i + 1;
        }
        proof {
            assert(modifiers.deep_view().subrange(0, modifiers@.len() as int) =~= modifiers
                .deep_view());
        }
        flags
    }

    /// The macOS virtual key code of a key name, regardless of ASCII case.
    pub fn get_key_code(key: &str) -> (code: Option<u16>)
        ensures
            code == macos_key_code_spec(key@),
    {
        if str_eq_ignore_ascii_case(key, "space") {
            Some(49)
        } else if str_eq_ignore_ascii_case(key, "s") {
            Some(1)
        } else if str_eq_ignore_ascii_case(key, "a") {
            Some(0)
        } else if str_eq_ignore_ascii_case(key, "d") {
            Some(2)
        } else if str_eq_ignore_ascii_case(key, "f") {
            Some(3)
        } else if str_eq_ignore_ascii_case(key, "escape") || str_eq_ignore_ascii_case(
            key,
            "esc",
        ) {
            Some(53)
        } else {
            None
        }
    }

    /// Validate the shortcut against the macOS rules and its key against the
    /// key code table, and remember it as the registered configuration.
    /// Succeeds exactly on valid shortcuts with a translatable key; on
    /// failure nothing changes.
    pub fn register_hotkey(&mut self, shortcut: &str) -> (result: Result<(), HookError>)
        ensures
            result == match macos_register_error(shortcut@) {
                Some(e) => Err::<(), HookError>(e),
                None => Ok::<(), HookError>(()),
            },
            result is Ok ==> final(self).registered_spec() == Some(shortcut@)
                && final(self).key_down_spec() == old(self).key_down_spec(),
            result is Err ==> *final(self) == *old(self),
    {
        let parsed = match crate::keyboard_hooks::parse_shortcut(shortcut) {
            Ok(pair) => pair,
            Err(e) => {
                return Err(e);
            },
        };
        match crate::keyboard_hooks::validate_shortcut(Platform::MacOs, shortcut) {
            Ok(()) => (),
            Err(e) => {
                return Err(e);
            },
        }
        let (_modifier_flags, key) = (Self::parse_macos_modifiers(parsed.0.as_slice()), parsed.1);
        if Self::get_key_code(key.as_str()).is_none() {
            return Err(HookError::UnsupportedKey);
        }
        self.registered_shortcut = Some(String::from_str(shortcut));
        Ok(())
    }

    /// Forget the registered shortcut and release the press state.
    pub fn unregister_hotkey(&mut self) -> (result: Result<(), HookError>)
        ensures
            result is Ok,
            final(self).registered_spec() is None,
            !final(self).key_down_spec(),
    {
        self.is_key_down = false;
        self.registered_shortcut = None;
        Ok(())
    }

    /// Whether a shortcut is currently registered.
    pub fn is_registered(&self) -> (registered: bool)
        ensures
            registered == (self.registered_spec() is Some),
    {
        self.registered_shortcut.is_some()
    }

    /// The currently registered shortcut, if any.
    pub fn current_shortcut(&self) -> (shortcut: Option<String>)
        ensures
            shortcut.deep_view() == self.registered_spec(),
    {
        match &self.registered_shortcut {
            Some(s) => Some(s.clone()),
            None => None,
        }
    }
}

} // verus!
