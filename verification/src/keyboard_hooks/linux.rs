//! Linux hotkey bookkeeping: X11 modifier masks, keysyms, and the
//! registration state an X11 key grab would be driven from.
//!
//! Which display server is running is probed by the shell and handed in as
//! a value: X11 accepts a grab, Wayland's security model refuses global
//! hotkeys, and an unknown server refuses too.

use vstd::prelude::*;
use vstd::string::*;

use crate::keyboard_hooks::{shortcut_error_spec, HookError};
use crate::platform::Platform;
use crate::strutil::{lower_char_spec, str_eq, str_eq_ignore_ascii_case, eq_ignore_ascii_case_spec};

verus! {

/// The display servers a Linux desktop may run.
#[derive(Debug, Clone, Copy, PartialEq, Eq, Structural)]
pub enum DisplayServer {
    X11,
    Wayland,
    Unknown,
}

/// The X11 modifier mask bit of one modifier name: ControlMask, Mod1Mask,
/// ShiftMask; 0 for anything else.
pub open spec fn linux_modifier_flag(modifier: Seq<char>) -> u32 {
    if modifier == "Ctrl"@ || modifier == "Control"@ {
        0x0004u32
    } else if modifier == "Alt"@ {
        0x0008u32
    } else if modifier == "Shift"@ {
        0x0001u32
    } else {
        0u32
    }
}

/// The X11 modifier mask of a modifier list: the OR of each name's bit.
pub open spec fn linux_flags_spec(modifiers: Seq<Seq<char>>) -> u32
    decreases modifiers.len(),
{
    if modifiers.len() == 0 {
        0u32
    } else {
        linux_flags_spec(modifiers.drop_last()) | linux_modifier_flag(modifiers.last())
    }
}

/// The X11 keysym of a key name, compared without regard to ASCII case:
/// the named keys of the table, then any single ASCII letter as its
/// lowercase code point; `None` otherwise.
pub open spec fn linux_keysym_spec(key: Seq<char>) -> Option<u32> {
    if eq_ignore_ascii_case_spec(key, "space"@) {
        Some(0x0020u32)
    } else if eq_ignore_ascii_case_spec(key, "s"@) {
        Some(0x0073u32)
    } else if eq_ignore_ascii_case_spec(key, "escape"@) || eq_ignore_ascii_case_spec(
        key,
        "esc"@,
    ) {
        Some(0xFF1Bu32)
    } else if key.len() == 1 && 'a' <= lower_char_spec(key[0]) && lower_char_spec(key[0]) <= 'z' {
        Some(lower_char_spec(key[0]) as u32)
    } else {
        None
    }
}

/// Linux keyboard hook manager: remembers the registered shortcut and the
/// press state the key grab would toggle.
pub struct LinuxKeyboardHookManager {
    registered_shortcut: Option<String>,
    is_key_down: bool,
}

impl LinuxKeyboardHookManager {
    /// The shortcut currently registered, if any.
    pub closed spec fn registered_spec(&self) -> Option<Seq<char>> {
        match self.registered_shortcut {
            Some(ref s) => Some(s@),
            None => None,
        }
    }

    /// Whether the hotkey is currently held down.
    pub closed spec fn key_down_spec(&self) -> bool {
        self.is_key_down
    }

    /// A manager with nothing registered.
    pub fn new() -> (result: Result<Self, HookError>)
        ensures
            result matches Ok(manager) && manager.registered_spec() is None
                && !manager.key_down_spec(),
    {
        Ok(LinuxKeyboardHookManager { registered_shortcut: None, is_key_down: false })
    }

    /// Translate modifier names to an X11 modifier mask; names outside the
    /// vocabulary contribute nothing.
    pub fn parse_linux_modifiers(modifiers: &[String]) -> (flags: u32)
        ensures
            flags == linux_flags_spec(modifiers.deep_view()),
    {
        let mut flags: u32 = 0;
        let mut i: usize = 0;
        while i < modifiers.len()
            invariant
                i <= modifiers@.len(),
                flags == linux_flags_spec(modifiers.deep_view().subrange(0, i as int)),
            decreases modifiers@.len() - i,
        {
            let m = &modifiers[i];
            let bit: u32 = if str_eq(m.as_str(), "Ctrl") || str_eq(m.as_str(), "Control") {
                0x0004
            } else if str_eq(m.as_str(), "Alt") {
                0x0008
            } else if str_eq(m.as_str(), "Shift") {
                0x0001
            } else {
                0
            };
            proof {
                let views = modifiers.deep_view();
                let pre = views.subrange(0, i as int);
                let post = views.subrange(0, i + 1 as int);
                assert(post.drop_last() =~= pre);
                assert(post.last() == views[i as int]);
                assert(views[i as int] == modifiers@[i as int]@);
            }
            flags = flags | bit;
            i = i + 1;
        }
        proof {
            assert(modifiers.deep_view().subrange(0, modifiers@.len() as int) =~= modifiers
                .deep_view());
        }
        flags
    }

    /// The X11 keysym of a key name, regardless of ASCII case.
    pub fn get_keysym(key: &str) -> (keysym: Option<u32>)
        ensures
            keysym == linux_keysym_spec(key@),
    {
        if str_eq_ignore_ascii_case(key, "space") {
            Some(0x0020)
        } else if str_eq_ignore_ascii_case(key, "s") {
            Some(0x0073)
        } else if str_eq_ignore_ascii_case(key, "escape") || str_eq_ignore_ascii_case(
            key,
            "esc",
        ) {
            Some(0xFF1B)
        } else if key.unicode_len() == 1 {
            let code = key.get_char(0) as u32;
            let folded: u32 = if 65 <= code && code <= 90 {
                code + 32
            } else {
                code
            };
            if 97 <= folded && folded <= 122 {
                Some(folded)
            } else {
                None
            }
        } else {
            None
        }
    }

    /// Validate the shortcut against the Linux rules and install it for the
    /// given display server: X11 accepts and remembers it, Wayland and an
    /// unknown server refuse with `DisplayServerUnsupported`. On failure
    /// nothing changes.
    pub fn register_hotkey(&mut self, shortcut: &str, display_server: DisplayServer) -> (result:
        Result<(), HookError>)
        ensures
            result == match shortcut_error_spec(Platform::Linux, shortcut@) {
                Some(e) => Err::<(), HookError>(e),
                None => if display_server is X11 {
                    Ok::<(), HookError>(())
                } else {
                    Err::<(), HookError>(HookError::DisplayServerUnsupported)
                },
            },
            result is Ok ==> final(self).registered_spec() == Some(shortcut@)
                && final(self).key_down_spec() == old(self).key_down_spec(),
            result is Err ==> *final(self) == *old(self),
    {
        match crate::keyboard_hooks::parse_shortcut(shortcut) {
            Ok(pair) => pair,
            Err(e) => {
                return Err(e);
            },
        };
        match crate::keyboard_hooks::validate_shortcut(Platform::Linux, shortcut) {
            Ok(()) => (),
            Err(e) => {
                return Err(e);
            },
        }
        match display_server {
            DisplayServer::X11 => {
                self.registered_shortcut = Some(String::from_str(shortcut));
                Ok(())
            },
            DisplayServer::Wayland => Err(HookError::DisplayServerUnsupported),
            DisplayServer::Unknown => Err(HookError::DisplayServerUnsupported),
        }
    }

    /// Forget the registered shortcut and release the press state.
    pub fn unregister_hotkey(&mut self) -> (result: Result<(), HookError>)
        ensures
            result is Ok,
            final(self).registered_spec() is None,
            !final(self).key_down_spec(),
    {
        self.is_key_down = false;
        self.registered_shortcut = None;
        Ok(())
    }

    /// Whether a shortcut is currently registered.
    pub fn is_registered(&self) -> (registered: bool)
        ensures
            registered == (self.registered_spec() is Some),
    {
        self.registered_shortcut.is_some()
    }

    /// The currently registered shortcut, if any.
    pub fn current_shortcut(&self) -> (shortcut: Option<String>)
        ensures
            shortcut.deep_view() == self.registered_spec(),
    {
        match &self.registered_shortcut {
            Some(s) => Some(s.clone()),
            None => None,
        }
    }
}

} // verus!
