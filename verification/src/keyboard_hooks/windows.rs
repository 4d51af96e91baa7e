//! Windows hotkey bookkeeping: RegisterHotKey modifier masks and virtual
//! key codes, and the registration state the hotkey message loop would be
//! driven from.

use vstd::prelude::*;
use vstd::string::*;

use crate::strutil::{lower_char_spec, str_eq, str_eq_ignore_ascii_case, eq_ignore_ascii_case_spec};
use crate::keyboard_hooks::HookError;

verus! {

/// The RegisterHotKey modifier bit of one modifier name: MOD_CONTROL,
/// MOD_ALT, MOD_SHIFT; 0 for anything else.
pub open spec fn windows_modifier_flag(modifier: Seq<char>) -> u32 {
    if modifier == "Ctrl"@ || modifier == "Control"@ {
        0x0002u32
    } else if modifier == "Alt"@ {
        0x0001u32
    } else if modifier == "Shift"@ {
        0x0004u32
    } else {
        0u32
    }
}

/// The RegisterHotKey modifier mask of a modifier list.
pub open spec fn windows_flags_spec(modifiers: Seq<Seq<char>>) -> u32
    decreases modifiers.len(),
{
    if modifiers.len() == 0 {
        0u32
    } else {
        windows_flags_spec(modifiers.drop_last()) | windows_modifier_flag(modifiers.last())
    }
}

/// The Windows virtual key code of a key name, compared without regard to
/// ASCII case: the named keys of the table, then any single ASCII letter as
/// its uppercase code point (VK codes for letters are 'A'..'Z'); `None`
/// otherwise.
pub open spec fn windows_key_code_spec(key: Seq<char>) -> Option<u16> {
    if eq_ignore_ascii_case_spec(key, "space"@) {
        Some(0x20u16)
    } else if eq_ignore_ascii_case_spec(key, "s"@) {
        Some(0x53u16)
    } else if eq_ignore_ascii_case_spec(key, "escape"@) || eq_ignore_ascii_case_spec(
        key,
        "esc"@,
    ) {
        Some(0x1Bu16)
    } else if key.len() == 1 && 'a' <= lower_char_spec(key[0]) && lower_char_spec(key[0]) <= 'z' {
        Some((lower_char_spec(key[0]) as u16 - 32) as u16)
    } else {
        None
    }
}

/// Windows keyboard hook manager: remembers the registered shortcut, the
/// press state the message loop toggles, and the hotkey identifier handed
/// to RegisterHotKey.
pub struct WindowsKeyboardHookManager {
    registered_shortcut: Option<String>,
    is_key_down: bool,
    hotkey_id: Option<i32>,
}

impl WindowsKeyboardHookManager {
    /// The shortcut currently registered, if any.
    pub closed spec fn registered_spec(&self) -> Option<Seq<char>> {
        match self.registered_shortcut {
            Some(ref s) => Some(s@),
            None => None,
        }
    }

    /// Whether the hotkey is currently held down.
    pub closed spec fn key_down_spec(&self) -> bool {
        self.is_key_down
    }

    /// The identifier of the installed hotkey, if one is installed.
    pub closed spec fn hotkey_id_spec(&self) -> Option<i32> {
        self.hotkey_id
    }

    /// A manager with nothing registered.
    pub fn new() -> (result: Result<Self, HookError>)
        ensures
            result matches Ok(manager) && manager.registered_spec() is None
                && !manager.key_down_spec() && manager.hotkey_id_spec() is None,
    {
        Ok(
            WindowsKeyboardHookManager {
                registered_shortcut: None,
                is_key_down: false,
                hotkey_id: None,
            },
        )
    }

    /// Translate modifier names to a RegisterHotKey modifier mask; names
    /// outside the vocabulary contribute nothing.
    pub fn parse_windows_modifiers(modifiers: &[String]) -> (flags: u32)
        ensures
            flags == windows_flags_spec(modifiers.deep_view()),
    {
        let mut flags: u32 = 0;
        let mut i: usize = 0;
        while i < modifiers.len()
            invariant
                i <= modifiers@.len(),
                flags == windows_flags_spec(modifiers.deep_view().subrange(0, i as int)),
            decreases modifiers@.len() - i,
        {
            let m = &modifiers[i];
            let bit: u32 = if str_eq(m.as_str(), "Ctrl") || str_eq(m.as_str(), "Control") {
                0x0002
            } else if str_eq(m.as_str(), "Alt") {
                0x0001
            } else if str_eq(m.as_str(), "Shift") {
                0x0004
            } else {
                0
            };
            proof {
                let views = modifiers.deep_view();
                let pre = views.subrange(0, i as int);
                let post = views.subrange(0, i + 1 as int);
                assert(post.drop_last() =~= pre);
                assert(post.last() == views[i as int]);
                assert(views[i as int] == modifiers@[i as int]@);
            }
            flags = flags | bit;
            i = i + 1;
        }
        proof {
            assert(modifiers.deep_view().subrange(0, modifiers@.len() as int) =~= modifiers
                .deep_view());
        }
        flags
    }

    /// The Windows virtual key code of a key name, regardless of ASCII case.
    pub fn get_virtual_key_code(key: &str) -> (code: Option<u16>)
        ensures
            code == windows_key_code_spec(key@),
    {
        if str_eq_ignore_ascii_case(key, "space") {
            Some(0x20)
        } else if str_eq_ignore_ascii_case(key, "s") {
            Some(0x53)
        } else if str_eq_ignore_ascii_case(key, "escape") || str_eq_ignore_ascii_case(
            key,
            "esc",
        ) {
            Some(0x1B)
        } else if key.unicode_len() == 1 {
            let code = key.get_char(0) as u32;
            let folded: u32 = if 65 <= code && code <= 90 {
                code + 32
            } else {
                code
            };
            if 97 <= folded && folded <= 122 {
                Some((folded - 32) as u16)
            } else {
                None
            }
        } else {
            None
        }
    }

    /// Whether a shortcut is currently registered and installed.
    pub fn is_registered(&self) -> (registered: bool)
        ensures
            registered == (self.hotkey_id_spec() is Some && self.registered_spec() is Some),
    {
        self.hotkey_id.is_some() && self.registered_shortcut.is_some()
    }

    /// The currently registered shortcut, if any.
    pub fn current_shortcut(&self) -> (shortcut: Option<String>)
        ensures
            shortcut.deep_view() == self.registered_spec(),
    {
        match &self.registered_shortcut {
            Some(s) => Some(s.clone()),
            None => None,
        }
    }
}

} // verus!
