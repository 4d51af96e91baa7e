//! Text injection decisions: the paste result type, the rule that an empty
//! transcript is never injected, and the pure answers each platform's input
//! manager can give without touching the OS.
//!
//! The injection itself — CGEvent typing on macOS, SendInput on Windows,
//! xdotool on Linux — is platform I/O and lives in the shell; the shell
//! asks this module first and injects only what it allows.

use vstd::prelude::*;
use vstd::string::*;

use crate::errors::DictationError;
use crate::strutil::find_char;
use crate::strutil::find_from;

verus! {

/// Result of a text pasting operation.
#[derive(Debug, Clone, PartialEq)]
pub struct PasteResult {
    /// Whether the paste was carried out.
    pub success: bool,
    /// Name of the destination application, when it could be detected.
    pub destination_app: Option<String>,
    /// Why the paste failed, when it did.
    pub error: Option<String>,
}

/// The paste result reported to the frontend.
#[derive(Debug, Clone)]
pub struct PasteResponse {
    pub success: bool,
    pub destination_app: Option<String>,
    pub error: Option<String>,
}

impl From<PasteResult> for PasteResponse {
    /// Carry a paste result over field for field.
    fn from(result: PasteResult) -> (response: Self)
    {
        PasteResponse {
            success: result.success,
            destination_app: result.destination_app,
            error: result.error,
        }
    }
}

impl vstd::std_specs::convert::FromSpecImpl<PasteResult> for PasteResponse {
    open spec fn obeys_from_spec() -> bool {
        true
    }

    open spec fn from_spec(result: PasteResult) -> Self {
        PasteResponse {
            success: result.success,
            destination_app: result.destination_app,
            error: result.error,
        }
    }
}

/// The rule that protects the clipboard path from empty transcripts: an
/// empty text is rejected before any platform call, as a failed paste that
/// names no destination. Nonempty text passes and is handed to the
/// platform's injector.
pub fn empty_paste_rejection(text: &str) -> (rejection: Option<PasteResult>)
    ensures
        rejection is Some <==> text@.len() == 0,
        rejection matches Some(r) ==> !r.success && r.destination_app is None && (
        r.error matches Some(e) && e@ == "Empty text"@),
{
    if text.is_empty() {
        Some(
            PasteResult {
                success: false,
                destination_app: None,
                error: Some(String::from_str("Empty text")),
            },
        )
    } else {
        None
    }
}

/// The active window name in `wmctrl -l -p` output: on its first line, the
/// fifth space-separated field (everything after the fourth space), if that
/// line has at least five fields.
pub open spec fn wmctrl_active_window_spec(output: Seq<char>) -> Option<Seq<char>> {
    let line = output.subrange(0, find_from(output, '\n', 0));
    let p1 = find_from(line, ' ', 0);
    let p2 = find_from(line, ' ', p1 + 1);
    let p3 = find_from(line, ' ', p2 + 1);
    let p4 = find_from(line, ' ', p3 + 1);
    if p4 < line.len() {
        Some(line.subrange(p4 + 1, line.len() as int))
    } else {
        None
    }
}

/// Pick the active window's name out of `wmctrl -l -p` output: the first
/// line's fifth field, or `None` when the line has fewer fields.
pub fn parse_wmctrl_active_window(output: &str) -> (window: Option<String>)
    ensures
        window.deep_view() == wmctrl_active_window_spec(output@),
{
    let line_end = find_char(output, '\n', 0);
    let line = output.substring_char(0, line_end);
    let n = line.unicode_len();
    let p1 = find_char(line, ' ', 0);
    if p1 >= n {
        return None;
    }
    let p2 = find_char(line, ' ', p1 + 1);
    if p2 >= n {
        return None;
    }
    let p3 = find_char(line, ' ', p2 + 1);
    if p3 >= n {
        return None;
    }
    let p4 = find_char(line, ' ', p3 + 1);
    if p4 >= n {
        return None;
    }
    Some(String::from_str(line.substring_char(p4 + 1, n)))
}

/// macOS text input manager. The CGEvent injector the shell drives keeps
/// the clipboard untouched; without consulting the OS this manager knows
/// that injection is always worth attempting and that the active
/// application is not detected.
pub struct MacOSTextInputManager {}

impl MacOSTextInputManager {
    pub fn new() -> (result: Result<Self, DictationError>)
        ensures
            result is Ok,
    {
        Ok(MacOSTextInputManager {  })
    }

    /// Active-application detection is not wired on macOS.
    pub fn get_active_app_name(&self) -> (result: Result<Option<String>, DictationError>)
        ensures
            result matches Ok(app) && app is None,
    {
        Ok(None)
    }

    /// Injection is always attempted on macOS; a missing text field fails
    /// gracefully at injection time.
    pub fn can_paste_text(&self) -> (result: Result<bool, DictationError>)
        ensures
            result == Ok::<bool, DictationError>(true),
    {
        Ok(true)
    }
}

/// Linux text input manager: everything it can decide hinges on whether
/// xdotool was found, which the shell probes once and hands in.
pub struct LinuxTextInputManager {
    use_xdotool: bool,
}

impl LinuxTextInputManager {
    /// Whether the xdotool injector was found at startup.
    pub closed spec fn xdotool_available(&self) -> bool {
        self.use_xdotool
    }

    pub fn new(has_xdotool: bool) -> (result: Result<Self, DictationError>)
        ensures
            result matches Ok(manager) && manager.xdotool_available() == has_xdotool,
    {
        Ok(LinuxTextInputManager { use_xdotool: has_xdotool })
    }

    /// Text can be pasted on Linux exactly when xdotool is available.
    pub fn can_paste_text(&self) -> (result: Result<bool, DictationError>)
        ensures
            result == Ok::<bool, DictationError>(self.xdotool_available()),
    {
        Ok(self.use_xdotool)
    }
}

/// Windows text input manager; its answers all come from live Win32 calls,
/// so beyond construction everything lives in the shell.
pub struct WindowsTextInputManager {}

impl WindowsTextInputManager {
    pub fn new() -> (result: Result<Self, DictationError>)
        ensures
            result is Ok,
    {
        Ok(WindowsTextInputManager {  })
    }
}

} // verus!
