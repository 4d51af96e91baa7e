//! Windows permission reporting. SendInput needs no special permission, so
//! accessibility is granted outright; the microphone is governed by the
//! Privacy settings and the system prompt, so it reports undetermined.

use vstd::prelude::*;
use vstd::string::*;

use crate::permissions::{PermissionResult, PermissionStatus};

verus! {

/// Windows needs no accessibility permission for input simulation.
pub fn check_accessibility_permission() -> (result: PermissionResult)
    ensures
        result.status == PermissionStatus::Granted,
        result.message is None,
{
    PermissionResult::granted()
}

/// Microphone access on Windows is controlled by the Privacy settings; the
/// system prompts when capture is first attempted.
pub fn check_microphone_permission() -> (result: PermissionResult)
    ensures
        result.status == PermissionStatus::NotDetermined,
        result.message is None,
{
    PermissionResult::not_determined()
}

/// No action is needed on Windows for basic input simulation.
pub fn request_accessibility_permission() -> (granted: bool)
    ensures
        granted,
{
    true
}

/// The accessibility remediation text shown to Windows users.
pub open spec fn accessibility_instructions_spec() -> Seq<char> {
    "On Windows, Vibe doesn't require special accessibility permissions.\n\nIf you're experiencing issues with dictation:\n\n1. Try running Vibe as administrator (right-click > Run as administrator)\n2. Check Windows Defender or antivirus isn't blocking Vibe\n3. Ensure no other applications are interfering with global hotkeys\n\nNote: Some antivirus software may flag keyboard simulation as suspicious behavior."@
}

/// Instructions shown when input simulation misbehaves on Windows.
pub fn get_accessibility_remediation_instructions() -> (instructions: String)
    ensures
        instructions@ == accessibility_instructions_spec(),
{
    String::from_str(
        "On Windows, Vibe doesn't require special accessibility permissions.\n\nIf you're experiencing issues with dictation:\n\n1. Try running Vibe as administrator (right-click > Run as administrator)\n2. Check Windows Defender or antivirus isn't blocking Vibe\n3. Ensure no other applications are interfering with global hotkeys\n\nNote: Some antivirus software may flag keyboard simulation as suspicious behavior.",
    )
}

/// The microphone remediation text shown to Windows users.
pub open spec fn microphone_instructions_spec() -> Seq<char> {
    "To enable dictation, Vibe needs microphone access:\n\nWindows 10/11:\n1. Open Settings (Win + I)\n2. Go to Privacy > Microphone\n3. Enable 'Allow apps to access your microphone'\n4. Scroll down and ensure Vibe is allowed\n5. If prompted, allow microphone access when you first use dictation\n\nThis permission allows Vibe to:\n- Record your voice for transcription\n- Show real-time audio levels"@
}

/// Instructions for enabling microphone access on Windows.
pub fn get_microphone_remediation_instructions() -> (instructions: String)
    ensures
        instructions@ == microphone_instructions_spec(),
{
    String::from_str(
        "To enable dictation, Vibe needs microphone access:\n\nWindows 10/11:\n1. Open Settings (Win + I)\n2. Go to Privacy > Microphone\n3. Enable 'Allow apps to access your microphone'\n4. Scroll down and ensure Vibe is allowed\n5. If prompted, allow microphone access when you first use dictation\n\nThis permission allows Vibe to:\n- Record your voice for transcription\n- Show real-time audio levels",
    )
}

} // verus!
