//! macOS permission reporting. Reading the real accessibility state takes
//! AXIsProcessTrusted and the microphone state a private API, both of which
//! live in the shell; this module reports what is known without them and
//! tells the user where to grant access.

use vstd::prelude::*;
use vstd::string::*;

use crate::permissions::{PermissionResult, PermissionStatus};

verus! {

/// Accessibility state on macOS is undetermined until the shell consults
/// AXIsProcessTrusted; the user is prompted to check by hand.
pub fn check_accessibility_permission() -> (result: PermissionResult)
    ensures
        result.status == PermissionStatus::NotDetermined,
        result.message is None,
{
    PermissionResult::not_determined()
}

/// Microphone permission on macOS is granted through the system prompt the
/// first time capture is attempted; until then it is undetermined.
pub fn check_microphone_permission() -> (result: PermissionResult)
    ensures
        result.status == PermissionStatus::NotDetermined,
        result.message is None,
{
    PermissionResult::not_determined()
}

/// macOS cannot be asked to grant accessibility programmatically; the user
/// must enable it in System Preferences.
pub fn request_accessibility_permission() -> (granted: bool)
    ensures
        !granted,
{
    false
}

/// The accessibility remediation text shown to macOS users.
pub open spec fn accessibility_instructions_spec() -> Seq<char> {
    "To enable dictation, Vibe needs accessibility permissions:\n\n1. Open System Preferences (or System Settings on macOS 13+)\n2. Go to Security & Privacy > Privacy > Accessibility\n3. Click the lock icon and enter your password\n4. Find 'Vibe' in the list and check the box next to it\n5. If Vibe is not in the list, click '+' and add it\n6. Restart Vibe\n\nThese permissions allow Vibe to:\n- Simulate keyboard input to paste text at your cursor\n- Register global keyboard shortcuts"@
}

/// Instructions for enabling accessibility on macOS.
pub fn get_accessibility_remediation_instructions() -> (instructions: String)
    ensures
        instructions@ == accessibility_instructions_spec(),
{
    String::from_str(
        "To enable dictation, Vibe needs accessibility permissions:\n\n1. Open System Preferences (or System Settings on macOS 13+)\n2. Go to Security & Privacy > Privacy > Accessibility\n3. Click the lock icon and enter your password\n4. Find 'Vibe' in the list and check the box next to it\n5. If Vibe is not in the list, click '+' and add it\n6. Restart Vibe\n\nThese permissions allow Vibe to:\n- Simulate keyboard input to paste text at your cursor\n- Register global keyboard shortcuts",
    )
}

/// The microphone remediation text shown to macOS users.
pub open spec fn microphone_instructions_spec() -> Seq<char> {
    "To enable dictation, Vibe needs microphone access:\n\n1. Open System Preferences (or System Settings on macOS 13+)\n2. Go to Security & Privacy > Privacy > Microphone\n3. Find 'Vibe' in the list and check the box next to it\n4. If prompted, allow microphone access when you first use dictation\n\nThis permission allows Vibe to:\n- Record your voice for transcription\n- Show real-time audio levels"@
}

/// Instructions for enabling microphone access on macOS.
pub fn get_microphone_remediation_instructions() -> (instructions: String)
    ensures
        instructions@ == microphone_instructions_spec(),
{
    String::from_str(
        "To enable dictation, Vibe needs microphone access:\n\n1. Open System Preferences (or System Settings on macOS 13+)\n2. Go to Security & Privacy > Privacy > Microphone\n3. Find 'Vibe' in the list and check the box next to it\n4. If prompted, allow microphone access when you first use dictation\n\nThis permission allows Vibe to:\n- Record your voice for transcription\n- Show real-time audio levels",
    )
}

} // verus!
