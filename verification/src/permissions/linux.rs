//! Linux permission reporting. Input access depends on group membership
//! and the display server, audio access on PulseAudio/PipeWire; neither is
//! a system permission this core can read, so both report undetermined and
//! the instructions tell the user what to configure.

use vstd::prelude::*;
use vstd::string::*;

use crate::permissions::{PermissionResult, PermissionStatus};

verus! {

/// Accessibility on Linux hinges on membership in the `input` group and on
/// display-server cooperation; it cannot be read programmatically.
pub fn check_accessibility_permission() -> (result: PermissionResult)
    ensures
        result.status == PermissionStatus::NotDetermined,
        result.message is None,
{
    PermissionResult::not_determined()
}

/// Microphone access on Linux is mediated by PulseAudio/PipeWire, with no
/// system permission dialog to consult.
pub fn check_microphone_permission() -> (result: PermissionResult)
    ensures
        result.status == PermissionStatus::NotDetermined,
        result.message is None,
{
    PermissionResult::not_determined()
}

/// Permissions cannot be granted programmatically on Linux; the user must
/// add themselves to the `input` group by hand.
pub fn request_accessibility_permission() -> (granted: bool)
    ensures
        !granted,
{
    false
}

/// The accessibility remediation text shown to Linux users.
pub open spec fn accessibility_instructions_spec() -> Seq<char> {
    "To enable dictation on Linux, you may need to configure permissions:\n\nFor X11:\n1. Ensure your user is in the 'input' group:\n   sudo usermod -a -G input $USER\n2. Log out and log back in for changes to take effect\n3. Verify with: groups | grep input\n\nFor Wayland:\n1. Wayland has limited support for global hotkeys\n2. Some compositors may require additional configuration\n3. Consider using X11 for full functionality\n\nIf you're still having issues:\n- Check that xdotool is installed: sudo apt install xdotool\n- Ensure no other application is capturing the same hotkey\n- Try running Vibe from a terminal to see error messages"@
}

/// Instructions for enabling input access on Linux.
pub fn get_accessibility_remediation_instructions() -> (instructions: String)
    ensures
        instructions@ == accessibility_instructions_spec(),
{
    String::from_str(
        "To enable dictation on Linux, you may need to configure permissions:\n\nFor X11:\n1. Ensure your user is in the 'input' group:\n   sudo usermod -a -G input $USER\n2. Log out and log back in for changes to take effect\n3. Verify with: groups | grep input\n\nFor Wayland:\n1. Wayland has limited support for global hotkeys\n2. Some compositors may require additional configuration\n3. Consider using X11 for full functionality\n\nIf you're still having issues:\n- Check that xdotool is installed: sudo apt install xdotool\n- Ensure no other application is capturing the same hotkey\n- Try running Vibe from a terminal to see error messages",
    )
}

/// The microphone remediation text shown to Linux users.
pub open spec fn microphone_instructions_spec() -> Seq<char> {
    "To enable microphone access on Linux:\n\nPulseAudio:\n1. Check audio devices: pactl list sources short\n2. Ensure your microphone is not muted: pavucontrol\n3. Verify your user has audio group access: groups | grep audio\n4. If needed: sudo usermod -a -G audio $USER\n\nPipeWire:\n1. Check audio devices: pw-cli ls Node\n2. Ensure PipeWire is running: systemctl --user status pipewire\n3. Check permissions with: pw-top\n\nGeneral troubleshooting:\n- Restart Vibe after changing groups\n- Check system audio settings\n- Test microphone with: arecord -d 5 test.wav"@
}

/// Instructions for enabling microphone access on Linux.
pub fn get_microphone_remediation_instructions() -> (instructions: String)
    ensures
        instructions@ == microphone_instructions_spec(),
{
    String::from_str(
        "To enable microphone access on Linux:\n\nPulseAudio:\n1. Check audio devices: pactl list sources short\n2. Ensure your microphone is not muted: pavucontrol\n3. Verify your user has audio group access: groups | grep audio\n4. If needed: sudo usermod -a -G audio $USER\n\nPipeWire:\n1. Check audio devices: pw-cli ls Node\n2. Ensure PipeWire is running: systemctl --user status pipewire\n3. Check permissions with: pw-top\n\nGeneral troubleshooting:\n- Restart Vibe after changing groups\n- Check system audio settings\n- Test microphone with: arecord -d 5 test.wav",
    )
}

} // verus!
