//! Permission reporting for the dictation feature: accessibility (text
//! injection, keyboard hooks) and microphone capture.
//!
//! Each platform module answers with a `PermissionResult` and a fixed block
//! of remediation instructions; the platform-independent functions dispatch
//! on an explicit `Platform` value.

use vstd::prelude::*;
use vstd::string::*;

use crate::platform::Platform;

pub mod linux;
pub mod macos;
pub mod windows;

verus! {

/// Status of one permission.
#[derive(Debug, Clone, Copy, PartialEq, Eq, Structural)]
pub enum PermissionStatus {
    /// Permission granted.
    Granted,
    /// Permission denied.
    Denied,
    /// Permission not determined yet.
    NotDetermined,
    /// Permission not applicable on this platform.
    NotApplicable,
}

/// Result of a permission check, with an optional message.
#[derive(Debug, Clone)]
pub struct PermissionResult {
    pub status: PermissionStatus,
    pub message: Option<String>,
}

impl PermissionResult {
    /// A granted permission, with no message.
    pub fn granted() -> (result: Self)
        ensures
            result.status == PermissionStatus::Granted,
            result.message is None,
    {
        PermissionResult { status: PermissionStatus::Granted, message: None }
    }

    /// A denied permission, carrying the reason.
    pub fn denied(message: &str) -> (result: Self)
        ensures
            result.status == PermissionStatus::Denied,
            result.message matches Some(m) && m@ == message@,
    {
        PermissionResult { status: PermissionStatus::Denied, message: Some(String::from_str(message)) }
    }

    /// A permission whose state cannot be read without asking the system.
    pub fn not_determined() -> (result: Self)
        ensures
            result.status == PermissionStatus::NotDetermined,
            result.message is None,
    {
        PermissionResult { status: PermissionStatus::NotDetermined, message: None }
    }

    /// A permission the platform does not track.
    pub fn not_applicable() -> (result: Self)
        ensures
            result.status == PermissionStatus::NotApplicable,
            result.message is None,
    {
        PermissionResult { status: PermissionStatus::NotApplicable, message: None }
    }
}

/// The accessibility status each platform reports without consulting the
/// system: Windows grants it outright, macOS and Linux cannot tell without
/// a system call and report it undetermined.
pub open spec fn accessibility_status_spec(platform: Platform) -> PermissionStatus {
    match platform {
        Platform::Windows => PermissionStatus::Granted,
        _ => PermissionStatus::NotDetermined,
    }
}

/// Check accessibility permission, as the given platform reports it.
/// Required for text pasting and keyboard hooks.
pub fn check_accessibility_permission(platform: Platform) -> (result: PermissionResult)
    ensures
        result.status == accessibility_status_spec(platform),
        result.message is None,
{
    match platform {
        Platform::MacOs => macos::check_accessibility_permission(),
        Platform::Windows => windows::check_accessibility_permission(),
        Platform::Linux => linux::check_accessibility_permission(),
    }
}

/// Check microphone permission, as the given platform reports it: every
/// platform defers to the system prompt and reports it undetermined.
/// Required for audio capture.
pub fn check_microphone_permission(platform: Platform) -> (result: PermissionResult)
    ensures
        result.status == PermissionStatus::NotDetermined,
        result.message is None,
{
    match platform {
        Platform::MacOs => macos::check_microphone_permission(),
        Platform::Windows => windows::check_microphone_permission(),
        Platform::Linux => linux::check_microphone_permission(),
    }
}

/// Request accessibility permission; true exactly on Windows, where no
/// grant is needed — elsewhere the user must grant it by hand.
pub fn request_accessibility_permission(platform: Platform) -> (granted: bool)
    ensures
        granted == (platform is Windows),
{
    match platform {
        Platform::MacOs => macos::request_accessibility_permission(),
        Platform::Windows => windows::request_accessibility_permission(),
        Platform::Linux => linux::request_accessibility_permission(),
    }
}

/// The given platform's remediation instructions for the accessibility
/// permission.
pub fn get_accessibility_remediation_instructions(platform: Platform) -> (instructions: String)
    ensures
        instructions@ == match platform {
            Platform::MacOs => macos::accessibility_instructions_spec(),
            Platform::Windows => windows::accessibility_instructions_spec(),
            Platform::Linux => linux::accessibility_instructions_spec(),
        },
{
    match platform {
        Platform::MacOs => macos::get_accessibility_remediation_instructions(),
        Platform::Windows => windows::get_accessibility_remediation_instructions(),
        Platform::Linux => linux::get_accessibility_remediation_instructions(),
    }
}

/// The given platform's remediation instructions for the microphone
/// permission.
pub fn get_microphone_remediation_instructions(platform: Platform) -> (instructions: String)
    ensures
        instructions@ == match platform {
            Platform::MacOs => macos::microphone_instructions_spec(),
            Platform::Windows => windows::microphone_instructions_spec(),
            Platform::Linux => linux::microphone_instructions_spec(),
        },
{
    match platform {
        Platform::MacOs => macos::get_microphone_remediation_instructions(),
        Platform::Windows => windows::get_microphone_remediation_instructions(),
        Platform::Linux => linux::get_microphone_remediation_instructions(),
    }
}

} // verus!
