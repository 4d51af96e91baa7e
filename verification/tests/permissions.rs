//! Permission checks and remediation instructions on every platform.

use dictation_core::permissions::{
    check_accessibility_permission, check_microphone_permission,
    get_accessibility_remediation_instructions, get_microphone_remediation_instructions,
    linux, macos, request_accessibility_permission, windows, PermissionResult, PermissionStatus,
};
use dictation_core::platform::Platform;

#[test]
fn test_permission_result_granted() {
    let result = PermissionResult::granted();
    assert_eq!(result.status, PermissionStatus::Granted);
    assert!(result.message.is_none());
}

#[test]
fn test_permission_result_denied() {
    let result = PermissionResult::denied("Access denied");
    assert_eq!(result.status, PermissionStatus::Denied);
    assert_eq!(result.message, Some("Access denied".to_string()));
}

#[test]
fn test_check_accessibility_permission() {
    for platform in [Platform::MacOs, Platform::Windows, Platform::Linux] {
        let result = check_accessibility_permission(platform);
        // Should return a valid status
        assert!(matches!(
            result.status,
            PermissionStatus::Granted
                | PermissionStatus::Denied
                | PermissionStatus::NotDetermined
                | PermissionStatus::NotApplicable
        ));
    }
}

#[test]
fn test_check_microphone_permission() {
    for platform in [Platform::MacOs, Platform::Windows, Platform::Linux] {
        let result = check_microphone_permission(platform);
        // Should return a valid status
        assert!(matches!(
            result.status,
            PermissionStatus::Granted
                | PermissionStatus::Denied
                | PermissionStatus::NotDetermined
                | PermissionStatus::NotApplicable
        ));
    }
}

#[test]
fn test_get_remediation_instructions() {
    for platform in [Platform::MacOs, Platform::Windows, Platform::Linux] {
        let accessibility_instructions = get_accessibility_remediation_instructions(platform);
        let microphone_instructions = get_microphone_remediation_instructions(platform);

        // Instructions should not be empty
        assert!(!accessibility_instructions.is_empty());
        assert!(!microphone_instructions.is_empty());
    }
}

#[test]
fn test_request_accessibility_permission() {
    // Only Windows grants without user action.
    assert!(request_accessibility_permission(Platform::Windows));
    assert!(!request_accessibility_permission(Platform::MacOs));
    assert!(!request_accessibility_permission(Platform::Linux));
}

#[test]
fn test_check_accessibility_permission_linux() {
    let result = linux::check_accessibility_permission();
    // Should return NotDetermined since it's complex to check
    assert_eq!(result.status, PermissionStatus::NotDetermined);
}

#[test]
fn test_check_microphone_permission_linux() {
    let result = linux::check_microphone_permission();
    assert_eq!(result.status, PermissionStatus::NotDetermined);
}

#[test]
fn linux_test_accessibility_instructions_not_empty() {
    let instructions = linux::get_accessibility_remediation_instructions();
    assert!(!instructions.is_empty());
    assert!(instructions.contains("input"));
    assert!(instructions.contains("group"));
}

#[test]
fn linux_test_microphone_instructions_not_empty() {
    let instructions = linux::get_microphone_remediation_instructions();
    assert!(!instructions.is_empty());
    assert!(instructions.contains("PulseAudio") || instructions.contains("PipeWire"));
}

#[test]
fn test_check_accessibility_permission_macos() {
    let result = macos::check_accessibility_permission();
    // Should return a valid status
    assert!(matches!(
        result.status,
        PermissionStatus::Granted | PermissionStatus::Denied | PermissionStatus::NotDetermined
    ));
}

#[test]
fn test_check_microphone_permission_macos() {
    let result = macos::check_microphone_permission();
    assert!(matches!(
        result.status,
        PermissionStatus::Granted | PermissionStatus::Denied | PermissionStatus::NotDetermined
    ));
}

#[test]
fn macos_test_accessibility_instructions_not_empty() {
    let instructions = macos::get_accessibility_remediation_instructions();
    assert!(!instructions.is_empty());
    assert!(instructions.contains("System Preferences"));
    assert!(instructions.contains("Accessibility"));
}

#[test]
fn macos_test_microphone_instructions_not_empty() {
    let instructions = macos::get_microphone_remediation_instructions();
    assert!(!instructions.is_empty());
    assert!(instructions.contains("Microphone"));
}

#[test]
fn test_check_accessibility_permission_windows() {
    let result = windows::check_accessibility_permission();
    // Windows should grant accessibility by default
    assert_eq!(result.status, PermissionStatus::Granted);
}

#[test]
fn test_check_microphone_permission_windows() {
    let result = windows::check_microphone_permission();
    // Should return NotDetermined since system handles it
    assert_eq!(result.status, PermissionStatus::NotDetermined);
}

#[test]
fn windows_test_accessibility_instructions_not_empty() {
    let instructions = windows::get_accessibility_remediation_instructions();
    assert!(!instructions.is_empty());
    assert!(instructions.contains("Windows"));
}

#[test]
fn windows_test_microphone_instructions_not_empty() {
    let instructions = windows::get_microphone_remediation_instructions();
    assert!(!instructions.is_empty());
    assert!(instructions.contains("Settings"));
    assert!(instructions.contains("Microphone"));
}
