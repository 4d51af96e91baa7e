//! Paste results, the empty-text rule, and the platform managers' pure
//! answers.

use dictation_core::text_input::{
    empty_paste_rejection, parse_wmctrl_active_window, LinuxTextInputManager,
    MacOSTextInputManager, PasteResponse, PasteResult, WindowsTextInputManager,
};

#[test]
fn test_paste_result_success() {
    let result = PasteResult {
        success: true,
        destination_app: Some("TextEdit".to_string()),
        error: None,
    };
    assert!(result.success);
    assert_eq!(result.destination_app, Some("TextEdit".to_string()));
    assert!(result.error.is_none());
}

#[test]
fn test_paste_result_failure() {
    let result = PasteResult {
        success: false,
        destination_app: None,
        error: Some("Cursor not in text field".to_string()),
    };
    assert!(!result.success);
    assert!(result.destination_app.is_none());
    assert_eq!(result.error, Some("Cursor not in text field".to_string()));
}

#[test]
fn test_paste_response_carries_fields_over() {
    let result = PasteResult {
        success: true,
        destination_app: Some("TextEdit".to_string()),
        error: None,
    };
    let response = PasteResponse::from(result);
    assert!(response.success);
    assert_eq!(response.destination_app, Some("TextEdit".to_string()));
    assert!(response.error.is_none());
}

#[test]
fn test_empty_paste_rejection() {
    // Empty text is rejected before any platform call...
    let rejection = empty_paste_rejection("").expect("empty text must be rejected");
    assert!(!rejection.success);
    assert!(rejection.destination_app.is_none());
    assert_eq!(rejection.error, Some("Empty text".to_string()));

    // ...and nonempty text passes through to the injector.
    assert!(empty_paste_rejection("hello").is_none());
}

#[test]
fn macos_test_create_manager() {
    let manager = MacOSTextInputManager::new();
    assert!(manager.is_ok());
}

#[test]
fn macos_test_get_active_app() {
    let manager = MacOSTextInputManager::new().unwrap();
    let app_name = manager.get_active_app_name().unwrap();
    // Currently returns None
    assert_eq!(app_name, None);
}

#[test]
fn macos_test_can_paste() {
    let manager = MacOSTextInputManager::new().unwrap();
    let can_paste = manager.can_paste_text().unwrap();
    // Should always return true on macOS
    assert!(can_paste);
}

#[test]
fn linux_test_create_manager() {
    let manager = LinuxTextInputManager::new(false);
    assert!(manager.is_ok());
}

#[test]
fn linux_test_can_paste() {
    // On Linux, pasting is possible exactly when xdotool was found.
    let with_tool = LinuxTextInputManager::new(true).unwrap();
    assert!(with_tool.can_paste_text().unwrap());

    let without_tool = LinuxTextInputManager::new(false).unwrap();
    assert!(!without_tool.can_paste_text().unwrap());
}

#[test]
fn windows_test_create_manager() {
    let manager = WindowsTextInputManager::new();
    assert!(manager.is_ok());
}

#[test]
fn test_parse_wmctrl_active_window() {
    // The first line's fifth field is the window name.
    let output = "0x04000007 0 1234 host Text Editor\n0x04000008 0 5678 host Other";
    assert_eq!(
        parse_wmctrl_active_window(output),
        Some("Text Editor".to_string())
    );

    // Too few fields on the first line: no name.
    assert_eq!(parse_wmctrl_active_window("0x04 0 12 host\n"), None);
    assert_eq!(parse_wmctrl_active_window(""), None);
}
