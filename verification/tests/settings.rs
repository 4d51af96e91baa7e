use dictation_core::platform::Platform;
use dictation_core::settings::DictationSettings;

#[test]
fn test_default_settings() {
    let settings = DictationSettings::default_for(Platform::MacOs);

    assert!(settings.enabled);
    assert!(settings.show_floating_widget);
    assert!(settings.audio_feedback_enabled);
    assert_eq!(settings.model_name, "small");
    assert_eq!(settings.keyboard_shortcut, "Cmd+Shift+Space");
    assert!(settings.microphone_device_id.is_none());

    let settings = DictationSettings::default_for(Platform::Linux);
    assert_eq!(settings.keyboard_shortcut, "Ctrl+Alt+S");
    assert_eq!(settings.model_name, "small");

    let settings = DictationSettings::default_for(Platform::Windows);
    assert_eq!(settings.keyboard_shortcut, "Ctrl+Alt+S");
}

#[test]
fn test_default_trait_matches_linux_defaults() {
    let settings = DictationSettings::default();
    assert!(settings.enabled);
    assert_eq!(settings.keyboard_shortcut, "Ctrl+Alt+S");
    assert_eq!(settings.model_name, "small");
}
