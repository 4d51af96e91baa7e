//! The dictation feature's settings and their defaults.
//!
//! Loading and saving these to disk is the shell's job; this module owns
//! the settings values themselves and the platform-dependent defaults.

use vstd::prelude::*;
use vstd::string::*;

use crate::keyboard_hooks::{default_shortcut_spec, get_default_shortcut};
use crate::platform::Platform;

verus! {

/// User-facing configuration of the dictation feature.
#[derive(Debug, Clone)]
pub struct DictationSettings {
    /// Whether dictation is enabled at all.
    pub enabled: bool,
    /// The push-to-talk shortcut, in `Mod+...+Key` form.
    pub keyboard_shortcut: String,
    /// The chosen capture device, or `None` for the system default.
    pub microphone_device_id: Option<String>,
    /// The transcription model to load.
    pub model_name: String,
    /// Whether to show the floating level widget while recording.
    pub show_floating_widget: bool,
    /// Whether to play the start/stop feedback beeps.
    pub audio_feedback_enabled: bool,
}

impl DictationSettings {
    /// The defaults on the given platform: dictation enabled, the
    /// platform's default shortcut, the system default microphone, the
    /// "small" model, and both feedback channels on.
    pub fn default_for(platform: Platform) -> (settings: DictationSettings)
        ensures
            settings.enabled,
            settings.keyboard_shortcut@ == default_shortcut_spec(platform),
            settings.microphone_device_id is None,
            settings.model_name@ == "small"@,
            settings.show_floating_widget,
            settings.audio_feedback_enabled,
    {
        DictationSettings {
            enabled: true,
            keyboard_shortcut: String::from_str(get_default_shortcut(platform)),
            microphone_device_id: None,
            model_name: String::from_str("small"),
            show_floating_widget: true,
            audio_feedback_enabled: true,
        }
    }
}

impl Default for DictationSettings {
    /// The Linux defaults; the shell asks `default_for` with the platform
    /// it actually runs on.
    fn default() -> (settings: Self)
        ensures
            settings.enabled,
            settings.keyboard_shortcut@ == default_shortcut_spec(Platform::Linux),
            settings.microphone_device_id is None,
            settings.model_name@ == "small"@,
            settings.show_floating_widget,
            settings.audio_feedback_enabled,
    {
        DictationSettings::default_for(Platform::Linux)
    }
}

} // verus!
