//! The application's settings and their defaults.
use vstd::prelude::*;

verus! {

/// All settings of the application.
#[derive(Debug, Clone)]
pub struct AppSettings {
    pub ui: UiSettings,
    pub update: UpdateSettings,
}

/// How the interface looks: a theme ("light", "dark" or "system") and a
/// language ("ja" or "en").
#[derive(Debug, Clone)]
pub struct UiSettings {
    pub theme: String,
    pub language: String,
}

/// When and where to look for updates.
#[derive(Debug, Clone)]
pub struct UpdateSettings {
    pub check_on_startup: bool,
    pub include_prerelease: bool,
}

/// Whether `s` are the default interface settings: the system's theme, in
/// Japanese.
pub open spec fn is_default_ui(s: UiSettings) -> bool {
    s.theme@ == "system"@ && s.language@ == "ja"@
}

/// Whether `s` are the default update settings: check on startup, releases
/// only.
pub open spec fn is_default_update(s: UpdateSettings) -> bool {
    s.check_on_startup && !s.include_prerelease
}

/// Whether `s` are the default settings.
pub open spec fn is_default_settings(s: AppSettings) -> bool {
    is_default_ui(s.ui) && is_default_update(s.update)
}

impl Default for UiSettings {
    fn default() -> (r: UiSettings)
        ensures
            is_default_ui(r),
    {
        UiSettings { theme: String::from_str("system"), language: String::from_str("ja") }
    }
}

impl Default for UpdateSettings {
    fn default() -> (r: UpdateSettings)
        ensures
            is_default_update(r),
    {
        UpdateSettings { check_on_startup: true, include_prerelease: false }
    }
}

impl Default for AppSettings {
    fn default() -> (r: AppSettings)
        ensures
            is_default_settings(r),
    {
        AppSettings { ui: UiSettings::default(), update: UpdateSettings::default() }
    }
}

/// The settings to use, from what reading the settings file gave: nothing
/// where there is no file, else the decoded settings or the decoder's error.
/// Anything but decoded settings falls back to the defaults.
pub fn settings_or_default(read: Option<Result<AppSettings, String>>) -> (r: AppSettings)
    ensures
        match read {
            Some(Ok(s)) => r == s,
            _ => is_default_settings(r),
        },
{
    match read {
        Some(Ok(s)) => s,
        _ => AppSettings::default(),
    }
}

} // verus!
