//! The settings of the timer: how long a countdown lasts and what the
//! notification says. A settings file may leave any of them out; what it
//! leaves out takes its default.
use vstd::prelude::*;

verus! {

/// Settings of the countdown itself.
#[derive(Debug)]
pub struct GeneralConfig {
    /// Length of one countdown, in seconds.
    pub countdown_seconds: u64,
}

/// Settings of the notification shown when a countdown ends.
#[derive(Debug)]
pub struct NotificationConfig {
    /// The text shown in the middle of the overlay.
    pub text: String,
    /// The label of the button that confirms the notification.
    pub confirm_text: String,
}

/// All settings, as a settings file holds them.
#[derive(Debug)]
pub struct Config {
    pub general: GeneralConfig,
    pub notification: NotificationConfig,
}

/// The countdown length used when none is configured: twenty minutes.
pub open spec fn spec_default_countdown() -> u64 {
    1200
}

/// The notification text used when none is configured.
pub open spec fn spec_default_notification_text() -> Seq<char> {
    "该休息一下眼睛了！"@
}

/// The confirm button label used when none is configured.
pub open spec fn spec_default_confirm_text() -> Seq<char> {
    "我知道了 / Got it"@
}

/// Seconds a countdown lasts when the settings do not say.
pub fn default_countdown() -> (r: u64)
    ensures
        r == spec_default_countdown(),
{
    1200
}

/// The notification text used when the settings do not give one.
pub fn default_notification_text() -> (r: String)
    ensures
        r@ == spec_default_notification_text(),
{
    String::from_str("该休息一下眼睛了！")
}

/// The confirm button label used when the settings do not give one.
pub fn default_confirm_text() -> (r: String)
    ensures
        r@ == spec_default_confirm_text(),
{
    String::from_str("我知道了 / Got it")
}

impl Default for GeneralConfig {
    fn default() -> (r: Self)
        ensures
            r.countdown_seconds == spec_default_countdown(),
    {
        GeneralConfig { countdown_seconds: default_countdown() }
    }
}

impl Default for NotificationConfig {
    fn default() -> (r: Self)
        ensures
            r.text@ == spec_default_notification_text(),
            r.confirm_text@ == spec_default_confirm_text(),
    {
        NotificationConfig { text: default_notification_text(), confirm_text: default_confirm_text() }
    }
}

impl Config {
    /// Whether these are the default settings.
    pub open spec fn is_default(&self) -> bool {
        &&& self.general.countdown_seconds == spec_default_countdown()
        &&& self.notification.text@ == spec_default_notification_text()
        &&& self.notification.confirm_text@ == spec_default_confirm_text()
    }

    /// Builds settings from the values a settings file gave, each missing one
    /// taking its default.
    pub fn from_settings(
        countdown_seconds: Option<u64>,
        text: Option<String>,
        confirm_text: Option<String>,
    ) -> (r: Config)
        ensures
            r.general.countdown_seconds == match countdown_seconds {
                Some(c) => c,
                None => spec_default_countdown(),
            },
            r.notification.text@ == match text {
                Some(s) => s@,
                None => spec_default_notification_text(),
            },
            r.notification.confirm_text@ == match confirm_text {
                Some(s) => s@,
                None => spec_default_confirm_text(),
            },
    {
        let countdown_seconds = match countdown_seconds {
            Some(c) => c,
            None => default_countdown(),
        };
        let text = match text {
            Some(s) => s,
            None => default_notification_text(),
        };
        let confirm_text = match confirm_text {
            Some(s) => s,
            None => default_confirm_text(),
        };
        Config {
            general: GeneralConfig { countdown_seconds },
            notification: NotificationConfig { text, confirm_text },
        }
    }

    /// The settings that apply after a settings file was read: what it held
    /// where it could be parsed, the defaults where it could not (or was not
    /// there at all).
    pub fn or_default(parsed: Option<Config>) -> (r: Config)
        ensures
            parsed is Some ==> r == parsed.unwrap(),
            parsed is None ==> r.is_default(),
    {
        match parsed {
            Some(cfg) => cfg,
            None => Config::default(),
        }
    }
}

impl Default for Config {
    fn default() -> (r: Self)
        ensures
            r.is_default(),
    {
        Config { general: GeneralConfig::default(), notification: NotificationConfig::default() }
    }
}

} // verus!
