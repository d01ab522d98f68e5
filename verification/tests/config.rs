use loop_timer::config::{
    default_confirm_text, default_countdown, default_notification_text, Config, GeneralConfig,
    NotificationConfig,
};

#[test]
fn defaults() {
    assert_eq!(default_countdown(), 1200);
    assert_eq!(default_notification_text(), "该休息一下眼睛了！");
    assert_eq!(default_confirm_text(), "我知道了 / Got it");
    let c = Config::default();
    assert_eq!(c.general.countdown_seconds, 1200);
    assert_eq!(c.notification.text, "该休息一下眼睛了！");
    assert_eq!(c.notification.confirm_text, "我知道了 / Got it");
    assert_eq!(GeneralConfig::default().countdown_seconds, 1200);
    assert_eq!(NotificationConfig::default().text, "该休息一下眼睛了！");
}

#[test]
fn missing_settings_take_defaults() {
    let c = Config::from_settings(None, Some("hi".to_string()), None);
    assert_eq!(c.general.countdown_seconds, 1200);
    assert_eq!(c.notification.text, "hi");
    assert_eq!(c.notification.confirm_text, "我知道了 / Got it");
    let c = Config::from_settings(Some(5), None, Some("done".to_string()));
    assert_eq!(c.general.countdown_seconds, 5);
    assert_eq!(c.notification.text, "该休息一下眼睛了！");
    assert_eq!(c.notification.confirm_text, "done");
}

#[test]
fn unreadable_settings_fall_back_to_defaults() {
    let c = Config::or_default(None);
    assert_eq!(c.general.countdown_seconds, 1200);
    let c = Config::or_default(Some(Config::from_settings(Some(42), None, None)));
    assert_eq!(c.general.countdown_seconds, 42);
}
