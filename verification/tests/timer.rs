use loop_timer::config::Config;
use loop_timer::timer::AppState;
use loop_timer::tray::TrayCommand;

fn state(countdown: u64) -> AppState {
    AppState::from_config(&Config::from_settings(
        Some(countdown),
        Some("rest".to_string()),
        Some("ok".to_string()),
    ))
}

#[test]
fn fresh_state_is_full_running_countdown() {
    let s = state(1200);
    assert_eq!(s.remaining_seconds, 1200);
    assert_eq!(s.config_countdown, 1200);
    assert!(!s.is_paused);
    assert!(!s.is_notifying);
    assert_eq!(s.notification_text, "rest");
    assert_eq!(s.confirm_text, "ok");
    assert_eq!(s.rest_remaining_seconds, 0);
}

#[test]
fn tick_counts_down_and_alarms_at_zero() {
    let mut s = state(3);
    assert!(s.tick().is_none());
    assert_eq!(s.remaining_seconds, 2);
    assert!(s.tick().is_none());
    assert_eq!(s.remaining_seconds, 1);
    let n = s.tick().expect("the third second raises the notification");
    assert_eq!(n.text, "rest");
    assert_eq!(n.confirm_text, "ok");
    assert_eq!(s.remaining_seconds, 0);
    assert!(s.is_notifying);
}

#[test]
fn notification_freezes_state() {
    let mut s = state(1);
    assert!(s.tick().is_some());
    assert!(s.tick().is_none());
    assert!(s.is_notifying);
    s.toggle_pause();
    assert!(!s.is_paused);
    s.restart();
    assert_eq!(s.remaining_seconds, 0);
    assert!(s.is_notifying);
}

#[test]
fn zero_countdown_alarms_on_first_tick() {
    let mut s = state(0);
    assert!(s.tick().is_some());
    assert!(s.is_notifying);
}

#[test]
fn paused_countdown_stands_still_with_tray() {
    let mut s = state(5);
    s.toggle_pause();
    assert!(s.is_paused);
    for _ in 0..10 {
        assert!(s.tick().is_none());
    }
    assert_eq!(s.remaining_seconds, 5);
    s.toggle_pause();
    assert!(!s.is_paused);
    assert!(s.tick().is_none());
    assert_eq!(s.remaining_seconds, 4);
}

#[test]
fn paused_at_zero_alarms_only_without_tray() {
    let mut s = state(0);
    s.toggle_pause();
    assert!(s.tick().is_none());
    assert!(!s.is_notifying);
    assert!(s.tick_without_tray().is_some());
    assert!(s.is_notifying);
}

#[test]
fn toggle_twice_restores_state() {
    let mut s = state(7);
    s.tick();
    s.toggle_pause();
    s.toggle_pause();
    assert!(!s.is_paused);
    assert_eq!(s.remaining_seconds, 6);
}

#[test]
fn restart_gives_full_running_countdown() {
    let mut s = state(10);
    s.tick();
    s.tick();
    s.toggle_pause();
    s.restart();
    assert_eq!(s.remaining_seconds, 10);
    assert!(!s.is_paused);
}

#[test]
fn confirm_starts_full_countdown() {
    let mut s = state(2);
    s.tick();
    assert!(s.tick().is_some());
    s.confirm();
    assert!(!s.is_notifying);
    assert_eq!(s.remaining_seconds, 2);
    assert!(s.tick().is_none());
    assert!(s.tick().is_some());
}

#[test]
fn reload_changed_length_restarts_running_countdown() {
    let mut s = state(100);
    s.tick();
    let cfg = Config::from_settings(Some(50), Some("new".to_string()), None);
    s.apply_config(&cfg);
    assert_eq!(s.config_countdown, 50);
    assert_eq!(s.remaining_seconds, 50);
    assert_eq!(s.notification_text, "new");
    assert_eq!(s.confirm_text, "我知道了 / Got it");
}

#[test]
fn reload_changed_length_keeps_paused_countdown() {
    let mut s = state(100);
    s.tick();
    s.toggle_pause();
    s.apply_config(&Config::from_settings(Some(50), None, None));
    assert_eq!(s.config_countdown, 50);
    assert_eq!(s.remaining_seconds, 99);
}

#[test]
fn reload_same_length_only_changes_texts() {
    let mut s = state(100);
    s.tick();
    s.apply_config(&Config::from_settings(Some(100), Some("x".to_string()), Some("y".to_string())));
    assert_eq!(s.remaining_seconds, 99);
    assert_eq!(s.notification_text, "x");
    assert_eq!(s.confirm_text, "y");
}

#[test]
fn reload_twice_same_as_once() {
    let mut a = state(100);
    let mut b = state(100);
    a.tick();
    b.tick();
    let cfg = Config::from_settings(Some(30), None, None);
    a.apply_config(&cfg);
    b.apply_config(&cfg);
    b.apply_config(&cfg);
    assert_eq!(a.remaining_seconds, b.remaining_seconds);
    assert_eq!(a.config_countdown, b.config_countdown);
}

#[test]
fn reload_while_notifying_keeps_zero() {
    let mut s = state(1);
    s.tick();
    s.apply_config(&Config::from_settings(Some(60), None, None));
    assert_eq!(s.remaining_seconds, 0);
    assert!(s.is_notifying);
    s.confirm();
    assert_eq!(s.remaining_seconds, 60);
}

#[test]
fn tray_commands() {
    let mut s = state(9);
    assert!(!s.handle_command(TrayCommand::TogglePause));
    assert!(s.is_paused);
    assert!(s.handle_command(TrayCommand::Exit));
    assert!(s.is_paused);
    assert_eq!(s.remaining_seconds, 9);
}

#[test]
fn unpaused_tick_same_with_and_without_tray() {
    let mut a = state(2);
    let mut b = state(2);
    for _ in 0..3 {
        assert_eq!(a.tick().is_some(), b.tick_without_tray().is_some());
        assert_eq!(a.remaining_seconds, b.remaining_seconds);
        assert_eq!(a.is_notifying, b.is_notifying);
    }
}
