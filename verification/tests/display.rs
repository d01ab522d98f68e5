use loop_timer::clock::format_clock;
use loop_timer::config::Config;
use loop_timer::overlay::{overlay_size, rest_label};
use loop_timer::timer::AppState;
use loop_timer::tray::{
    exit_label, menu_status, pause_label, restart_label, tooltip_description, tray_icon_name,
    tray_id, tray_title,
};

#[test]
fn clock_format_values() {
    assert_eq!(format_clock(0), "00:00");
    assert_eq!(format_clock(9), "00:09");
    assert_eq!(format_clock(60), "01:00");
    assert_eq!(format_clock(1200), "20:00");
    assert_eq!(format_clock(1265), "21:05");
    assert_eq!(format_clock(5999), "99:59");
    assert_eq!(format_clock(6000), "100:00");
}

#[test]
fn clock_format_matches_std_format() {
    for secs in [0u64, 1, 59, 61, 599, 3600, 86399, 123456, u64::MAX] {
        assert_eq!(format_clock(secs), format!("{:02}:{:02}", secs / 60, secs % 60));
    }
}

#[test]
fn clock_text_reads_back() {
    for secs in [0u64, 7, 60, 1234, 987654] {
        let t = format_clock(secs);
        let (m, s) = t.split_at(t.len() - 3);
        assert_eq!(&s[..1], ":");
        let m: u64 = m.parse().unwrap();
        let s: u64 = s[1..].parse().unwrap();
        assert!(s < 60);
        assert_eq!(m * 60 + s, secs);
    }
}

fn state(countdown: u64) -> AppState {
    AppState::from_config(&Config::from_settings(Some(countdown), None, None))
}

#[test]
fn tooltip_lines() {
    let mut s = state(125);
    assert_eq!(tooltip_description(&s), "02:05");
    s.toggle_pause();
    assert_eq!(tooltip_description(&s), "Paused");
    let mut s = state(1);
    s.tick();
    assert_eq!(tooltip_description(&s), "Time's up!");
}

#[test]
fn menu_lines() {
    let mut s = state(125);
    assert_eq!(menu_status(&s), "\u{23F3} 02:05");
    assert_eq!(pause_label(&s), "\u{23F8}\u{FE0F} Pause");
    s.toggle_pause();
    assert_eq!(menu_status(&s), "\u{23F8}\u{FE0F} 02:05");
    assert_eq!(pause_label(&s), "\u{25B6}\u{FE0F} Resume");
    let mut s = state(1);
    s.tick();
    assert_eq!(menu_status(&s), "\u{23F0} Time's up!");
    assert_eq!(restart_label(), "\u{1F504} Restart");
    assert_eq!(exit_label(), "\u{274C} Exit");
    assert_eq!(tray_id(), "loop-timer");
    assert_eq!(tray_title(), "loop-timer");
    assert_eq!(tray_icon_name(), "empathy");
}

#[test]
fn overlay_size_covers_monitors() {
    assert_eq!(overlay_size(&vec![]), (1920, 1080));
    assert_eq!(overlay_size(&vec![(1280, 720)]), (1920, 1080));
    assert_eq!(overlay_size(&vec![(2560, 1080), (1920, 1200)]), (2560, 1200));
    assert_eq!(overlay_size(&vec![(3840, 2160), (1280, 1024)]), (3840, 2160));
}

#[test]
fn rest_countdown_label() {
    assert_eq!(rest_label(0), None);
    assert_eq!(rest_label(75), Some("01:15".to_string()));
}
