//! What the tray icon shows and the commands it sends.
use vstd::prelude::*;

use crate::clock::{clock_text, format_clock};
use crate::timer::{AppState, TimerView};

verus! {

/// A command from the tray to the main loop.
#[derive(Debug, Clone, Copy, PartialEq, Eq, Structural)]
pub enum TrayCommand {
    /// Pause a running countdown, or resume a paused one.
    TogglePause,
    /// Quit the program.
    Exit,
}


/// The tray's tooltip line: the notification, the pause, or the time left.
pub open spec fn tooltip_text(v: TimerView) -> Seq<char> {
    if v.notifying {
        "Time's up!"@
    } else if v.paused {
        "Paused"@
    } else {
        clock_text(v.remaining as nat)
    }
}

/// The first, greyed-out line of the tray menu: an alarm clock when the
/// notification is up, otherwise the time left behind a pause sign or an
/// hourglass.
pub open spec fn menu_status_text(v: TimerView) -> Seq<char> {
    if v.notifying {
        "\u{23F0} Time's up!"@
    } else if v.paused {
        "\u{23F8}\u{FE0F} "@ + clock_text(v.remaining as nat)
    } else {
        "\u{23F3} "@ + clock_text(v.remaining as nat)
    }
}

/// The label of the menu entry that pauses or resumes.
pub open spec fn pause_label_text(v: TimerView) -> Seq<char> {
    if v.paused {
        "\u{25B6}\u{FE0F} Resume"@
    } else {
        "\u{23F8}\u{FE0F} Pause"@
    }
}

/// The tray item's identifier.
pub fn tray_id() -> (r: &'static str)
    ensures
        r@ == "loop-timer"@,
{
    "loop-timer"
}

/// The name of the tray's icon.
pub fn tray_icon_name() -> (r: &'static str)
    ensures
        r@ == "empathy"@,
{
    "empathy"
}

/// The tray item's title, also the tooltip's title.
pub fn tray_title() -> (r: &'static str)
    ensures
        r@ == "loop-timer"@,
{
    "loop-timer"
}

/// The label of the menu entry that restarts the countdown.
pub fn restart_label() -> (r: &'static str)
    ensures
        r@ == "\u{1F504} Restart"@,
{
    "\u{1F504} Restart"
}

/// The label of the menu entry that quits.
pub fn exit_label() -> (r: &'static str)
    ensures
        r@ == "\u{274C} Exit"@,
{
    "\u{274C} Exit"
}

/// The tooltip line for the current state.
pub fn tooltip_description(state: &AppState) -> (r: String)
    ensures
        r@ == tooltip_text(state@),
        !state.is_notifying && !state.is_paused ==> r@ == clock_text(state.remaining_seconds as nat),
{
    if state.is_notifying {
        String::from_str("Time's up!")
    } else if state.is_paused {
        String::from_str("Paused")
    } else {
        format_clock(state.remaining_seconds)
    }
}

/// The status line of the tray menu for the current state.
pub fn menu_status(state: &AppState) -> (r: String)
    ensures
        r@ == menu_status_text(state@),
        !state.is_notifying ==> r@.len() >= clock_text(state.remaining_seconds as nat).len()
            && r@.skip(r@.len() - clock_text(state.remaining_seconds as nat).len()) == clock_text(
            state.remaining_seconds as nat,
        ),
{
    if state.is_notifying {
        String::from_str("\u{23F0} Time's up!")
    } else {
        let clock = format_clock(state.remaining_seconds);
        let mut r = if state.is_paused {
            String::from_str("\u{23F8}\u{FE0F} ")
        } else {
            String::from_str("\u{23F3} ")
        };
        r.append(clock.as_str());
        assert(r@.skip(r@.len() - clock@.len()) =~= clock@);
        r
    }
}

/// The label of the pause/resume menu entry for the current state.
pub fn pause_label(state: &AppState) -> (r: &'static str)
    ensures
        r@ == pause_label_text(state@),
{
    if state.is_paused {
        "\u{25B6}\u{FE0F} Resume"
    } else {
        "\u{23F8}\u{FE0F} Pause"
    }
}

} // verus!
