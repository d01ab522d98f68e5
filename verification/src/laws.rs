//! Properties of the timer that hold across calls.
use vstd::prelude::*;

use crate::clock::clock_text;
use crate::timer::TimerView;
use crate::tray::{menu_status_text, pause_label_text, tooltip_text};

verus! {

/// Pausing and then resuming (or the other way round) gives back the state
/// exactly as it was.
pub proof fn law_toggle_twice_is_identity(v: TimerView)
    ensures
        v.toggled().toggled() == v,
{
}

/// Whenever the notification is not up, pausing or resuming flips the pause
/// flag, whatever its value and however much time is left, and touches
/// nothing else.
pub proof fn law_toggle_flips_pause(v: TimerView)
    requires
        !v.notifying,
    ensures
        v.toggled().paused == !v.paused,
        v.toggled().remaining == v.remaining,
        v.toggled().countdown == v.countdown,
        !v.toggled().notifying,
        v.toggled().text == v.text,
        v.toggled().confirm_text == v.confirm_text,
{
}

/// Whenever the notification is not up, restarting leaves a full configured
/// countdown, running, whatever the pause state and the time left before.
pub proof fn law_restart_gives_full_running_countdown(v: TimerView)
    requires
        !v.notifying,
    ensures
        v.restarted().remaining == v.countdown,
        !v.restarted().paused,
        v.restarted().running(),
        v.restarted().countdown == v.countdown,
        v.restarted().text == v.text,
        v.restarted().confirm_text == v.confirm_text,
{
}

/// Reloaded settings always set the configured length and the texts. A
/// changed length restarts a running countdown with exactly the new length,
/// longer or shorter; a paused or notifying countdown, or an unchanged
/// length, keeps the seconds left.
pub proof fn law_reload_sets_length_and_restarts_running(
    v: TimerView,
    countdown: u64,
    text: Seq<char>,
    confirm_text: Seq<char>,
)
    ensures
        v.reloaded(countdown, text, confirm_text).countdown == countdown,
        v.reloaded(countdown, text, confirm_text).text == text,
        v.reloaded(countdown, text, confirm_text).confirm_text == confirm_text,
        v.reloaded(countdown, text, confirm_text).paused == v.paused,
        v.reloaded(countdown, text, confirm_text).notifying == v.notifying,
        countdown != v.countdown && !v.paused && !v.notifying ==> v.reloaded(
            countdown,
            text,
            confirm_text,
        ).remaining == countdown,
        countdown == v.countdown || v.paused || v.notifying ==> v.reloaded(
            countdown,
            text,
            confirm_text,
        ).remaining == v.remaining,
{
}

/// While the countdown runs, the tray tooltip shows the seconds left as
/// `MM:SS`, and that text reads back as exactly those seconds.
pub proof fn law_tooltip_shows_time_left(v: TimerView)
    requires
        v.running(),
    ensures
        tooltip_text(v) == clock_text(v.remaining as nat),
        tooltip_text(v) != clock_text(v.countdown as nat) <== v.remaining != v.countdown,
{
    if v.remaining != v.countdown {
        crate::clock::lemma_clock_text_injective(v.remaining as nat, v.countdown as nat);
    }
}

/// The tooltip says "Time's up!" while the notification is up and "Paused"
/// while the countdown is paused; the pause entry offers to resume a paused
/// countdown and to pause any other, so pausing or resuming always changes
/// what the entry offers.
pub proof fn law_tray_words_follow_state(v: TimerView)
    ensures
        v.notifying ==> tooltip_text(v) == "Time's up!"@,
        !v.notifying && v.paused ==> tooltip_text(v) == "Paused"@,
        v.paused ==> pause_label_text(v) == "\u{25B6}\u{FE0F} Resume"@,
        !v.paused ==> pause_label_text(v) == "\u{23F8}\u{FE0F} Pause"@,
        !v.notifying ==> pause_label_text(v.toggled()) != pause_label_text(v),
{
    reveal_strlit("\u{25B6}\u{FE0F} Resume");
    reveal_strlit("\u{23F8}\u{FE0F} Pause");
    assert("\u{25B6}\u{FE0F} Resume"@[0] != "\u{23F8}\u{FE0F} Pause"@[0]);
}

/// Whenever the notification is not up, the menu's status line ends with the
/// seconds left as `MM:SS` (after a pause sign or an hourglass); while the
/// countdown runs it is the hourglass followed by the tooltip line.
pub proof fn law_menu_status_ends_with_time_left(v: TimerView)
    requires
        !v.notifying,
    ensures
        ({
            let s = menu_status_text(v);
            let c = clock_text(v.remaining as nat);
            s.len() > c.len() && s.skip(s.len() - c.len()) == c
        }),
        !v.paused ==> menu_status_text(v) == "\u{23F3} "@ + tooltip_text(v),
{
    reveal_strlit("\u{23F3} ");
    reveal_strlit("\u{23F8}\u{FE0F} ");
    let s = menu_status_text(v);
    let c = clock_text(v.remaining as nat);
    assert(s.skip(s.len() - c.len()) =~= c);
}

/// While the notification is up the state is frozen: seconds pass without
/// effect and without a second notification, and neither pausing nor
/// restarting changes anything.
pub proof fn law_notification_freezes_state(v: TimerView, with_tray: bool)
    requires
        v.notifying,
    ensures
        v.ticked(with_tray) == v,
        !v.alarms(with_tray),
        v.toggled() == v,
        v.restarted() == v,
{
}

/// With the tray present, a paused countdown stands still and never raises
/// the notification.
pub proof fn law_paused_countdown_stands_still(v: TimerView)
    requires
        v.paused,
    ensures
        v.ticked(true) == v,
        !v.alarms(true),
{
}

/// As long as the countdown is not paused, it counts alike with and without
/// the tray.
pub proof fn law_unpaused_tick_ignores_tray(v: TimerView)
    requires
        !v.paused,
    ensures
        v.ticked(true) == v.ticked(false),
        v.alarms(true) == v.alarms(false),
{
}

/// Every change to the state keeps its invariant: the notification is only
/// up when the countdown has run out.
pub proof fn law_changes_keep_invariant(
    v: TimerView,
    with_tray: bool,
    countdown: u64,
    text: Seq<char>,
    confirm_text: Seq<char>,
)
    requires
        v.wf(),
    ensures
        v.ticked(with_tray).wf(),
        v.toggled().wf(),
        v.restarted().wf(),
        v.confirmed().wf(),
        v.reloaded(countdown, text, confirm_text).wf(),
{
}

/// Taking over the same settings twice is the same as taking them over once.
pub proof fn law_reload_is_idempotent(
    v: TimerView,
    countdown: u64,
    text: Seq<char>,
    confirm_text: Seq<char>,
)
    ensures
        v.reloaded(countdown, text, confirm_text).reloaded(countdown, text, confirm_text)
            == v.reloaded(countdown, text, confirm_text),
{
}

/// Settings whose countdown length is unchanged only replace the texts.
pub proof fn law_reload_same_length_keeps_countdown(
    v: TimerView,
    text: Seq<char>,
    confirm_text: Seq<char>,
)
    ensures
        v.reloaded(v.countdown, text, confirm_text) == (TimerView { text, confirm_text, ..v }),
{
}

/// A running countdown with `r` seconds left counts down one second per tick
/// and raises the notification exactly on tick `r` (on the first tick when
/// it already stands at zero), not before.
pub proof fn law_countdown_alarms_on_time(v: TimerView, k: nat, with_tray: bool)
    requires
        v.running(),
    ensures
        k < v.remaining ==> v.ticked_n(k, with_tray).running() && v.ticked_n(k, with_tray).remaining
            == v.remaining - k,
        k < v.remaining ==> v.ticked_n(k, with_tray).countdown == v.countdown,
        k == (if v.remaining == 0 {
            1
        } else {
            v.remaining as nat
        }) ==> v.ticked_n(k, with_tray).notifying && v.ticked_n(k, with_tray).remaining == 0,
    decreases k,
{
    if k > 0 {
        let w = v.ticked(with_tray);
        if v.remaining > 1 {
            assert(w.running() && w.remaining == v.remaining - 1);
            law_countdown_alarms_on_time(w, (k - 1) as nat, with_tray);
        } else {
            assert(w.notifying && w.remaining == 0);
            lemma_notifying_ticks_stay(w, (k - 1) as nat, with_tray);
        }
    }
}

proof fn lemma_notifying_ticks_stay(v: TimerView, k: nat, with_tray: bool)
    requires
        v.notifying,
    ensures
        v.ticked_n(k, with_tray) == v,
    decreases k,
{
    if k > 0 {
        lemma_notifying_ticks_stay(v.ticked(with_tray), (k - 1) as nat, with_tray);
    }
}

/// After the notification is confirmed an unpaused timer counts a full
/// configured countdown again: the next notification comes exactly
/// `countdown` seconds later (one second later for a zero-length countdown).
pub proof fn law_confirm_starts_full_countdown(v: TimerView, with_tray: bool)
    requires
        !v.paused,
    ensures
        v.confirmed().running(),
        v.confirmed().remaining == v.countdown,
        forall|k: nat|
            k < v.countdown ==> !(#[trigger] v.confirmed().ticked_n(k, with_tray)).notifying,
        v.confirmed().ticked_n(
            if v.countdown == 0 {
                1
            } else {
                v.countdown as nat
            },
            with_tray,
        ).notifying,
{
    let c = v.confirmed();
    assert forall|k: nat| k < v.countdown implies !(#[trigger] c.ticked_n(k, with_tray)).notifying by {
        law_countdown_alarms_on_time(c, k, with_tray);
    }
    law_countdown_alarms_on_time(
        c,
        if v.countdown == 0 {
            1
        } else {
            v.countdown as nat
        },
        with_tray,
    );
}

} // verus!
