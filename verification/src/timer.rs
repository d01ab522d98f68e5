//! The state of the repeating countdown and every change made to it: the
//! once-a-second tick, pausing and resuming, restarting, confirming the
//! notification and taking over reloaded settings.
use vstd::prelude::*;

use crate::config::Config;
use crate::tray::TrayCommand;

verus! {

/// The shared state of the timer.
#[derive(Debug)]
pub struct AppState {
    /// Seconds left until the next notification.
    pub remaining_seconds: u64,
    /// The configured length of a countdown, in seconds.
    pub config_countdown: u64,
    /// Whether the countdown is paused.
    pub is_paused: bool,
    /// Whether the notification is on screen, waiting to be confirmed.
    pub is_notifying: bool,
    /// The text the notification shows.
    pub notification_text: String,
    /// The label of the button that confirms the notification.
    pub confirm_text: String,
    /// Seconds of rest left before the notification can be confirmed.
    pub rest_remaining_seconds: u64,
}

/// What the notification overlay is to show.
#[derive(Debug)]
pub struct Notice {
    pub text: String,
    pub confirm_text: String,
}

/// The mathematical model of an `AppState`.
pub struct TimerView {
    pub remaining: u64,
    pub countdown: u64,
    pub paused: bool,
    pub notifying: bool,
    pub text: Seq<char>,
    pub confirm_text: Seq<char>,
    pub rest: u64,
}

impl View for AppState {
    type V = TimerView;

    open spec fn view(&self) -> TimerView {
        TimerView {
            remaining: self.remaining_seconds,
            countdown: self.config_countdown,
            paused: self.is_paused,
            notifying: self.is_notifying,
            text: self.notification_text@,
            confirm_text: self.confirm_text@,
            rest: self.rest_remaining_seconds,
        }
    }
}

impl TimerView {
    /// The state's invariant: a notification is only ever on screen once the
    /// countdown has run out.
    pub open spec fn wf(self) -> bool {
        self.notifying ==> self.remaining == 0
    }

    /// The countdown runs: it is neither paused nor waiting for a confirmation.
    pub open spec fn running(self) -> bool {
        !self.paused && !self.notifying
    }

    /// The state after one second. While the notification is on screen
    /// nothing changes. Otherwise an unpaused countdown goes down by one
    /// second, and once it stands at zero the notification goes up; with
    /// the tray present a paused countdown never raises it, without the
    /// tray (where nothing can pause) the zero alone decides.
    pub open spec fn ticked(self, with_tray: bool) -> TimerView {
        if self.notifying {
            self
        } else {
            let r: u64 = if !self.paused && self.remaining > 0 {
                (self.remaining - 1) as u64
            } else {
                self.remaining
            };
            TimerView {
                remaining: r,
                countdown: self.countdown,
                paused: self.paused,
                notifying: r == 0 && (!with_tray || !self.paused),
                text: self.text,
                confirm_text: self.confirm_text,
                rest: self.rest,
            }
        }
    }

    /// Whether this second raises the notification.
    pub open spec fn alarms(self, with_tray: bool) -> bool {
        !self.notifying && self.ticked(with_tray).notifying
    }

    /// `n` seconds of ticking.
    pub open spec fn ticked_n(self, n: nat, with_tray: bool) -> TimerView
        decreases n,
    {
        if n == 0 {
            self
        } else {
            self.ticked(with_tray).ticked_n((n - 1) as nat, with_tray)
        }
    }

    /// Pausing or resuming: flips the pause, unless the notification is up.
    pub open spec fn toggled(self) -> TimerView {
        if self.notifying {
            self
        } else {
            TimerView { paused: !self.paused, ..self }
        }
    }

    /// Restarting from the tray: a full countdown, running, unless the
    /// notification is up.
    pub open spec fn restarted(self) -> TimerView {
        if self.notifying {
            self
        } else {
            TimerView { remaining: self.countdown, paused: false, ..self }
        }
    }

    /// Confirming the notification: it goes down and a full countdown starts.
    pub open spec fn confirmed(self) -> TimerView {
        TimerView { remaining: self.countdown, notifying: false, ..self }
    }

    /// Taking over reloaded settings: the texts always; a changed countdown
    /// length replaces the configured one and, when the countdown is running,
    /// restarts it with the new length.
    pub open spec fn reloaded(self, countdown: u64, text: Seq<char>, confirm_text: Seq<char>) -> TimerView {
        let changed = countdown != self.countdown;
        TimerView {
            remaining: if changed && self.running() {
                countdown
            } else {
                self.remaining
            },
            countdown: countdown,
            paused: self.paused,
            notifying: self.notifying,
            text: text,
            confirm_text: confirm_text,
            rest: self.rest,
        }
    }
}

impl AppState {
    /// A fresh state for the given settings: a full countdown, running.
    pub fn from_config(cfg: &Config) -> (r: AppState)
        ensures
            r@ == (TimerView {
                remaining: cfg.general.countdown_seconds,
                countdown: cfg.general.countdown_seconds,
                paused: false,
                notifying: false,
                text: cfg.notification.text@,
                confirm_text: cfg.notification.confirm_text@,
                rest: 0,
            }),
            r@.wf(),
    {
        AppState {
            remaining_seconds: cfg.general.countdown_seconds,
            config_countdown: cfg.general.countdown_seconds,
            is_paused: false,
            is_notifying: false,
            notification_text: cfg.notification.text.clone(),
            confirm_text: cfg.notification.confirm_text.clone(),
            rest_remaining_seconds: 0,
        }
    }

    fn advance(&mut self, with_tray: bool) -> (r: Option<Notice>)
        ensures
            final(self)@ == old(self)@.ticked(with_tray),
            r is Some <==> old(self)@.alarms(with_tray),
            r matches Some(n) ==> n.text@ == old(self)@.text && n.confirm_text@
                == old(self)@.confirm_text,
    {
        if self.is_notifying {
            return None;
        }
        if !self.is_paused && self.remaining_seconds > 0 {
            self.remaining_seconds = self.remaining_seconds - 1;
        }
        if self.remaining_seconds == 0 && (!with_tray || !self.is_paused) {
            self.is_notifying = true;
            Some(Notice { text: self.notification_text.clone(), confirm_text: self.confirm_text.clone() })
        } else {
            None
        }
    }

    /// One second passes, with the tray present. Returns what the overlay is
    /// to show when this second raises the notification.
    pub fn tick(&mut self) -> (r: Option<Notice>)
        ensures
            final(self)@ == old(self)@.ticked(true),
            r is Some <==> old(self)@.alarms(true),
            r matches Some(n) ==> n.text@ == old(self)@.text && n.confirm_text@
                == old(self)@.confirm_text,
            old(self)@.wf() ==> final(self)@.wf(),
    {
        self.advance(true)
    }

    /// One second passes, with no tray to pause the countdown. Returns what
    /// the overlay is to show when this second raises the notification.
    pub fn tick_without_tray(&mut self) -> (r: Option<Notice>)
        ensures
            final(self)@ == old(self)@.ticked(false),
            r is Some <==> old(self)@.alarms(false),
            r matches Some(n) ==> n.text@ == old(self)@.text && n.confirm_text@
                == old(self)@.confirm_text,
            old(self)@.wf() ==> final(self)@.wf(),
    {
        self.advance(false)
    }

    /// Pauses a running countdown or resumes a paused one; does nothing while
    /// the notification is up.
    pub fn toggle_pause(&mut self)
        ensures
            final(self)@ == old(self)@.toggled(),
            !old(self).is_notifying ==> final(self).is_paused == !old(self).is_paused,
            final(self).remaining_seconds == old(self).remaining_seconds,
            final(self).is_notifying == old(self).is_notifying,
            old(self)@.wf() ==> final(self)@.wf(),
    {
        if !self.is_notifying {
            self.is_paused = !self.is_paused;
        }
    }

    /// Starts a full countdown, unpaused; does nothing while the notification
    /// is up.
    pub fn restart(&mut self)
        ensures
            final(self)@ == old(self)@.restarted(),
            !old(self).is_notifying ==> final(self).remaining_seconds == old(self).config_countdown
                && !final(self).is_paused,
            final(self).config_countdown == old(self).config_countdown,
            final(self).is_notifying == old(self).is_notifying,
            old(self)@.wf() ==> final(self)@.wf(),
    {
        if !self.is_notifying {
            self.remaining_seconds = self.config_countdown;
            self.is_paused = false;
        }
    }

    /// The notification was confirmed: it goes down and a full countdown
    /// starts.
    pub fn confirm(&mut self)
        ensures
            final(self)@ == old(self)@.confirmed(),
            final(self)@.wf(),
    {
        self.is_notifying = false;
        self.remaining_seconds = self.config_countdown;
    }

    /// Takes over reloaded settings.
    pub fn apply_config(&mut self, cfg: &Config)
        ensures
            final(self)@ == old(self)@.reloaded(
                cfg.general.countdown_seconds,
                cfg.notification.text@,
                cfg.notification.confirm_text@,
            ),
            final(self).config_countdown == cfg.general.countdown_seconds,
            final(self).notification_text@ == cfg.notification.text@,
            final(self).confirm_text@ == cfg.notification.confirm_text@,
            cfg.general.countdown_seconds != old(self).config_countdown && !old(self).is_paused
                && !old(self).is_notifying ==> final(self).remaining_seconds
                == cfg.general.countdown_seconds,
            cfg.general.countdown_seconds == old(self).config_countdown || old(self).is_paused
                || old(self).is_notifying ==> final(self).remaining_seconds
                == old(self).remaining_seconds,
            old(self)@.wf() ==> final(self)@.wf(),
    {
        self.notification_text = cfg.notification.text.clone();
        self.confirm_text = cfg.notification.confirm_text.clone();
        if cfg.general.countdown_seconds != self.config_countdown {
            self.config_countdown = cfg.general.countdown_seconds;
            if !self.is_notifying && !self.is_paused {
                self.remaining_seconds = self.config_countdown;
            }
        }
    }

    /// Carries out a command from the tray. Returns whether the program is
    /// to exit.
    pub fn handle_command(&mut self, cmd: TrayCommand) -> (exit: bool)
        ensures
            exit <==> cmd is Exit,
            cmd is TogglePause ==> final(self)@ == old(self)@.toggled(),
            cmd is Exit ==> final(self)@ == old(self)@,
    {
        match cmd {
            TrayCommand::TogglePause => {
                self.toggle_pause();
                false
            },
            TrayCommand::Exit => true,
        }
    }
}

} // verus!
