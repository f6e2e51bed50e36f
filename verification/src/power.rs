//! The power dialog: a countdown that carries out a power action by itself
//! once thirty seconds have passed, unless it is cancelled first.

use vstd::prelude::*;
use crate::effect::{Effect, EffectView};
use crate::views::seq_view;
use crate::window::{Timestamp, WindowHandle, WindowKind, WindowSettings};

verus! {

/// The actions the power dialog can carry out.
#[derive(Clone, Copy, Debug, PartialEq, Eq, Structural)]
pub enum PowerOptions {
    Shutdown,
    Reboot,
    LogOff,
    Lock,
}

/// What the power dialog reacts to. `Tick` carries the time of the tick.
/// `Completed` is the host's report on an action it was asked to carry out:
/// the action and whether it succeeded.
#[derive(Clone, Copy, Debug, PartialEq, Eq, Structural)]
pub enum PowerMenuMessage {
    Tick(Timestamp),
    Execute(PowerOptions),
    Cancel,
    Init(Timestamp),
    Completed(PowerOptions, bool),
}

/// Where the countdown stands.
#[derive(Clone, Copy, Debug, PartialEq, Eq, Structural)]
pub enum Countdown {
    /// The countdown runs.
    Active,
    /// The dialog was dismissed; its window is being closed.
    Cancelled,
    /// The countdown ran out and the action was handed to the host.
    Fired,
}

/// The length of the countdown, in milliseconds.
pub const COUNTDOWN_MS: u64 = 30_000;

#[derive(Clone, Copy, Debug, PartialEq, Eq, Structural)]
pub struct PowerWindow {
    pub id: WindowHandle,
    pub time: Timestamp,
    pub target: PowerOptions,
    pub state: Countdown,
}

impl PowerOptions {
    /// Whether the process ends once the action has succeeded: everything but
    /// locking the workstation ends it.
    pub open spec fn spec_ends_session(self) -> bool {
        !(self is Lock)
    }

    #[verifier::when_used_as_spec(spec_ends_session)]
    pub fn ends_session(self) -> (ends: bool)
        ensures
            ends == self.spec_ends_session(),
    {
        match self {
            PowerOptions::Lock => false,
            _ => true,
        }
    }

    /// What the dialog says is about to happen.
    pub open spec fn spec_label(self) -> Seq<char> {
        match self {
            PowerOptions::Shutdown => "Shutting down"@,
            PowerOptions::Lock => "Locking"@,
            PowerOptions::Reboot => "Rebooting"@,
            PowerOptions::LogOff => "Logging Off"@,
        }
    }

    pub fn label(self) -> (text: &'static str)
        ensures
            text@ == self.spec_label(),
    {
        match self {
            PowerOptions::Shutdown => "Shutting down",
            PowerOptions::Lock => "Locking",
            PowerOptions::Reboot => "Rebooting",
            PowerOptions::LogOff => "Logging Off",
        }
    }
}

impl PowerWindow {
    /// The time that has passed since the countdown started. A clock that
    /// reads earlier than the start counts as no time passed.
    pub open spec fn spec_elapsed(self, now: Timestamp) -> int {
        if now >= self.time {
            now - self.time
        } else {
            0
        }
    }

    /// Whether the countdown has run out at `now`.
    pub open spec fn spec_expired(self, now: Timestamp) -> bool {
        self.spec_elapsed(now) >= COUNTDOWN_MS
    }

    /// The whole seconds left on the countdown at `now`, for display.
    pub open spec fn spec_remaining_seconds(self, now: Timestamp) -> int {
        let secs = self.spec_elapsed(now) / 1000;
        if secs >= 30 {
            0
        } else {
            30 - secs
        }
    }

    /// The dialog after `message`, and what the host is asked to do.
    pub open spec fn step(self, message: PowerMenuMessage) -> (PowerWindow, Seq<EffectView>) {
        match message {
            PowerMenuMessage::Init(now) => (
                PowerWindow { time: now, state: Countdown::Active, ..self },
                Seq::empty(),
            ),
            PowerMenuMessage::Execute(option) => (self, seq![EffectView::PowerAction(option)]),
            PowerMenuMessage::Tick(now) => if self.state is Active && self.spec_expired(now) {
                (
                    PowerWindow { state: Countdown::Fired, ..self },
                    seq![EffectView::PowerAction(self.target)],
                )
            } else {
                (self, Seq::empty())
            },
            PowerMenuMessage::Cancel => (
                PowerWindow { state: Countdown::Cancelled, ..self },
                seq![EffectView::CloseWindow(self.id)],
            ),
            PowerMenuMessage::Completed(option, succeeded) => if succeeded {
                (
                    self,
                    if option.spec_ends_session() {
                        seq![EffectView::Exit]
                    } else {
                        Seq::empty()
                    },
                )
            } else {
                (
                    PowerWindow {
                        state: if self.state is Fired {
                            Countdown::Active
                        } else {
                            self.state
                        },
                        ..self
                    },
                    Seq::empty(),
                )
            },
        }
    }

    /// The dialog after the ticks `ticks`, one after the other.
    pub open spec fn after_ticks(self, ticks: Seq<Timestamp>) -> PowerWindow
        decreases ticks.len(),
    {
        if ticks.len() == 0 {
            self
        } else {
            self.after_ticks(ticks.drop_last()).step(PowerMenuMessage::Tick(ticks.last())).0
        }
    }

    /// A dialog for `target` in the window `id`, its countdown started at
    /// `now`, and the request to open that window.
    pub fn new(id: WindowHandle, target: PowerOptions, now: Timestamp) -> (opened: (Self, Effect))
        ensures
            opened.0 == (PowerWindow { id, time: now, target, state: Countdown::Active }),
            opened.1@ == (EffectView::OpenWindow {
                handle: id,
                kind: WindowKind::PowerWindow,
                settings: WindowSettings::spec_for_kind(WindowKind::PowerWindow),
            }),
    {
        (
            PowerWindow { id, time: now, target, state: Countdown::Active },
            Effect::OpenWindow {
                handle: id,
                kind: WindowKind::PowerWindow,
                settings: WindowSettings::for_kind(WindowKind::PowerWindow),
            },
        )
    }

    pub fn elapsed(&self, now: Timestamp) -> (ms: u64)
        ensures
            ms == self.spec_elapsed(now),
    {
        if now >= self.time {
            now - self.time
        } else {
            0
        }
    }

    pub fn remaining_seconds(&self, now: Timestamp) -> (secs: u64)
        ensures
            secs == self.spec_remaining_seconds(now),
    {
        let passed: u64 = self.elapsed(now) / 1000;
        if passed >= 30 {
            0
        } else {
            30 - passed
        }
    }

    pub fn update(&mut self, message: PowerMenuMessage) -> (effects: Vec<Effect>)
        ensures
            *final(self) == old(self).step(message).0,
            seq_view(effects@) == old(self).step(message).1,
    {
        let mut effects: Vec<Effect> = Vec::new();
        match message {
            PowerMenuMessage::Init(now) => {
                self.time = now;
                self.state = Countdown::Active;
            },
            PowerMenuMessage::Execute(option) => {
                effects.push(Effect::PowerAction(option));
            },
            PowerMenuMessage::Tick(now) => {
                let running = match self.state {
                    Countdown::Active => true,
                    _ => false,
                };
                if running && self.elapsed(now) >= COUNTDOWN_MS {
                    self.state = Countdown::Fired;
                    effects.push(Effect::PowerAction(self.target));
                }
            },
            PowerMenuMessage::Cancel => {
                self.state = Countdown::Cancelled;
                effects.push(Effect::CloseWindow(self.id));
            },
            PowerMenuMessage::Completed(option, succeeded) => {
                if succeeded {
                    if option.ends_session() {
                        effects.push(Effect::Exit);
                    }
                } else {
                    match self.state {
                        Countdown::Fired => {
                            self.state = Countdown::Active;
                        },
                        _ => {},
                    }
                }
            },
        }
        assert(seq_view(effects@) =~= old(self).step(message).1);
        effects
    }
}

/// A running countdown fires on a tick exactly when thirty seconds or more
/// have passed since it started, and a tick changes nothing else.
pub proof fn law_fires_at_threshold(dialog: PowerWindow, now: Timestamp)
    requires
        dialog.state is Active,
    ensures
        dialog.step(PowerMenuMessage::Tick(now)).0.state is Fired <==> now - dialog.time
            >= COUNTDOWN_MS,
        !(dialog.step(PowerMenuMessage::Tick(now)).0.state is Fired) ==> dialog.step(
            PowerMenuMessage::Tick(now),
        ) == (dialog, Seq::<EffectView>::empty()),
        dialog.step(PowerMenuMessage::Tick(now)).0.state is Fired ==> dialog.step(
            PowerMenuMessage::Tick(now),
        ).1 == seq![EffectView::PowerAction(dialog.target)],
{
}

/// However the ticks are spaced, a countdown that was running before them has
/// fired after them exactly when one of them came thirty seconds or more
/// after its start; otherwise it is as it was.
pub proof fn law_never_fires_early(dialog: PowerWindow, ticks: Seq<Timestamp>)
    requires
        dialog.state is Active,
    ensures
        dialog.after_ticks(ticks).state is Fired <==> exists|i: int|
            0 <= i < ticks.len() && #[trigger] ticks[i] - dialog.time >= COUNTDOWN_MS,
        !(dialog.after_ticks(ticks).state is Fired) ==> dialog.after_ticks(ticks) == dialog,
        dialog.after_ticks(ticks).state is Fired ==> dialog.after_ticks(ticks) == (PowerWindow {
            state: Countdown::Fired,
            ..dialog
        }),
    decreases ticks.len(),
{
    if ticks.len() > 0 {
        let before = ticks.drop_last();
        law_never_fires_early(dialog, before);
        if dialog.after_ticks(before).state is Fired {
            let i = choose|i: int| 0 <= i < before.len() && #[trigger] before[i] - dialog.time >= COUNTDOWN_MS;
            assert(ticks[i] == before[i]);
        } else {
            if exists|i: int| 0 <= i < ticks.len() && #[trigger] ticks[i] - dialog.time >= COUNTDOWN_MS {
                let i = choose|i: int| 0 <= i < ticks.len() && #[trigger] ticks[i] - dialog.time >= COUNTDOWN_MS;
                if i < before.len() {
                    assert(before[i] == ticks[i]);
                }
            }
        }
    }
}

} // verus!
