//! The event loop's state machine: one ordered stream of tick and key
//! events drives the countdown, the spinner and the display. The loop
//! itself — the fixed-rate clock, the keyboard, the terminal and the
//! notifier subprocess — lives in the surrounding application, which
//! performs the action each step returns.

use vstd::prelude::*;

use crate::engine::MILLIS_PER_SEC;
use crate::engine::Phase;
use crate::engine::PhaseConfig;
use crate::engine::TickOutcome;
use crate::engine::TimerState;
use crate::format::Color;
use crate::format::RenderFrame;
use crate::format::format_frame;
use crate::format::spec_clock_text;
use crate::format::spec_time_bg;
use crate::format::spec_time_fg;
use crate::spinner::Spinner;
use crate::spinner::phase_glyphs;

verus! {

/// A pressed key, already decoded by the input layer. Enter, Escape and
/// Control+C end the loop; every other key is `Other` and is ignored.
#[derive(Clone, Copy, Debug, PartialEq, Eq, Structural)]
pub enum KeyPress {
    Enter,
    Escape,
    CtrlC,
    Other,
}

/// One event of the input stream: either time has advanced by `elapsed`
/// clock units, or a key was pressed. No other event kinds exist.
#[derive(Clone, Copy, Debug, PartialEq, Eq, Structural)]
pub enum LoopEvent {
    Tick { elapsed: u64 },
    Key { key: KeyPress },
}

/// Whether the loop still runs. `Terminated` is terminal: once reached,
/// no further event changes anything.
#[derive(Clone, Copy, Debug, PartialEq, Eq, Structural)]
pub enum LoopStatus {
    Running,
    Terminated,
}

/// What the application must do after one step: draw a frame (and, when
/// `notify` is set, fire the best-effort notifier subprocess), exit the
/// process cleanly, or nothing.
pub enum Action {
    Render { frame: RenderFrame, notify: bool },
    Exit,
    Ignore,
}

/// The whole process-wide state: the immutable configuration, the
/// countdown, the animation, and whether the loop still runs.
pub struct Session {
    pub config: PhaseConfig,
    pub timer: TimerState,
    pub spinner: Spinner,
    pub status: LoopStatus,
}

impl Session {
    /// The configuration is valid, the countdown never exceeds the current
    /// phase's duration, and the spinner index is in range.
    pub open spec fn wf(self) -> bool {
        &&& self.config.wf()
        &&& self.timer.wf(self.config)
        &&& self.spinner.wf()
    }

    /// The keys that end the loop: Enter, Escape and Control+C.
    pub open spec fn spec_terminates(key: KeyPress) -> bool {
        key == KeyPress::Enter || key == KeyPress::Escape || key == KeyPress::CtrlC
    }

    /// No observable difference between the two states.
    pub open spec fn same_state(a: Session, b: Session) -> bool {
        &&& b.config == a.config
        &&& b.timer == a.timer
        &&& b.spinner.animation@ == a.spinner.animation@
        &&& b.spinner.current_frame == a.spinner.current_frame
        &&& b.status == a.status
    }

    /// Start a session in `start_phase`, with that phase's full duration
    /// on the countdown, that phase's spinner at its first glyph, and the
    /// loop running.
    pub fn new(config: PhaseConfig, start_phase: Phase) -> (s: Session)
        requires
            config.wf(),
        ensures
            s.config == config,
            s.timer.phase == start_phase,
            s.timer.remaining == config.spec_duration(start_phase),
            s.spinner.animation@ == phase_glyphs(start_phase),
            s.spinner.current_frame == 0,
            s.status == LoopStatus::Running,
            s.wf(),
    {
        Session {
            timer: TimerState::initialize(&config, start_phase),
            spinner: Spinner::for_phase(start_phase),
            status: LoopStatus::Running,
            config,
        }
    }

    /// Consume one event, in arrival order.
    ///
    /// Once the loop is terminated nothing is processed any more: the state
    /// stays as it is and every event is ignored. While it runs, a
    /// terminating key ends the loop and asks the application to exit with
    /// code zero, leaving timer and spinner untouched; any other key is
    /// ignored. A tick feeds the elapsed time to the countdown: if the
    /// current phase survives, the spinner merely advances one glyph;
    /// if the phase ran out, the other phase's spinner is installed and
    /// advanced once from its first glyph. Either way one frame is composed
    /// from the post-tick state and handed out for rendering, and the
    /// notifier fires exactly when the active phase just ended — never on
    /// the rest-to-active transition.
    pub fn step(&mut self, event: LoopEvent) -> (action: Action)
        requires
            old(self).wf(),
        ensures
            final(self).wf(),
            final(self).config == old(self).config,
            old(self).status == LoopStatus::Terminated ==> {
                &&& Session::same_state(*old(self), *final(self))
                &&& action is Ignore
            },
            old(self).status == LoopStatus::Running ==> match event {
                LoopEvent::Key { key } => if Session::spec_terminates(key) {
                    &&& final(self).status == LoopStatus::Terminated
                    &&& final(self).timer == old(self).timer
                    &&& final(self).spinner.animation@ == old(self).spinner.animation@
                    &&& final(self).spinner.current_frame == old(self).spinner.current_frame
                    &&& action is Exit
                } else {
                    &&& Session::same_state(*old(self), *final(self))
                    &&& action is Ignore
                },
                LoopEvent::Tick { elapsed } => {
                &&& final(self).status == LoopStatus::Running
                &&& (elapsed < old(self).timer.remaining ==> {
                    &&& final(self).timer.phase == old(self).timer.phase
                    &&& final(self).timer.remaining == old(self).timer.remaining - elapsed
                    &&& final(self).spinner.animation@ == old(self).spinner.animation@
                    &&& final(self).spinner.current_frame == (old(self).spinner.current_frame
                        + 1) as int % old(self).spinner.animation@.len() as int
                })
                &&& (elapsed >= old(self).timer.remaining ==> {
                    &&& final(self).timer.phase == old(self).timer.phase.spec_flip()
                    &&& final(self).timer.remaining == old(self).config.spec_duration(
                        final(self).timer.phase,
                    )
                    &&& final(self).spinner.animation@ == phase_glyphs(final(self).timer.phase)
                    &&& final(self).spinner.current_frame == 1 as int % phase_glyphs(
                        final(self).timer.phase,
                    ).len() as int
                })
                &&& action matches Action::Render { frame, notify }
                &&& notify == (elapsed >= old(self).timer.remaining && old(self).timer.phase
                    == Phase::Active)
                &&& frame.glyph == (if elapsed >= old(self).timer.remaining {
                    phase_glyphs(final(self).timer.phase)[0]
                } else {
                    old(self).spinner.animation@[old(self).spinner.current_frame as int]
                })
                &&& frame.glyph_fg == Some(Color::Green)
                &&& frame.glyph_bg == Some(Color::Black)
                &&& frame.time_text@ == spec_clock_text(
                    (final(self).timer.remaining / MILLIS_PER_SEC) as nat,
                )
                &&& frame.time_fg == spec_time_fg(final(self).timer.phase)
                &&& frame.time_bg == spec_time_bg(final(self).timer.phase)
                },
            },
    {
        match self.status {
            LoopStatus::Terminated => Action::Ignore,
            LoopStatus::Running => match event {
                LoopEvent::Key { key } => match key {
                    KeyPress::Enter | KeyPress::Escape | KeyPress::CtrlC => {
                        self.status = LoopStatus::Terminated;
                        Action::Exit
                    },
                    KeyPress::Other => Action::Ignore,
                },
                LoopEvent::Tick { elapsed } => {
                    let outcome = self.timer.tick(&self.config, elapsed);
                    let mut notify = false;
                    match outcome {
                        TickOutcome::PhaseTransitioned(p) => {
                            self.spinner = Spinner::for_phase(p);
                            if matches!(p, Phase::Rest) {
                                notify = true;
                            }
                        },
                        TickOutcome::NoTransition => {},
                    }
                    let glyph = self.spinner.next_frame();
                    let secs = self.timer.remaining / MILLIS_PER_SEC;
                    let frame = format_frame(self.timer.phase, secs, glyph);
                    Action::Render { frame, notify }
                },
            },
        }
    }
}

} // verus!
