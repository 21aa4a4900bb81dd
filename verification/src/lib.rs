//! A two-phase interval timer: an active period and a rest period alternate
//! forever. The countdown engine, the spinner animation, the display
//! formatter and the event-loop state machine live here; terminal I/O and
//! process spawning are left to the surrounding application.

mod engine;
mod format;
mod session;
mod spinner;

pub use engine::MILLIS_PER_MIN;
pub use engine::MILLIS_PER_SEC;
pub use engine::Phase;
pub use engine::PhaseConfig;
pub use engine::TickOutcome;
pub use engine::TimerState;
pub use engine::iterated_flip;
pub use engine::lemma_phase_alternates;
pub use format::Color;
pub use format::RenderFrame;
pub use format::format_frame;
pub use format::spec_clock_text;
pub use format::spec_digit_char;
pub use format::spec_digits;
pub use format::spec_pad2;
pub use format::spec_time_bg;
pub use format::spec_time_fg;
pub use session::Action;
pub use session::KeyPress;
pub use session::LoopEvent;
pub use session::LoopStatus;
pub use session::Session;
pub use spinner::Spinner;
pub use spinner::active_glyphs;
pub use spinner::iterated_advance;
pub use spinner::lemma_spinner_cycles;
pub use spinner::phase_glyphs;
pub use spinner::rest_glyphs;
