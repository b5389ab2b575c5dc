//! A minimal creative-coding sketch harness.
//!
//! A sketch is a piece of user state plus two callbacks, `setup` and `draw`.
//! The harness owns the state, a drawing surface and a frame clock, and runs
//! the fixed-rate frame loop: setup once, then poll for quit, draw, present,
//! tick, until a quit signal arrives.  Configuration is accumulated with a
//! builder and turned into a runnable sketch by `build`.
//!
//! The drawing surface records drawing commands as plain data; a host layer
//! hands them to the real windowing backend and feeds drained quit events
//! back into the loop.

mod clock;
mod color;
mod doodle;
mod error;
mod handler;
mod renderer;

pub use clock::FrameClock;
pub use color::Color;
pub use doodle::action_count;
pub use doodle::frame_actions;
pub use doodle::lemma_doodle_history;
pub use doodle::lemma_draw_count;
pub use doodle::lemma_history_structure;
pub use doodle::lemma_present_ordering;
pub use doodle::lemma_setter_overrides;
pub use doodle::lemma_setup_once_before_draw;
pub use doodle::spec_action_at;
pub use doodle::started_actions;
pub use doodle::valid_dimension;
pub use doodle::Action;
pub use doodle::Doodle;
pub use doodle::DoodleBuilder;
pub use doodle::Phase;
pub use doodle::MAX_DIMENSION;
pub use error::Error;
pub use handler::Handler;
pub use handler::NoopHandler;
pub use renderer::RenderOp;
pub use renderer::Renderer;
