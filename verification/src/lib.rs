//! A launcher-style menu core: a searchable, keyboard-navigable result list
//! driven by a debounced asynchronous search and a frame-paced presentation
//! pipeline.
//!
//! This crate holds the scheduling logic only: the state machines that decide
//! what happens on each input event, search result, timer deadline and frame
//! tick. Platform event conversion, GPU submission and the actual timers are
//! the embedding host's concern; the host feeds plain values in and carries
//! the decisions out.

pub mod clock;
pub mod debounce;
pub mod events;
pub mod layout;
pub mod present;
pub mod scheduler;
pub mod state;

pub use crate::debounce::Debouncer;
pub use crate::events::AppEvent;
pub use crate::events::InputEvent;
pub use crate::events::Key;
pub use crate::present::Pipeline;
pub use crate::scheduler::Scheduler;
pub use crate::state::AppState;
