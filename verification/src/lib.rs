//! The event loop of an Android application: which events the application's
//! handler sees, in which order, how long the loop may sleep, and when it ends.
//!
//! The loop is a state machine ([`machine::LoopState`]): it asks for one piece
//! of outside work at a time (hand an event to the handler, poll the looper,
//! read an input event) and is resumed with the answer. [`event_loop::EventLoop`]
//! adds the two things that other threads share with the loop, the queue of
//! user events and the redraw flag.

pub mod conduct;
pub mod dpi;
pub mod error;
pub mod event;
pub mod event_loop;
pub mod flag;
pub mod history;
pub mod input;
pub mod laws;
pub mod machine;
pub mod monitor;
pub mod queue;
pub mod receiving;
pub mod time;
pub mod trace;
pub mod window;
