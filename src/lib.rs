//! Window-lifecycle and event-loop controller of a minimal application shell.
//!
//! The platform (window system, event queue, renderer) is driven from outside;
//! this library decides what to do with every platform event and every
//! outcome of a platform step.

pub mod display;
pub mod engine;
pub mod event;
pub mod event_loop;
