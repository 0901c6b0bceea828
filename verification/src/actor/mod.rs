//! One actor for each conversation: what it does with an event, a signal of
//! its scheduler, or a change in the store, decided from plain values.
//!
//! The reading, the writing and the waiting are the caller's.

pub mod context;
pub mod event;
pub mod provider;
pub mod routing;
pub mod scheduler;
pub mod turn;
pub mod watch;
