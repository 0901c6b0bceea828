//! An append-only block ledger for agents, and the rules that drive it.

pub mod actor;
pub mod agency;
pub mod block;
pub mod clock;
pub mod compose;
pub mod json;

// What an implementor of the kinds' traits has to name.
pub use vstd::seq::Seq;
pub use vstd::view::View;
