//! Event-admission policy: decides whether an event is let through, by
//! checking its kind, its author and its content against three blacklists.
//!
//! The blacklists live in an outside store. The library never reaches the
//! store itself: `pipeline::Admission` names each lookup that is due, the
//! caller answers it, and the admission moves on until it has a decision.
//!
//! Content is matched by containment: it is blacklisted when some stored
//! pattern occurs in it as a contiguous run of characters.

mod hexkey;

pub mod settings;
pub mod event;
pub mod preview;
pub mod pipeline;
pub mod laws;

pub use hexkey::{hex_digit, hex_of};
