//! Leader election among peers that share one unreliable broadcast group.
//!
//! Every peer owns a numeric identity. The peer whose identity is the highest
//! among those taking part in a round becomes the leader, and the others follow
//! it. The election is a transition function from a protocol state and an event
//! to the next state and the message to broadcast; the surrounding program
//! performs the sends, the waits and the receives.

pub mod backoff;
mod chance;
pub mod clock;
pub mod config;
pub mod election;
pub mod laws;
pub mod machine;
pub mod message;
pub mod round;
pub mod state;
pub mod wire;
