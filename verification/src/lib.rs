//! Adversarial search over caller-defined game states, together with a small
//! collection of combinatorial helpers and a discrete uniform distribution.

pub mod adversarial;
pub mod stats;
