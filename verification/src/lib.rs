//! Verified decision logic of the squid: its random swimming goal, its tentacle
//! stroke, the velocity rule that follows from it, and the squid's synced flags.
//! The floating-point arithmetic that these decisions drive lives outside the
//! verified library.

pub mod entity;
pub mod goal;
pub mod movement;
