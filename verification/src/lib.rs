//! Settlement logic for a trust-minimized raffle: a lifecycle state machine
//! over escrowed funds, with witness decoding, replay protection and a
//! deterministic winner draw.
//!
//! `machine` holds the lifecycle operations, `state` the entities they act
//! on, `codec` the public-witness wire format, `gateway` the assembly of
//! external verifier calls, `digest` the winner-draw hash, and `errors` the
//! error kinds.

pub mod bytes;
pub mod codec;
pub mod digest;
pub mod errors;
pub mod gateway;
pub mod machine;
pub mod state;
