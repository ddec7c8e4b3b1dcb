//! Proof orchestration for a zero-knowledge virtual machine: segment
//! accounting, the aggregation tree over segment proofs, the local job table,
//! the remote job protocol and the post-proof public-input binding.

pub mod aggregation;
pub mod bytes;
pub mod client;
pub mod codec;
pub mod error;
pub mod guest;
pub mod input;
pub mod local;
pub mod network;
pub mod prover;
pub mod public_inputs;
pub mod segments;
