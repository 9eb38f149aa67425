//! A minimum-deposit eligibility proof built on a transparent STARK backend.
//!
//! A deposit is described by six attributes: an amount, a lock term, and four
//! 32-byte buffers (transaction hash, block hash, recipient, Merkle root).
//! The library encodes these attributes as field elements, builds the
//! execution trace and the algebraic constraint system that bind a proof to
//! the attributes, fixes the proof parameters, and drives the generate and
//! verify operations up to the point where the opaque STARK backend takes
//! over.

pub mod air;
pub mod deposit;
pub mod encode;
pub mod field;
pub mod inputs;
pub mod laws;
pub mod record;
pub mod trace;
