//! State transitions of a registry of collectible characters: minting with a
//! platform fee, sales that pay the platform a basis-point cut, and a one-way
//! progression of each character through five content stages.
//!
//! The operations compute; they never move value themselves. Each returns the
//! transfers and the event that the host ledger must carry out and record
//! together with the record changes, or an error and no change at all.

pub mod accounts;
pub mod fee;
pub mod guard;
pub mod laws;
pub mod program;
