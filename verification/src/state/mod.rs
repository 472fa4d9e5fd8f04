//! The account data of the instruction handlers under `instructions`.
pub mod business;
pub mod escrow;
