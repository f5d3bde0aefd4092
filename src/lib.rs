//! Lamport vaults, tips and a small micro-blog, modelled as verified state
//! transitions over plain account values.

pub mod address;
pub mod tip;
pub mod twitter;
pub mod vault;
