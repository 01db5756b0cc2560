//! Decision logic of a permissionless, on-chain liquid-inheritance protocol.
//!
//! Each instruction is a type that holds, as plain values, the accounts it
//! reads, and a method that takes the current time, updates those values and
//! returns the cross-program invocations to perform, or refuses and changes
//! nothing.

pub mod amm;
pub mod cpi;
pub mod errors;
pub mod instructions;
pub mod laws;
pub mod state;
