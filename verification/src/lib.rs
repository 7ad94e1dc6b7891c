//! Verified core pieces of the Grainlify contracts:
//!
//! - `error_registry`: the table of error codes of the core contract, its
//!   uniqueness and range checks, lookups by code and checks against other
//!   contracts' tables;
//! - `registry_laws`: properties of the registry that span its functions;
//! - `reentrancy_guard`: the decision logic of the escrow contract's
//!   reentrancy flag, with its laws.

pub mod error_registry;
pub mod reentrancy_guard;
pub mod registry_laws;
