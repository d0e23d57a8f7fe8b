//! A shared, numerically stable status-code vocabulary for a distributed
//! ledger platform. Independently deployed subsystems exchange an outcome as
//! a bare unsigned integer on the wire; this crate defines the symbolic
//! vocabulary, the reserved numeric band of each subsystem, and the total,
//! never-failing conversions between a symbolic value and its wire integer.

mod codes;
mod convert;
mod display;
pub mod laws;
mod proto;
mod wire;

pub use codes::StatusCode;
