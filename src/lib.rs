//! An on-chain governance engine: energy-weighted proposals and votes, the lifecycle of a
//! proposal, and the escrow of its submission fee.
pub mod governance;
pub mod laws;
pub mod modules;
pub mod power;
pub mod proposal;
pub mod types;
