//! Nodara network logic: the on-chain modules (pallets) of the Nodara
//! runtime modelled as verified state machines, the client SDK, and the
//! off-chain worker computations.

pub mod frame;
pub mod bytemap;
pub mod hashing;
pub mod sdk;
pub mod pallets;
pub mod offchain;
pub mod runtime;
pub mod cli;
