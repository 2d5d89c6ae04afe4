//! Core logic of the Radix engine: the fee table, packages and their
//! blueprint ABIs, ABI export from a substate store, resource behaviours,
//! transaction receipts and the simulator's manifest pre-processing.

pub mod types;
mod text;
pub mod fee_table;
pub mod errors;
pub mod package;
pub mod substate;
pub mod abi_extractor;
pub mod resource_manager;
pub mod resim;
pub mod transaction_receipt;
pub mod kernel;
pub mod fee_laws;
