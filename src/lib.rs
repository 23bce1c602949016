//! A narrow call protocol between a sandboxed caller and a fungible-asset
//! ledger: a fixed catalog of five operations, a positional byte encoding of
//! their arguments, a host-side dispatcher and a two-way translation between
//! the ledger's failures and a single integer status code.

pub mod wire;
pub mod pallet_error;
pub mod catalog;
pub mod asset_extension;
pub mod runtime;
pub mod contract;
