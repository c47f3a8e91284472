//! A collateralized loan library: a borrower locks a non-fungible asset as
//! collateral in escrow, a lender supplies principal, and the borrower later
//! repays principal plus a flat fee to reclaim the asset.
//!
//! The library holds the loan state machine and its accounting. Every
//! operation is a pure transition on plain record types; the host program
//! performs the actual ledger transfers that each transition requests.

pub mod address;
pub mod error;
pub mod fee;
pub mod laws;
pub mod ops;
pub mod state;
