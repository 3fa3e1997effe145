//! A warranty ledger: it issues warranty records to owners, lets the owner
//! claim a record once before it expires, and keeps running totals that
//! always agree with the records it holds.
//!
//! The ledger is a plain value. Whoever drives it supplies the current time
//! and has already established who is calling.

pub mod address;
pub mod error;
pub mod stats;
pub mod token;
pub mod model;
pub mod ledger;
pub mod laws;

pub use address::Address;
pub use error::WarrantyError;
pub use ledger::{WarrantyBook, WarrantyContract};
pub use stats::WarrantyStats;
pub use token::WarrantyToken;
