//! Accounting engine of a tokenized vault.
//!
//! The vault pools a base asset and issues fungible shares against it. Every
//! operation is a pure computation over the vault's totals: it decides how many
//! shares or assets move, commits the new totals in one step, and returns an
//! effect record that the host must carry out on the token ledger.
use vstd::prelude::*;

pub mod error;
pub mod math;
pub mod fee;
pub mod convert;
pub mod state;
pub mod operations;
pub mod laws;

pub use error::{VaultError, VaultResult};
