//! A singleton timestamp store kept at a program-derived address.
//!
//! The record's lifecycle (one-time creation, validated updates, reset
//! notifications) is modelled as transitions of a [`ledger::Ledger`], whose
//! contracts are stated over [`ledger::LedgerModel`].

pub mod error;
pub mod host;
pub mod ixs;
pub mod laws;
pub mod layout;
pub mod ledger;
pub mod state;

pub use ixs::{reset_store, set_store, ResetStore, SetStore};
pub use state::{ExampleStore, StoreReset};
