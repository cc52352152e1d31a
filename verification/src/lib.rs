//! Subscription billing state machine: tenants register services, services
//! publish fixed-price billing plans, and subscribers pay into a per-service
//! vault to extend a time-boxed entitlement.
//!
//! The host that sequences operations, the token-transfer mechanism and the
//! clock are external collaborators: every operation here is a pure function
//! from the current records, the caller's identity and a single `now`
//! timestamp to either a new set of records or an error, applied atomically.

pub mod error;
pub mod laws;
pub mod ledger;
pub mod state;
