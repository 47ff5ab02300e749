//! A request/fulfillment oracle for a ledger, with the two registries that
//! share its access-control, fee and counter patterns: clients submit paid
//! requests, an admin fulfills them exactly once, and every change is
//! recorded in an append-only event log.
use vstd::prelude::*;

pub mod address;
pub mod amount;
pub mod builder;
pub mod bytes;
pub mod context;
pub mod error;
pub mod factory;
pub mod oracle;
pub mod registry;

verus! {

} // verus!
