//! Payment guards for priced canister methods.
//!
//! A vendor lists the ways of paying that it accepts. A caller names one of
//! them with each call. A guard checks the caller's choice against the list
//! and decides on the one movement of funds that collects the fee; the
//! ledger's reply to it is then turned into the payment's result.

pub mod account;
pub mod base16;
pub mod bridge;
pub mod caller;
pub mod cycles;
pub mod error;
pub mod guards;
pub mod ledger;
pub mod principal;
pub mod state;
pub mod vendor;
