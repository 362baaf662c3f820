//! What a vendor offers, and the payer's details for an ICRC-2 payment.

use crate::account::{Account, Subaccount};
use crate::caller::TokenAmount;
use crate::principal::Principal;
use vstd::prelude::*;

verus! {

/// A way of paying that a vendor may offer to a customer, with its fee.
#[derive(Clone, Copy, Debug, PartialEq, Eq)]
pub enum PaymentOption {
    /// The caller attaches cycles to the call.
    AttachedCycles { fee: Option<TokenAmount> },
    /// The caller pays from its main account on the cycles ledger.
    CallerPaysIcrc2Cycles { fee: Option<TokenAmount> },
    /// A patron pays, for the caller, from its account on the cycles ledger.
    PatronPaysIcrc2Cycles { fee: Option<TokenAmount> },
}

/// A payer's details for an ICRC-2 payment.
#[derive(Clone, Copy, Debug, PartialEq, Eq)]
pub struct Icrc2Payer {
    /// The payer's account. Without one, the caller's main account pays.
    pub account: Option<Account>,
    /// The spender's subaccount, where the spender is not the payer.
    pub spender_subaccount: Option<Subaccount>,
    /// The ledger, so that a caller who picks the wrong one can be told.
    pub ledger_canister_id: Option<Principal>,
    /// The time that the payer gives the transaction.
    pub created_at_time: Option<TokenAmount>,
}

} // verus!
