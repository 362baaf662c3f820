//! What a caller says about how it will pay.

use crate::account::Account;
use crate::principal::Principal;
use vstd::prelude::*;

verus! {

/// An amount in a ledger's smallest unit: cycles, or tokens.
pub type TokenAmount = u128;

/// A patron's account on the cycles ledger.
pub type PatronPaysIcrc2Cycles = Account;

/// The caller pays from its main account on `ledger`.
#[derive(Clone, Copy, Debug, PartialEq, Eq)]
pub struct CallerPaysIcrc2Tokens {
    pub ledger: Principal,
}

/// A patron pays, for the caller, from `patron` on `ledger`.
#[derive(Clone, Copy, Debug, PartialEq, Eq)]
pub struct PatronPaysIcrc2Tokens {
    pub ledger: Principal,
    pub patron: Account,
}

/// How a caller states that it will pay.
#[derive(Clone, Copy, Debug, PartialEq, Eq)]
pub enum PaymentType {
    /// With cycles attached to the call. Only another canister can do so.
    AttachedCycles,
    /// With cycles from the caller's main account on the cycles ledger.
    CallerPaysIcrc2Cycles,
    /// A patron pays with cycles for the caller.
    PatronPaysIcrc2Cycles(PatronPaysIcrc2Cycles),
    /// With tokens from the caller's main account on the named ledger.
    CallerPaysIcrc2Tokens(CallerPaysIcrc2Tokens),
    /// A patron pays for the caller from an account on the named ledger.
    PatronPaysIcrc2Tokens(PatronPaysIcrc2Tokens),
}

impl PaymentType {
    /// The patron that the caller names, where it names one.
    pub open spec fn patron(self) -> Option<Account> {
        match self {
            PaymentType::PatronPaysIcrc2Cycles(patron) => Some(patron),
            PaymentType::PatronPaysIcrc2Tokens(payment) => Some(payment.patron),
            _ => None,
        }
    }
}

} // verus!
