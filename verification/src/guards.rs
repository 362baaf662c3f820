//! Guards: each decides how a fee is to be collected for one way of paying.
//!
//! A guard moves no funds itself. It either refuses the payment or names the
//! one movement of funds that collects the fee: a [`Charge`]. Whoever runs
//! the guard performs the charge and, for a charge on a ledger, hands the
//! ledger's reply to the charge's `settle`.

use crate::account::{derived_subaccount, Account};
use crate::caller::{PaymentType, TokenAmount};
use crate::cycles::cycles_ledger;
use crate::error::PaymentError;
use crate::ledger::{Transfer, Withdrawal};
use crate::principal::Principal;
use vstd::prelude::*;

pub mod any;
pub mod attached_cycles;
pub mod caller_pays_icrc2_cycles;
pub mod caller_pays_icrc2_tokens;
pub mod icrc2_cycles;
pub mod icrc2_from_caller;
pub mod patron_pays_icrc2_cycles;
pub mod patron_pays_icrc2_tokens;

verus! {

/// The circumstances of the call that is to be paid for.
#[derive(Clone, Copy, Debug, PartialEq, Eq)]
pub struct PaymentContext {
    /// The vendor: the canister that is paid.
    pub own_canister_id: Principal,
    /// Who made the call.
    pub caller: Principal,
    /// The cycles that came attached to the call and are not yet accepted.
    pub cycles_available: TokenAmount,
}

/// The one movement of funds that collects a fee.
#[derive(Debug, PartialEq, Eq)]
pub enum Charge {
    /// Accept `amount` of the cycles attached to the call. What is not
    /// accepted goes back to the caller.
    AttachedCycles { amount: TokenAmount },
    /// Withdraw cycles from the cycles ledger to the vendor's cycles balance.
    Withdraw(Withdrawal),
    /// Transfer tokens on a ledger to the vendor's account there.
    Transfer(Transfer),
}

impl Charge {
    /// Whether this charge collects `fee` for the call in `context` in the
    /// way `payment`: the whole fee goes to the vendor, from the payer that
    /// `payment` means, on the ledger that it means. A patron is never the
    /// vendor, and pays under the subaccount derived from the caller,
    /// whatever subaccount the caller may have named.
    pub open spec fn collects(self, context: PaymentContext, payment: PaymentType, fee: TokenAmount) -> bool {
        let vendor = context.own_canister_id;
        let callers_main_account = Account { owner: context.caller, subaccount: None };
        let vendors_main_account = Account { owner: vendor, subaccount: None };
        match (payment, self) {
            (PaymentType::AttachedCycles, Charge::AttachedCycles { amount }) => {
                &&& amount == fee
                &&& fee <= context.cycles_available
            },
            (PaymentType::CallerPaysIcrc2Cycles, Charge::Withdraw(withdrawal)) => {
                &&& withdrawal.ledger == cycles_ledger()
                &&& withdrawal.args.to == vendor
                &&& withdrawal.args.amount == fee
                &&& withdrawal.args.from == callers_main_account
                &&& withdrawal.args.spender_subaccount.is_none()
            },
            (PaymentType::PatronPaysIcrc2Cycles(patron), Charge::Withdraw(withdrawal)) => {
                &&& patron.owner != vendor
                &&& withdrawal.ledger == cycles_ledger()
                &&& withdrawal.args.to == vendor
                &&& withdrawal.args.amount == fee
                &&& withdrawal.args.from == patron
                &&& withdrawal.args.spender_subaccount == Some(derived_subaccount(context.caller))
            },
            (PaymentType::CallerPaysIcrc2Tokens(tokens), Charge::Transfer(transfer)) => {
                &&& transfer.ledger == tokens.ledger
                &&& transfer.args.to == vendors_main_account
                &&& transfer.args.amount == fee
                &&& transfer.args.from == callers_main_account
                &&& transfer.args.spender_subaccount.is_none()
            },
            (PaymentType::PatronPaysIcrc2Tokens(tokens), Charge::Transfer(transfer)) => {
                &&& tokens.patron.owner != vendor
                &&& transfer.ledger == tokens.ledger
                &&& transfer.args.to == vendors_main_account
                &&& transfer.args.amount == fee
                &&& transfer.args.from == tokens.patron
                &&& transfer.args.spender_subaccount == Some(derived_subaccount(context.caller))
            },
            _ => false,
        }
    }
}

/// A guard for one way of paying.
pub trait PaymentGuard {
    /// What `deduct` decides.
    spec fn charge(&self, context: PaymentContext, fee: TokenAmount) -> Result<Charge, PaymentError>;

    /// Decides how `fee` is to be collected for the call in `context`: the
    /// charge to perform, or why there is none.
    fn deduct(&self, context: PaymentContext, fee: TokenAmount) -> (r: Result<Charge, PaymentError>)
        ensures
            r == self.charge(context, fee),
    ;
}

/// A guard that lets the caller choose how to pay.
pub trait PaymentGuard2 {
    /// What `deduct` decides.
    spec fn charge(&self, context: PaymentContext, payment: PaymentType, fee: TokenAmount) -> Result<
        Charge,
        PaymentError,
    >;

    /// Decides how `fee` is to be collected, in the way that the caller
    /// chose, for the call in `context`: the charge to perform, or why there
    /// is none.
    fn deduct(&self, context: PaymentContext, payment: PaymentType, fee: TokenAmount) -> (r: Result<
        Charge,
        PaymentError,
    >)
        ensures
            r == self.charge(context, payment, fee),
    ;
}

} // verus!
