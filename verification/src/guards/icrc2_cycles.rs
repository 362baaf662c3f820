//! Payment with cycles from any account on the cycles ledger.

use crate::account::{Account, Subaccount};
use crate::caller::TokenAmount;
use crate::cycles::{cycles_ledger, cycles_ledger_canister_id};
use crate::error::PaymentError;
use crate::guards::{Charge, PaymentContext, PaymentGuard};
use crate::ledger::{WithdrawFromArgs, Withdrawal};
use crate::principal::Principal;
use vstd::prelude::*;

verus! {

/// Charges a given account on the cycles ledger, under a given subaccount of
/// the spender.
///
/// The cycles are withdrawn to the vendor's own cycles balance, which only
/// the cycles ledger can do: it is no part of ICRC-2.
#[derive(Clone, Copy, Debug, PartialEq, Eq)]
pub struct Icrc2CyclesPaymentGuard {
    /// The account that pays.
    pub payer_account: Account,
    /// The spender's subaccount, where the spender is not the payer.
    pub spender_subaccount: Option<Subaccount>,
    /// The vendor.
    pub own_canister_id: Principal,
}

impl Icrc2CyclesPaymentGuard {
    /// The account that pays where none is named: the caller's main account.
    #[must_use]
    pub fn default_account(context: PaymentContext) -> (r: Account)
        ensures
            r == (Account { owner: context.caller, subaccount: None }),
    {
        Account { owner: context.caller, subaccount: None }
    }

    /// The cycles ledger that is charged where none is named: the one on
    /// mainnet.
    #[must_use]
    pub fn default_cycles_ledger() -> (r: Principal)
        ensures
            r == cycles_ledger(),
    {
        cycles_ledger_canister_id()
    }

    /// The guard for a call where nothing else is said: the caller's main
    /// account pays the vendor of the call.
    pub fn new(context: PaymentContext) -> (r: Icrc2CyclesPaymentGuard)
        ensures
            r == (Icrc2CyclesPaymentGuard {
                payer_account: Account { owner: context.caller, subaccount: None },
                spender_subaccount: None,
                own_canister_id: context.own_canister_id,
            }),
    {
        Icrc2CyclesPaymentGuard {
            payer_account: Icrc2CyclesPaymentGuard::default_account(context),
            own_canister_id: context.own_canister_id,
            spender_subaccount: None,
        }
    }

    /// The vendor does not pay itself. From any other payer the fee is
    /// withdrawn to the vendor, under the spender's subaccount.
    pub open spec fn decision(self, context: PaymentContext, fee: TokenAmount) -> Result<
        Charge,
        PaymentError,
    > {
        if self.payer_account.owner == self.own_canister_id {
            Err(PaymentError::InvalidPatron)
        } else {
            Ok(
                Charge::Withdraw(
                    Withdrawal {
                        ledger: cycles_ledger(),
                        args: WithdrawFromArgs {
                            to: self.own_canister_id,
                            amount: fee,
                            from: self.payer_account,
                            spender_subaccount: self.spender_subaccount,
                            created_at_time: None,
                        },
                    },
                ),
            )
        }
    }
}

impl PaymentGuard for Icrc2CyclesPaymentGuard {
    open spec fn charge(&self, context: PaymentContext, fee: TokenAmount) -> Result<
        Charge,
        PaymentError,
    > {
        self.decision(context, fee)
    }

    fn deduct(&self, context: PaymentContext, fee: TokenAmount) -> (r: Result<Charge, PaymentError>)
        ensures
            self.payer_account.owner == self.own_canister_id ==> (r matches Err(
                PaymentError::InvalidPatron,
            )),
            self.payer_account.owner != self.own_canister_id ==> r.is_ok(),
    {
        if self.payer_account.owner == self.own_canister_id {
            return Err(PaymentError::InvalidPatron);
        }
        Ok(
            Charge::Withdraw(
                Withdrawal {
                    ledger: cycles_ledger_canister_id(),
                    args: WithdrawFromArgs {
                        to: self.own_canister_id,
                        amount: fee,
                        from: self.payer_account,
                        spender_subaccount: self.spender_subaccount,
                        created_at_time: None,
                    },
                },
            ),
        )
    }
}

} // verus!
