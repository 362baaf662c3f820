//! Payment with cycles from a given account on a given ledger.

use crate::account::Account;
use crate::caller::TokenAmount;
use crate::error::PaymentError;
use crate::guards::{Charge, PaymentContext, PaymentGuard};
use crate::ledger::{WithdrawFromArgs, Withdrawal};
use crate::principal::Principal;
use vstd::prelude::*;

verus! {

/// Charges a payer's account by a withdrawal on the ledger that is named.
#[derive(Clone, Copy, Debug, PartialEq, Eq)]
pub struct Icrc2FromCaller {
    /// The account that pays.
    pub payer: Account,
    /// The ledger that is charged.
    pub ledger_canister_id: Principal,
    /// The vendor.
    pub own_canister_id: Principal,
}

impl Icrc2FromCaller {
    /// The fee is withdrawn from the payer to the vendor, under the approval
    /// that the payer gave to the vendor's main account.
    pub open spec fn decision(self, context: PaymentContext, fee: TokenAmount) -> Result<
        Charge,
        PaymentError,
    > {
        Ok(
            Charge::Withdraw(
                Withdrawal {
                    ledger: self.ledger_canister_id,
                    args: WithdrawFromArgs {
                        to: self.own_canister_id,
                        amount: fee,
                        from: self.payer,
                        spender_subaccount: None,
                        created_at_time: None,
                    },
                },
            ),
        )
    }
}

impl PaymentGuard for Icrc2FromCaller {
    open spec fn charge(&self, context: PaymentContext, fee: TokenAmount) -> Result<
        Charge,
        PaymentError,
    > {
        self.decision(context, fee)
    }

    fn deduct(&self, context: PaymentContext, fee: TokenAmount) -> (r: Result<Charge, PaymentError>) {
        Ok(
            Charge::Withdraw(
                Withdrawal {
                    ledger: self.ledger_canister_id,
                    args: WithdrawFromArgs {
                        to: self.own_canister_id,
                        from: self.payer,
                        amount: fee,
                        spender_subaccount: None,
                        created_at_time: None,
                    },
                },
            ),
        )
    }
}

} // verus!
