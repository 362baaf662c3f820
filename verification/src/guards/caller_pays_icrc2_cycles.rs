//! Payment with cycles that the caller has approved on the cycles ledger.

use crate::account::Account;
use crate::caller::TokenAmount;
use crate::cycles::{cycles_ledger, cycles_ledger_canister_id};
use crate::error::PaymentError;
use crate::guards::{Charge, PaymentContext, PaymentGuard};
use crate::ledger::{WithdrawFromArgs, Withdrawal};
use vstd::prelude::*;

verus! {

/// Charges the caller's main account on the cycles ledger.
///
/// The cycles are withdrawn to the vendor's own cycles balance, which only
/// the cycles ledger can do: it is no part of ICRC-2.
#[derive(Clone, Copy, Default, Debug, PartialEq, Eq)]
pub struct CallerPaysIcrc2CyclesPaymentGuard {}

impl CallerPaysIcrc2CyclesPaymentGuard {
    /// The fee is withdrawn from the caller's main account to the vendor,
    /// under the approval that the caller gave to the vendor's main account.
    pub open spec fn decision(self, context: PaymentContext, fee: TokenAmount) -> Result<
        Charge,
        PaymentError,
    > {
        Ok(
            Charge::Withdraw(
                Withdrawal {
                    ledger: cycles_ledger(),
                    args: WithdrawFromArgs {
                        to: context.own_canister_id,
                        amount: fee,
                        from: Account { owner: context.caller, subaccount: None },
                        spender_subaccount: None,
                        created_at_time: None,
                    },
                },
            ),
        )
    }
}

impl PaymentGuard for CallerPaysIcrc2CyclesPaymentGuard {
    open spec fn charge(&self, context: PaymentContext, fee: TokenAmount) -> Result<
        Charge,
        PaymentError,
    > {
        self.decision(context, fee)
    }

    fn deduct(&self, context: PaymentContext, fee: TokenAmount) -> (r: Result<Charge, PaymentError>) {
        let payer_account = Account { owner: context.caller, subaccount: None };
        Ok(
            Charge::Withdraw(
                Withdrawal {
                    ledger: cycles_ledger_canister_id(),
                    args: WithdrawFromArgs {
                        to: context.own_canister_id,
                        amount: fee,
                        from: payer_account,
                        spender_subaccount: None,
                        created_at_time: None,
                    },
                },
            ),
        )
    }
}

} // verus!
