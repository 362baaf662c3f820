//! Payment with cycles that a patron has approved for the caller.

use crate::account::{derived_subaccount, principal2account, Account};
use crate::caller::TokenAmount;
use crate::cycles::{cycles_ledger, cycles_ledger_canister_id};
use crate::error::PaymentError;
use crate::guards::{Charge, PaymentContext, PaymentGuard};
use crate::ledger::{WithdrawFromArgs, Withdrawal};
use vstd::prelude::*;

verus! {

/// Charges a patron's account on the cycles ledger for the caller.
///
/// The cycles are withdrawn to the vendor's own cycles balance, under the
/// approval that the patron gave to the vendor's subaccount for this caller.
#[derive(Clone, Copy, Debug, PartialEq, Eq)]
pub struct PatronPaysIcrc2CyclesPaymentGuard {
    /// The patron who pays for the caller.
    pub patron: Account,
}

impl PatronPaysIcrc2CyclesPaymentGuard {
    /// The vendor is nobody's patron. From any other patron the fee is
    /// withdrawn to the vendor, under the subaccount derived from the caller.
    pub open spec fn decision(self, context: PaymentContext, fee: TokenAmount) -> Result<
        Charge,
        PaymentError,
    > {
        if self.patron.owner == context.own_canister_id {
            Err(PaymentError::InvalidPatron)
        } else {
            Ok(
                Charge::Withdraw(
                    Withdrawal {
                        ledger: cycles_ledger(),
                        args: WithdrawFromArgs {
                            to: context.own_canister_id,
                            amount: fee,
                            from: self.patron,
                            spender_subaccount: Some(derived_subaccount(context.caller)),
                            created_at_time: None,
                        },
                    },
                ),
            )
        }
    }
}

impl PaymentGuard for PatronPaysIcrc2CyclesPaymentGuard {
    open spec fn charge(&self, context: PaymentContext, fee: TokenAmount) -> Result<
        Charge,
        PaymentError,
    > {
        self.decision(context, fee)
    }

    fn deduct(&self, context: PaymentContext, fee: TokenAmount) -> (r: Result<Charge, PaymentError>)
        ensures
            self.patron.owner == context.own_canister_id ==> (r matches Err(PaymentError::InvalidPatron)),
            self.patron.owner != context.own_canister_id ==> r.is_ok(),
    {
        let spender_subaccount = Some(principal2account(&context.caller));
        if self.patron.owner == context.own_canister_id {
            return Err(PaymentError::InvalidPatron);
        }
        Ok(
            Charge::Withdraw(
                Withdrawal {
                    ledger: cycles_ledger_canister_id(),
                    args: WithdrawFromArgs {
                        to: context.own_canister_id,
                        amount: fee,
                        from: self.patron,
                        spender_subaccount,
                        created_at_time: None,
                    },
                },
            ),
        )
    }
}

} // verus!
