//! Payment with tokens that the caller has approved on an ICRC-2 ledger.

use crate::account::Account;
use crate::caller::TokenAmount;
use crate::error::PaymentError;
use crate::guards::{Charge, PaymentContext, PaymentGuard};
use crate::ledger::{Transfer, TransferFromArgs};
use crate::principal::Principal;
use vstd::prelude::*;

verus! {

/// Charges the caller's main account on an ICRC-2 ledger.
///
/// The tokens go to the vendor's main account on that ledger.
#[derive(Clone, Copy, Debug, PartialEq, Eq)]
pub struct CallerPaysIcrc2TokensPaymentGuard {
    /// The ledger of the token.
    pub ledger: Principal,
}

impl CallerPaysIcrc2TokensPaymentGuard {
    /// The fee is transferred from the caller's main account to the vendor's
    /// main account, under the approval that the caller gave to the vendor's
    /// main account.
    pub open spec fn decision(self, context: PaymentContext, fee: TokenAmount) -> Result<
        Charge,
        PaymentError,
    > {
        Ok(
            Charge::Transfer(
                Transfer {
                    ledger: self.ledger,
                    args: TransferFromArgs {
                        from: Account { owner: context.caller, subaccount: None },
                        to: Account { owner: context.own_canister_id, subaccount: None },
                        amount: fee,
                        spender_subaccount: None,
                        created_at_time: None,
                        memo: None,
                        fee: None,
                    },
                },
            ),
        )
    }
}

impl PaymentGuard for CallerPaysIcrc2TokensPaymentGuard {
    open spec fn charge(&self, context: PaymentContext, fee: TokenAmount) -> Result<
        Charge,
        PaymentError,
    > {
        self.decision(context, fee)
    }

    fn deduct(&self, context: PaymentContext, fee: TokenAmount) -> (r: Result<Charge, PaymentError>) {
        Ok(
            Charge::Transfer(
                Transfer {
                    ledger: self.ledger,
                    args: TransferFromArgs {
                        from: Account { owner: context.caller, subaccount: None },
                        to: Account { owner: context.own_canister_id, subaccount: None },
                        amount: fee,
                        spender_subaccount: None,
                        created_at_time: None,
                        memo: None,
                        fee: None,
                    },
                },
            ),
        )
    }
}

} // verus!
