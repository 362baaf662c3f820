//! Payment with tokens that a patron has approved for the caller.

use crate::account::{derived_subaccount, principal2account, Account};
use crate::caller::TokenAmount;
use crate::error::PaymentError;
use crate::guards::{Charge, PaymentContext, PaymentGuard};
use crate::ledger::{Transfer, TransferFromArgs};
use crate::principal::Principal;
use vstd::prelude::*;

verus! {

/// Charges a patron's account on an ICRC-2 ledger for the caller.
///
/// The tokens go to the vendor's main account on that ledger, under the
/// approval that the patron gave to the vendor's subaccount for this caller.
#[derive(Clone, Copy, Debug, PartialEq, Eq)]
pub struct PatronPaysIcrc2TokensPaymentGuard {
    /// The ledger of the token.
    pub ledger: Principal,
    /// The patron who pays for the caller.
    pub patron: Account,
}

impl PatronPaysIcrc2TokensPaymentGuard {
    /// The vendor is nobody's patron. From any other patron the fee is
    /// transferred to the vendor's main account, under the subaccount derived
    /// from the caller.
    pub open spec fn decision(self, context: PaymentContext, fee: TokenAmount) -> Result<
        Charge,
        PaymentError,
    > {
        if self.patron.owner == context.own_canister_id {
            Err(PaymentError::InvalidPatron)
        } else {
            Ok(
                Charge::Transfer(
                    Transfer {
                        ledger: self.ledger,
                        args: TransferFromArgs {
                            from: self.patron,
                            to: Account { owner: context.own_canister_id, subaccount: None },
                            amount: fee,
                            spender_subaccount: Some(derived_subaccount(context.caller)),
                            created_at_time: None,
                            memo: None,
                            fee: None,
                        },
                    },
                ),
            )
        }
    }
}

impl PaymentGuard for PatronPaysIcrc2TokensPaymentGuard {
    open spec fn charge(&self, context: PaymentContext, fee: TokenAmount) -> Result<
        Charge,
        PaymentError,
    > {
        self.decision(context, fee)
    }

    fn deduct(&self, context: PaymentContext, fee: TokenAmount) -> (r: Result<Charge, PaymentError>)
        ensures
            self.patron.owner == context.own_canister_id ==> (r matches Err(PaymentError::InvalidPatron)),
            self.patron.owner != context.own_canister_id ==> r.is_ok(),
    {
        let spender_subaccount = principal2account(&context.caller);
        if self.patron.owner == context.own_canister_id {
            return Err(PaymentError::InvalidPatron);
        }
        Ok(
            Charge::Transfer(
                Transfer {
                    ledger: self.ledger,
                    args: TransferFromArgs {
                        from: self.patron,
                        to: Account { owner: context.own_canister_id, subaccount: None },
                        amount: fee,
                        spender_subaccount: Some(spender_subaccount),
                        created_at_time: None,
                        memo: None,
                        fee: None,
                    },
                },
            ),
        )
    }
}

} // verus!
