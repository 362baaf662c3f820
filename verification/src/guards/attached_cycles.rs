//! Payment with cycles attached to the call.

use crate::caller::TokenAmount;
use crate::error::PaymentError;
use crate::guards::{Charge, PaymentContext, PaymentGuard};
use vstd::prelude::*;

verus! {

/// Charges the cycles that came attached to the call.
#[derive(Clone, Copy, Default, Debug, PartialEq, Eq)]
pub struct AttachedCyclesPayment {}

impl AttachedCyclesPayment {
    /// Exactly the fee is accepted where at least the fee is attached.
    pub open spec fn decision(self, context: PaymentContext, fee: TokenAmount) -> Result<
        Charge,
        PaymentError,
    > {
        if context.cycles_available >= fee {
            Ok(Charge::AttachedCycles { amount: fee })
        } else {
            Err(PaymentError::InsufficientFunds { needed: fee, available: context.cycles_available })
        }
    }
}

impl PaymentGuard for AttachedCyclesPayment {
    open spec fn charge(&self, context: PaymentContext, fee: TokenAmount) -> Result<
        Charge,
        PaymentError,
    > {
        self.decision(context, fee)
    }

    fn deduct(&self, context: PaymentContext, fee: TokenAmount) -> (r: Result<Charge, PaymentError>)
        ensures
            context.cycles_available >= fee ==> (r matches Ok(Charge::AttachedCycles { amount })
                && amount == fee),
            context.cycles_available < fee ==> (r matches Err(
                PaymentError::InsufficientFunds { needed, available },
            ) && needed == fee && available == context.cycles_available),
    {
        let available = context.cycles_available;
        if available < fee {
            return Err(PaymentError::InsufficientFunds { needed: fee, available });
        }
        Ok(Charge::AttachedCycles { amount: fee })
    }
}

} // verus!
