//! Why a payment was not made.

use crate::caller::TokenAmount;
use crate::ledger::{TransferFromError, WithdrawFromError};
use crate::principal::Principal;
use vstd::prelude::*;

verus! {

/// Why a payment was not made. Whatever the reason, no funds have moved.
#[derive(Debug, PartialEq, Eq)]
#[allow(inconsistent_fields)]
pub enum PaymentError {
    /// The vendor does not accept the way of paying that the caller chose.
    UnsupportedPaymentType,
    /// The caller named the vendor itself as its patron.
    InvalidPatron,
    /// The call to the ledger never completed.
    LedgerUnreachable { ledger: Principal },
    /// The ledger refused the withdrawal.
    LedgerWithdrawFromError { ledger: Principal, error: WithdrawFromError },
    /// The ledger refused the transfer.
    LedgerTransferFromError { ledger: Principal, error: TransferFromError },
    /// Fewer cycles were attached to the call than the fee.
    InsufficientFunds { needed: TokenAmount, available: TokenAmount },
}

} // verus!
