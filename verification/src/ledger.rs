//! The two calls that a guard makes to a ledger, and what a ledger says back.

use crate::account::{Account, Subaccount};
use crate::caller::TokenAmount;
use crate::error::PaymentError;
use crate::principal::Principal;
use vstd::prelude::*;

verus! {

/// A natural number of any size, as ledgers report amounts and block
/// indices. Nothing of it is read here: it is handed on as it came.
#[verifier::external_type_specification]
#[verifier::external_body]
pub struct ExNat(candid::Nat);

/// The index of the block in which a ledger recorded a transaction.
pub type BlockIndex = candid::Nat;

/// Why the system rejected a call that a ledger made.
#[derive(Clone, Copy, Debug, PartialEq, Eq)]
pub enum RejectionCode {
    NoError,
    CanisterError,
    SysTransient,
    DestinationInvalid,
    Unknown,
    SysFatal,
    CanisterReject,
}

/// A withdrawal of approved cycles to a canister's own cycles balance.
#[derive(Clone, Copy, Debug, PartialEq, Eq)]
pub struct WithdrawFromArgs {
    /// The canister that receives the cycles.
    pub to: Principal,
    pub amount: TokenAmount,
    /// The account that pays.
    pub from: Account,
    /// The subaccount of the spender that the approval was given to.
    pub spender_subaccount: Option<Subaccount>,
    pub created_at_time: Option<u64>,
}

/// A transfer of approved tokens from one account on a ledger to another.
#[derive(Debug, PartialEq, Eq)]
pub struct TransferFromArgs {
    /// The account that receives the tokens.
    pub to: Account,
    pub fee: Option<TokenAmount>,
    /// The subaccount of the spender that the approval was given to.
    pub spender_subaccount: Option<Subaccount>,
    /// The account that pays.
    pub from: Account,
    pub memo: Option<Vec<u8>>,
    pub created_at_time: Option<u64>,
    pub amount: TokenAmount,
}

/// Why a ledger refused a withdrawal.
#[derive(Debug, PartialEq, Eq)]
pub enum WithdrawFromError {
    GenericError { message: String, error_code: candid::Nat },
    TemporarilyUnavailable,
    InsufficientAllowance { allowance: candid::Nat },
    Duplicate { duplicate_of: BlockIndex },
    InvalidReceiver { receiver: Principal },
    CreatedInFuture { ledger_time: u64 },
    TooOld,
    FailedToWithdrawFrom {
        withdraw_from_block: Option<candid::Nat>,
        rejection_code: RejectionCode,
        refund_block: Option<candid::Nat>,
        approval_refund_block: Option<candid::Nat>,
        rejection_reason: String,
    },
    InsufficientFunds { balance: candid::Nat },
}

/// Why a ledger refused a transfer.
#[derive(Debug, PartialEq, Eq)]
pub enum TransferFromError {
    GenericError { message: String, error_code: candid::Nat },
    TemporarilyUnavailable,
    InsufficientAllowance { allowance: candid::Nat },
    BadBurn { min_burn_amount: candid::Nat },
    Duplicate { duplicate_of: candid::Nat },
    BadFee { expected_fee: candid::Nat },
    CreatedInFuture { ledger_time: u64 },
    TooOld,
    InsufficientFunds { balance: candid::Nat },
}

/// How a call to a ledger ended.
#[derive(Debug, PartialEq, Eq)]
pub enum LedgerReply<E> {
    /// The call never completed: the ledger was not reached.
    Unreachable,
    /// The ledger answered: with the block it recorded, or with its refusal.
    Completed(Result<BlockIndex, E>),
}

/// A withdrawal to make on `ledger`.
#[derive(Clone, Copy, Debug, PartialEq, Eq)]
pub struct Withdrawal {
    pub ledger: Principal,
    pub args: WithdrawFromArgs,
}

/// A transfer to make on `ledger`.
#[derive(Debug, PartialEq, Eq)]
pub struct Transfer {
    pub ledger: Principal,
    pub args: TransferFromArgs,
}

impl Withdrawal {
    /// What the ledger's reply means for the payment: paid where the ledger
    /// recorded a block; else the error that names the ledger and, where the
    /// ledger refused, carries its refusal as it came.
    pub open spec fn outcome(self, reply: LedgerReply<WithdrawFromError>) -> Result<
        (),
        PaymentError,
    > {
        match reply {
            LedgerReply::Unreachable => Err(PaymentError::LedgerUnreachable { ledger: self.ledger }),
            LedgerReply::Completed(Ok(_)) => Ok(()),
            LedgerReply::Completed(Err(error)) => Err(
                PaymentError::LedgerWithdrawFromError { ledger: self.ledger, error },
            ),
        }
    }

    /// Turns the ledger's reply to this withdrawal into the payment's result.
    pub fn settle(&self, reply: LedgerReply<WithdrawFromError>) -> (r: Result<(), PaymentError>)
        ensures
            r == self.outcome(reply),
            r.is_ok() <==> (reply matches LedgerReply::Completed(Ok(_))),
    {
        match reply {
            LedgerReply::Unreachable => Err(PaymentError::LedgerUnreachable { ledger: self.ledger }),
            LedgerReply::Completed(Ok(_)) => Ok(()),
            LedgerReply::Completed(Err(error)) => Err(
                PaymentError::LedgerWithdrawFromError { ledger: self.ledger, error },
            ),
        }
    }
}

impl Transfer {
    /// What the ledger's reply means for the payment: paid where the ledger
    /// recorded a block; else the error that names the ledger and, where the
    /// ledger refused, carries its refusal as it came.
    pub open spec fn outcome(self, reply: LedgerReply<TransferFromError>) -> Result<
        (),
        PaymentError,
    > {
        match reply {
            LedgerReply::Unreachable => Err(PaymentError::LedgerUnreachable { ledger: self.ledger }),
            LedgerReply::Completed(Ok(_)) => Ok(()),
            LedgerReply::Completed(Err(error)) => Err(
                PaymentError::LedgerTransferFromError { ledger: self.ledger, error },
            ),
        }
    }

    /// Turns the ledger's reply to this transfer into the payment's result.
    pub fn settle(&self, reply: LedgerReply<TransferFromError>) -> (r: Result<(), PaymentError>)
        ensures
            r == self.outcome(reply),
            r.is_ok() <==> (reply matches LedgerReply::Completed(Ok(_))),
    {
        match reply {
            LedgerReply::Unreachable => Err(PaymentError::LedgerUnreachable { ledger: self.ledger }),
            LedgerReply::Completed(Ok(_)) => Ok(()),
            LedgerReply::Completed(Err(error)) => Err(
                PaymentError::LedgerTransferFromError { ledger: self.ledger, error },
            ),
        }
    }
}

} // verus!
