//! A bridge that charges a fee and then forwards a call: its errors and its
//! configuration.

use crate::caller::PaymentType;
use crate::guards::any::VendorPaymentConfig;
use crate::principal::Principal;
use vstd::prelude::*;
use vstd::string::StringExecFns;

verus! {

/// Why the bridge did not forward a call, or what came of forwarding it.
#[derive(Debug, PartialEq, Eq)]
pub enum BridgeError {
    /// The arguments could not be encoded or decoded.
    Candid(String),
    /// The target rejected the forwarded call.
    TargetRejected(String),
    /// The fee was not paid.
    GuardError(String),
}

impl BridgeError {
    /// The error as text: its kind, a colon and a space, and its message.
    pub open spec fn text(self) -> Seq<char> {
        match self {
            BridgeError::Candid(e) => "Candid: "@ + e@,
            BridgeError::TargetRejected(e) => "TargetRejected: "@ + e@,
            BridgeError::GuardError(e) => "GuardError: "@ + e@,
        }
    }

    /// The error as text.
    pub fn to_string(&self) -> (r: String)
        ensures
            r@ == self.text(),
    {
        match self {
            BridgeError::Candid(e) => String::from_str("Candid: ").concat(e.as_str()),
            BridgeError::TargetRejected(e) => String::from_str("TargetRejected: ").concat(
                e.as_str(),
            ),
            BridgeError::GuardError(e) => String::from_str("GuardError: ").concat(e.as_str()),
        }
    }
}

/// `format!("{e:?}")`: the value as its `Debug` impl writes it. What that
/// is lies with the impl, so nothing is said of it.
#[verifier::external_body]
fn debug_text<E: core::fmt::Debug>(e: &E) -> (r: String) {
    format!("{e:?}")
}

/// The text of the bridge's error for a fee that was not paid: `GuardError: `
/// and then the guard's error as its `Debug` impl writes it.
pub fn map_guard_err<E: core::fmt::Debug>(e: E) -> (r: String)
    ensures
        "GuardError: "@.is_prefix_of(r@),
{
    let message = debug_text(&e);
    BridgeError::GuardError(message).to_string()
}

/// The way of paying for a bridged call: the one that the caller names, and
/// attached cycles where it names none.
pub fn payment_or_default(payment: Option<PaymentType>) -> (r: PaymentType)
    ensures
        r == (match payment {
            Some(named) => named,
            None => PaymentType::AttachedCycles,
        }),
{
    match payment {
        Some(named) => named,
        None => PaymentType::AttachedCycles,
    }
}

/// What a fee is counted in.
#[derive(Clone, Copy, Debug, PartialEq, Eq)]
pub enum FeeDenom {
    Cycles,
    Icrc2 { ledger: Principal },
}

/// A fee: an amount of cycles or of a token.
#[derive(Clone, Copy, Debug, PartialEq, Eq)]
pub struct FeeSpec {
    pub amount: u128,
    pub denom: FeeDenom,
}

/// What a bridged method costs, how it can be paid for, and the cycles that
/// go on to the target.
#[derive(Debug, PartialEq, Eq)]
pub struct MethodConfig {
    pub fee: FeeSpec,
    pub supported: Vec<VendorPaymentConfig>,
    pub forward_cycles: Option<u128>,
}

/// A method of a canister.
#[derive(Debug, PartialEq, Eq)]
pub struct MethodKey {
    pub target: Principal,
    pub method: String,
}

} // verus!
