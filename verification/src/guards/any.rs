//! Payment in whichever way the caller chooses, among those the vendor accepts.

use crate::caller::{
    CallerPaysIcrc2Tokens, PatronPaysIcrc2Cycles, PatronPaysIcrc2Tokens, PaymentType, TokenAmount,
};
use crate::error::PaymentError;
use crate::guards::attached_cycles::AttachedCyclesPayment;
use crate::guards::caller_pays_icrc2_cycles::CallerPaysIcrc2CyclesPaymentGuard;
use crate::guards::caller_pays_icrc2_tokens::CallerPaysIcrc2TokensPaymentGuard;
use crate::guards::patron_pays_icrc2_cycles::PatronPaysIcrc2CyclesPaymentGuard;
use crate::guards::patron_pays_icrc2_tokens::PatronPaysIcrc2TokensPaymentGuard;
use crate::guards::{Charge, PaymentContext, PaymentGuard, PaymentGuard2};
use crate::principal::Principal;
use vstd::prelude::*;
use vstd::std_specs::cmp::PartialEqSpecImpl;

verus! {

/// A way of paying that a vendor accepts. For tokens, the ledger is part of
/// it: tokens on another ledger are another way of paying.
#[derive(Clone, Copy, Debug, Eq)]
pub enum VendorPaymentConfig {
    /// Cycles attached to the call.
    AttachedCycles,
    /// Cycles from the caller's account on the cycles ledger.
    CallerPaysIcrc2Cycles,
    /// Cycles from a patron's account on the cycles ledger.
    PatronPaysIcrc2Cycles,
    /// Tokens from the caller's account on `ledger`, to the vendor's main
    /// account there.
    CallerPaysIcrc2Tokens { ledger: Principal },
    /// Tokens from a patron's account on `ledger`, to the vendor's main
    /// account there.
    PatronPaysIcrc2Tokens { ledger: Principal },
}

impl PartialEq for VendorPaymentConfig {
    fn eq(&self, other: &VendorPaymentConfig) -> (r: bool) {
        match (self, other) {
            (VendorPaymentConfig::AttachedCycles, VendorPaymentConfig::AttachedCycles) => true,
            (
                VendorPaymentConfig::CallerPaysIcrc2Cycles,
                VendorPaymentConfig::CallerPaysIcrc2Cycles,
            ) => true,
            (
                VendorPaymentConfig::PatronPaysIcrc2Cycles,
                VendorPaymentConfig::PatronPaysIcrc2Cycles,
            ) => true,
            (
                VendorPaymentConfig::CallerPaysIcrc2Tokens { ledger: mine },
                VendorPaymentConfig::CallerPaysIcrc2Tokens { ledger: theirs },
            ) => mine == theirs,
            (
                VendorPaymentConfig::PatronPaysIcrc2Tokens { ledger: mine },
                VendorPaymentConfig::PatronPaysIcrc2Tokens { ledger: theirs },
            ) => mine == theirs,
            _ => false,
        }
    }
}

impl PartialEqSpecImpl for VendorPaymentConfig {
    open spec fn obeys_eq_spec() -> bool {
        true
    }

    open spec fn eq_spec(&self, other: &VendorPaymentConfig) -> bool {
        *self == *other
    }
}

/// A caller's way of paying that the vendor accepts: what is to be settled.
#[derive(Clone, Copy, Debug, PartialEq, Eq)]
pub enum PaymentWithConfig {
    AttachedCycles,
    CallerPaysIcrc2Cycles,
    PatronPaysIcrc2Cycles(PatronPaysIcrc2Cycles),
    CallerPaysIcrc2Tokens(CallerPaysIcrc2Tokens),
    PatronPaysIcrc2Tokens(PatronPaysIcrc2Tokens),
}

impl PaymentType {
    /// What a vendor must accept for this way of paying to be taken: the same
    /// kind of payment and, for tokens, the same ledger.
    pub open spec fn needed_config(self) -> VendorPaymentConfig {
        match self {
            PaymentType::AttachedCycles => VendorPaymentConfig::AttachedCycles,
            PaymentType::CallerPaysIcrc2Cycles => VendorPaymentConfig::CallerPaysIcrc2Cycles,
            PaymentType::PatronPaysIcrc2Cycles(_) => VendorPaymentConfig::PatronPaysIcrc2Cycles,
            PaymentType::CallerPaysIcrc2Tokens(payment) => VendorPaymentConfig::CallerPaysIcrc2Tokens {
                ledger: payment.ledger,
            },
            PaymentType::PatronPaysIcrc2Tokens(payment) => VendorPaymentConfig::PatronPaysIcrc2Tokens {
                ledger: payment.ledger,
            },
        }
    }

    /// This way of paying, once accepted: with the patron and the ledger
    /// that the caller named.
    pub open spec fn accepted(self) -> PaymentWithConfig {
        match self {
            PaymentType::AttachedCycles => PaymentWithConfig::AttachedCycles,
            PaymentType::CallerPaysIcrc2Cycles => PaymentWithConfig::CallerPaysIcrc2Cycles,
            PaymentType::PatronPaysIcrc2Cycles(patron) => PaymentWithConfig::PatronPaysIcrc2Cycles(
                patron,
            ),
            PaymentType::CallerPaysIcrc2Tokens(payment) => PaymentWithConfig::CallerPaysIcrc2Tokens(
                payment,
            ),
            PaymentType::PatronPaysIcrc2Tokens(payment) => PaymentWithConfig::PatronPaysIcrc2Tokens(
                payment,
            ),
        }
    }
}

impl PaymentWithConfig {
    /// What the guard for this payment decides.
    pub open spec fn decision(self, context: PaymentContext, fee: TokenAmount) -> Result<
        Charge,
        PaymentError,
    > {
        match self {
            PaymentWithConfig::AttachedCycles => AttachedCyclesPayment {  }.decision(context, fee),
            PaymentWithConfig::CallerPaysIcrc2Cycles => CallerPaysIcrc2CyclesPaymentGuard {  }.decision(
                context,
                fee,
            ),
            PaymentWithConfig::PatronPaysIcrc2Cycles(patron) => PatronPaysIcrc2CyclesPaymentGuard {
                patron,
            }.decision(context, fee),
            PaymentWithConfig::CallerPaysIcrc2Tokens(payment) => CallerPaysIcrc2TokensPaymentGuard {
                ledger: payment.ledger,
            }.decision(context, fee),
            PaymentWithConfig::PatronPaysIcrc2Tokens(payment) => PatronPaysIcrc2TokensPaymentGuard {
                ledger: payment.ledger,
                patron: payment.patron,
            }.decision(context, fee),
        }
    }
}

/// A guard that takes whichever way of paying the caller chooses, provided
/// that the vendor accepts it.
#[derive(Clone, Copy, Debug, PartialEq, Eq)]
pub struct AnyPaymentGuard<const CAP: usize> {
    /// The ways of paying that the vendor accepts.
    pub supported: [VendorPaymentConfig; CAP],
}

impl<const CAP: usize> AnyPaymentGuard<CAP> {
    /// Whether the vendor accepts `config`: whether it is listed.
    pub open spec fn accepts(self, config: VendorPaymentConfig) -> bool {
        self.supported@.contains(config)
    }

    /// The caller's way of paying as the vendor accepts it, if it does.
    pub open spec fn resolve(self, payment: PaymentType) -> Option<PaymentWithConfig> {
        if self.accepts(payment.needed_config()) {
            Some(payment.accepted())
        } else {
            None
        }
    }

    /// Whether `config` is listed.
    fn lists(&self, config: VendorPaymentConfig) -> (r: bool)
        ensures
            r == self.accepts(config),
    {
        let mut i: usize = 0;
        while i < CAP
            invariant
                i <= CAP,
                self.supported@.len() == CAP,
                forall|j: int| 0 <= j < i ==> self.supported@[j] != config,
            decreases CAP - i,
        {
            if self.supported[i] == config {
                return true;
            }
            i += 1;
        }
        false
    }

    /// Finds the vendor's configuration for the way of paying that the
    /// caller chose: `None` where the vendor does not accept it.
    #[must_use]
    pub fn config(&self, payment: PaymentType) -> (r: Option<PaymentWithConfig>)
        ensures
            r == self.resolve(payment),
            r.is_some() <==> self.accepts(payment.needed_config()),
    {
        match payment {
            PaymentType::AttachedCycles => {
                if self.lists(VendorPaymentConfig::AttachedCycles) {
                    Some(PaymentWithConfig::AttachedCycles)
                } else {
                    None
                }
            },
            PaymentType::CallerPaysIcrc2Cycles => {
                if self.lists(VendorPaymentConfig::CallerPaysIcrc2Cycles) {
                    Some(PaymentWithConfig::CallerPaysIcrc2Cycles)
                } else {
                    None
                }
            },
            PaymentType::PatronPaysIcrc2Cycles(patron) => {
                if self.lists(VendorPaymentConfig::PatronPaysIcrc2Cycles) {
                    Some(PaymentWithConfig::PatronPaysIcrc2Cycles(patron))
                } else {
                    None
                }
            },
            PaymentType::CallerPaysIcrc2Tokens(payment_type) => {
                if self.lists(VendorPaymentConfig::CallerPaysIcrc2Tokens { ledger: payment_type.ledger }) {
                    Some(PaymentWithConfig::CallerPaysIcrc2Tokens(payment_type))
                } else {
                    None
                }
            },
            PaymentType::PatronPaysIcrc2Tokens(payment_type) => {
                if self.lists(VendorPaymentConfig::PatronPaysIcrc2Tokens { ledger: payment_type.ledger }) {
                    Some(PaymentWithConfig::PatronPaysIcrc2Tokens(payment_type))
                } else {
                    None
                }
            },
        }
    }
}

impl<const CAP: usize> PaymentGuard2 for AnyPaymentGuard<CAP> {
    /// A way of paying that the vendor does not accept is refused. For one
    /// that it accepts, the guard for that way of paying decides.
    open spec fn charge(&self, context: PaymentContext, payment: PaymentType, fee: TokenAmount) -> Result<
        Charge,
        PaymentError,
    > {
        match self.resolve(payment) {
            Some(accepted) => accepted.decision(context, fee),
            None => Err(PaymentError::UnsupportedPaymentType),
        }
    }

    fn deduct(&self, context: PaymentContext, payment: PaymentType, fee: TokenAmount) -> (r: Result<
        Charge,
        PaymentError,
    >)
        ensures
            !self.accepts(payment.needed_config()) ==> (r matches Err(
                PaymentError::UnsupportedPaymentType,
            )),
            self.accepts(payment.needed_config()) && payment.patron().is_some()
                && payment.patron().unwrap().owner == context.own_canister_id ==> (r matches Err(
                PaymentError::InvalidPatron,
            )),
    {
        let payment_config = match self.config(payment) {
            Some(payment_config) => payment_config,
            None => { return Err(PaymentError::UnsupportedPaymentType); },
        };
        match payment_config {
            PaymentWithConfig::AttachedCycles => AttachedCyclesPayment {  }.deduct(context, fee),
            PaymentWithConfig::CallerPaysIcrc2Cycles => CallerPaysIcrc2CyclesPaymentGuard {  }.deduct(
                context,
                fee,
            ),
            PaymentWithConfig::PatronPaysIcrc2Cycles(patron) => PatronPaysIcrc2CyclesPaymentGuard {
                patron,
            }.deduct(context, fee),
            PaymentWithConfig::CallerPaysIcrc2Tokens(CallerPaysIcrc2Tokens { ledger }) => {
                CallerPaysIcrc2TokensPaymentGuard { ledger }.deduct(context, fee)
            },
            PaymentWithConfig::PatronPaysIcrc2Tokens(payment_type) => PatronPaysIcrc2TokensPaymentGuard {
                ledger: payment_type.ledger,
                patron: payment_type.patron,
            }.deduct(context, fee),
        }
    }
}

/// Of every call, whatever the vendor accepts and whatever the caller
/// chooses: where the guard decides on a charge, the vendor accepts the
/// caller's choice and the charge collects the fee in that way; where it
/// refuses, it says why, and the reason is one that needs no ledger.
pub proof fn lemma_decision<const CAP: usize>(
    guard: AnyPaymentGuard<CAP>,
    context: PaymentContext,
    payment: PaymentType,
    fee: TokenAmount,
)
    ensures
        match guard.charge(context, payment, fee) {
            Ok(charge) => {
                &&& guard.accepts(payment.needed_config())
                &&& charge.collects(context, payment, fee)
            },
            Err(PaymentError::UnsupportedPaymentType) => !guard.accepts(payment.needed_config()),
            Err(PaymentError::InvalidPatron) => {
                &&& guard.accepts(payment.needed_config())
                &&& payment.patron().is_some()
                &&& payment.patron().unwrap().owner == context.own_canister_id
            },
            Err(PaymentError::InsufficientFunds { needed, available }) => {
                &&& guard.accepts(payment.needed_config())
                &&& payment == PaymentType::AttachedCycles
                &&& needed == fee
                &&& available == context.cycles_available
                &&& available < fee
            },
            Err(_) => false,
        },
{
}

/// A way of paying that the vendor does not list is refused as unsupported,
/// and nothing is charged.
pub proof fn lemma_unlisted_is_unsupported<const CAP: usize>(
    guard: AnyPaymentGuard<CAP>,
    context: PaymentContext,
    payment: PaymentType,
    fee: TokenAmount,
)
    requires
        !guard.supported@.contains(payment.needed_config()),
    ensures
        guard.charge(context, payment, fee) == Err::<Charge, PaymentError>(
            PaymentError::UnsupportedPaymentType,
        ),
{
}

/// Where the vendor accepts payment by a patron, a caller who names the
/// vendor as its patron is refused, and nothing is charged.
pub proof fn lemma_vendor_is_no_patron<const CAP: usize>(
    guard: AnyPaymentGuard<CAP>,
    context: PaymentContext,
    payment: PaymentType,
    fee: TokenAmount,
)
    requires
        guard.supported@.contains(payment.needed_config()),
        payment.patron().is_some(),
        payment.patron().unwrap().owner == context.own_canister_id,
    ensures
        guard.charge(context, payment, fee) == Err::<Charge, PaymentError>(
            PaymentError::InvalidPatron,
        ),
{
}

/// Where the vendor accepts attached cycles, the fee is the threshold: with
/// the fee or more attached, exactly the fee is accepted and the excess stays
/// with the caller; with less, nothing is accepted and the error tells the
/// fee and what was attached.
pub proof fn lemma_attached_cycles_threshold<const CAP: usize>(
    guard: AnyPaymentGuard<CAP>,
    context: PaymentContext,
    fee: TokenAmount,
)
    requires
        guard.supported@.contains(VendorPaymentConfig::AttachedCycles),
    ensures
        context.cycles_available >= fee ==> guard.charge(context, PaymentType::AttachedCycles, fee)
            == Ok::<Charge, PaymentError>(Charge::AttachedCycles { amount: fee }),
        context.cycles_available < fee ==> guard.charge(context, PaymentType::AttachedCycles, fee)
            == Err::<Charge, PaymentError>(
            PaymentError::InsufficientFunds { needed: fee, available: context.cycles_available },
        ),
{
}

} // verus!
