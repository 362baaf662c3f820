//! What a paid service is started with.

use crate::guards::any::{AnyPaymentGuard, VendorPaymentConfig};
use crate::principal::Principal;
use vstd::prelude::*;

verus! {

/// The arguments that a paid service is started with.
#[derive(Clone, Copy, Debug, PartialEq, Eq)]
pub struct InitArgs {
    /// The ledger whose tokens the service takes.
    pub ledger: Principal,
}

/// The ways of paying that a service started with `init_args` accepts, in
/// this order: attached cycles; cycles from the caller; cycles from a patron;
/// tokens on the service's ledger from the caller; the same from a patron.
pub open spec fn accepted_by_service(init_args: InitArgs) -> Seq<VendorPaymentConfig> {
    seq![
        VendorPaymentConfig::AttachedCycles,
        VendorPaymentConfig::CallerPaysIcrc2Cycles,
        VendorPaymentConfig::PatronPaysIcrc2Cycles,
        VendorPaymentConfig::CallerPaysIcrc2Tokens { ledger: init_args.ledger },
        VendorPaymentConfig::PatronPaysIcrc2Tokens { ledger: init_args.ledger },
    ]
}

/// The guard of a service started with `init_args`: it accepts every way of
/// paying, and tokens on the service's ledger only.
pub fn payment_guard(init_args: InitArgs) -> (r: AnyPaymentGuard<5>)
    ensures
        r.supported@ == accepted_by_service(init_args),
{
    let guard = AnyPaymentGuard {
        supported: [
            VendorPaymentConfig::AttachedCycles,
            VendorPaymentConfig::CallerPaysIcrc2Cycles,
            VendorPaymentConfig::PatronPaysIcrc2Cycles,
            VendorPaymentConfig::CallerPaysIcrc2Tokens { ledger: init_args.ledger },
            VendorPaymentConfig::PatronPaysIcrc2Tokens { ledger: init_args.ledger },
        ],
    };
    assert(guard.supported@ =~= accepted_by_service(init_args));
    guard
}

} // verus!
