//! The cycles ledger.

use crate::principal::Principal;
use vstd::prelude::*;

verus! {

/// The cycles ledger's canister id on mainnet, as text. Local test networks
/// give the cycles ledger the same id.
pub const MAINNET_CYCLES_LEDGER_CANISTER_ID: &'static str = "um5iw-rqaaa-aaaaq-qaaba-cai";

/// The bytes that `MAINNET_CYCLES_LEDGER_CANISTER_ID` is the text of.
pub const MAINNET_CYCLES_LEDGER_CANISTER_BYTES: [u8; 10] = [0, 0, 0, 0, 2, 16, 0, 2, 1, 1];

/// The cycles ledger's identity.
pub open spec fn cycles_ledger() -> Principal {
    Principal::of(MAINNET_CYCLES_LEDGER_CANISTER_BYTES@)
}

/// The cycles ledger's canister id on mainnet.
pub fn cycles_ledger_canister_id() -> (r: Principal)
    ensures
        r == cycles_ledger(),
{
    Principal::from_slice(MAINNET_CYCLES_LEDGER_CANISTER_BYTES.as_slice())
}

} // verus!
