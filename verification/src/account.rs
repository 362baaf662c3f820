//! Ledger accounts, and the subaccount that stands for a caller.

use crate::base16::{hex_decoding, hex_encoding, is_hex, lemma_hex_round_trip};
use crate::principal::{Principal, MAX_LENGTH_IN_BYTES};
use vstd::prelude::*;
use vstd::std_specs::cmp::PartialEqSpecImpl;

verus! {

/// One of the accounts that an owner has on a ledger.
pub type Subaccount = [u8; 32];

/// The subaccount of an owner's main account.
pub const SUB_ACCOUNT_ZERO: Subaccount = [
    0, 0, 0, 0, 0, 0, 0, 0, 0, 0, 0, 0, 0, 0, 0, 0, 0, 0, 0, 0, 0, 0, 0, 0, 0, 0, 0, 0, 0, 0, 0, 0,
];

/// What a ledger addresses: an owner and, optionally, one of its subaccounts.
///
/// An account without a subaccount is the owner's main account, the same
/// account as the one with the all-zero subaccount.
#[derive(Clone, Copy, Debug, Eq)]
pub struct Account {
    pub owner: Principal,
    pub subaccount: Option<Subaccount>,
}

impl Account {
    /// The subaccount that the ledger books under: all zero where none is given.
    pub open spec fn effective_subaccount(self) -> Subaccount {
        match self.subaccount {
            Some(subaccount) => subaccount,
            None => SUB_ACCOUNT_ZERO,
        }
    }

    /// Whether two accounts are the same account on a ledger.
    pub open spec fn same_account(self, other: Account) -> bool {
        self.owner == other.owner && self.effective_subaccount() == other.effective_subaccount()
    }
}

impl PartialEq for Account {
    fn eq(&self, other: &Account) -> (r: bool) {
        let mine = match self.subaccount {
            Some(subaccount) => subaccount,
            None => SUB_ACCOUNT_ZERO,
        };
        let theirs = match other.subaccount {
            Some(subaccount) => subaccount,
            None => SUB_ACCOUNT_ZERO,
        };
        self.owner == other.owner && same_bytes(&mine, &theirs)
    }
}

impl PartialEqSpecImpl for Account {
    open spec fn obeys_eq_spec() -> bool {
        true
    }

    open spec fn eq_spec(&self, other: &Account) -> bool {
        self.same_account(*other)
    }
}

/// Whether two subaccounts hold the same bytes.
fn same_bytes(a: &Subaccount, b: &Subaccount) -> (r: bool)
    ensures
        r == (*a == *b),
{
    let mut i: usize = 0;
    while i < 32
        invariant
            i <= 32,
            forall|j: int| 0 <= j < i ==> a@[j] == b@[j],
        decreases 32 - i,
    {
        if a[i] != b[i] {
            return false;
        }
        i += 1;
    }
    assert(*a =~= *b);
    true
}

/// The error of `hex::decode`; nothing of it is read here.
#[verifier::external_type_specification]
#[verifier::external_body]
pub struct ExFromHexError(hex::FromHexError);

/// The 32 bytes that `ic_ledger_types::AccountIdentifier::new` makes of an
/// owner's bytes and a subaccount: a checksum before a hash of the two.
pub uninterp spec fn account_identifier(owner: Seq<u8>, subaccount: Seq<u8>) -> Seq<u8>;

/// `ic_ledger_types::AccountIdentifier::new(..).to_hex()`, for the principal
/// that `candid::Principal::from_slice` makes of `owner`: the account
/// identifier of the owner and the subaccount, which is 32 bytes long,
/// written by `hex::encode` as 64 lower-case hexadecimal digits. More than 29
/// bytes are no principal.
#[verifier::external_body]
fn account_identifier_hex(owner: &[u8], subaccount: &Subaccount) -> (r: String)
    requires
        owner@.len() <= MAX_LENGTH_IN_BYTES,
    ensures
        r@ == hex_encoding(account_identifier(owner@, subaccount@)),
        r@.len() == 64,
{
    let owner = candid::Principal::from_slice(owner);
    ic_ledger_types::AccountIdentifier::new(&owner, &ic_ledger_types::Subaccount(*subaccount))
        .to_hex()
}

/// `hex::decode`: the bytes that the text spells where it is an even number
/// of hexadecimal digits of either case, and an error for any other text.
#[verifier::external_body]
fn hex_decode(text: &str) -> (r: Result<Vec<u8>, hex::FromHexError>)
    ensures
        is_hex(text@) ==> r.is_ok() && r.unwrap()@ == hex_decoding(text@),
        !is_hex(text@) ==> r.is_err(),
{
    hex::decode(text)
}

/// The subaccount that stands for `principal`: the one whose bytes are the
/// principal's account identifier under the all-zero subaccount.
pub open spec fn derived_subaccount(principal: Principal) -> Subaccount {
    choose|subaccount: Subaccount|
        #[trigger] holds(subaccount, account_identifier(principal@, SUB_ACCOUNT_ZERO@))
}

/// Whether a subaccount holds the given bytes.
pub open spec fn holds(subaccount: Subaccount, bytes: Seq<u8>) -> bool {
    subaccount@ == bytes
}

/// Derives the subaccount under which a patron's approval is scoped to one
/// caller. The result depends on the caller's bytes and on nothing else.
pub fn principal2account(principal: &Principal) -> (r: Subaccount)
    ensures
        r@ == account_identifier(principal@, SUB_ACCOUNT_ZERO@),
        r == derived_subaccount(*principal),
{
    let hex_str = account_identifier_hex(principal.as_slice(), &SUB_ACCOUNT_ZERO);
    proof {
        lemma_hex_round_trip(account_identifier(principal@, SUB_ACCOUNT_ZERO@));
    }
    match hex_decode(hex_str.as_str()) {
        Ok(bytes) => {
            let mut subaccount = [0u8;32];
            let mut i: usize = 0;
            while i < 32
                invariant
                    i <= 32,
                    bytes@.len() == 32,
                    forall|j: int| 0 <= j < i ==> subaccount@[j] == bytes@[j],
                decreases 32 - i,
            {
                subaccount[i] = bytes[i];
                i += 1;
            }
            assert(subaccount@ =~= bytes@);
            assert(holds(subaccount, bytes@));
            assert(subaccount =~= derived_subaccount(*principal));
            subaccount
        },
        Err(_) => vstd::pervasive::unreached(),
    }
}

/// Deriving is a function of the caller: the same caller gives the same
/// subaccount, whenever and wherever it is derived.
pub proof fn lemma_derivation_is_a_function(a: Principal, b: Principal)
    requires
        a@ == b@,
    ensures
        derived_subaccount(a) == derived_subaccount(b),
{
}

} // verus!
