//! The identity of a caller, a vendor or a ledger.

use vstd::prelude::*;
use vstd::std_specs::cmp::PartialEqSpecImpl;

verus! {

/// The most bytes an identity holds.
pub const MAX_LENGTH_IN_BYTES: usize = 29;

/// A globally unique identity: a string of at most 29 bytes.
///
/// The bytes are kept in a fixed buffer that is zero behind the last
/// significant byte, so two identities with the same bytes are the same value.
#[derive(Clone, Copy, Debug, Eq, Hash)]
pub struct Principal {
    len: u8,
    bytes: [u8; 29],
}

impl View for Principal {
    type V = Seq<u8>;

    /// The significant bytes.
    closed spec fn view(&self) -> Seq<u8> {
        self.bytes@.subrange(0, self.len as int)
    }
}

impl Principal {
    /// The buffer holds `len <= 29` significant bytes and zeros behind them.
    #[verifier::type_invariant]
    pub closed spec fn wf(self) -> bool {
        &&& self.len <= 29
        &&& forall|i: int| self.len <= i < 29 ==> self.bytes@[i] == 0
    }

    /// The identity with the given bytes, which are at most 29.
    pub closed spec fn of(bytes: Seq<u8>) -> Principal {
        Principal { len: bytes.len() as u8, bytes: buffer_of(bytes, bytes.len()) }
    }

    /// `of` gives the one well-formed identity with the given bytes.
    pub proof fn lemma_of(bytes: Seq<u8>)
        requires
            bytes.len() <= MAX_LENGTH_IN_BYTES,
        ensures
            Principal::of(bytes).wf(),
            Principal::of(bytes)@ == bytes,
            forall|p: Principal| p.wf() && p@ == bytes ==> p == Principal::of(bytes),
    {
        lemma_buffer_of(bytes, bytes.len());
        let made = Principal::of(bytes);
        assert(made@ =~= bytes);
        assert forall|p: Principal| p.wf() && p@ == bytes implies p == made by {
            Principal::lemma_same_bytes(p, made);
        }
    }

    /// The identity with the given bytes, or `None` where there are more than 29.
    pub fn try_from_slice(bytes: &[u8]) -> (r: Option<Principal>)
        ensures
            bytes@.len() <= MAX_LENGTH_IN_BYTES ==> r == Some(Principal::of(bytes@)),
            bytes@.len() > MAX_LENGTH_IN_BYTES ==> r.is_none(),
    {
        let n = bytes.len();
        if n > MAX_LENGTH_IN_BYTES {
            return None;
        }
        let mut buffer = [0u8;29];
        let mut i: usize = 0;
        while i < n
            invariant
                n == bytes@.len(),
                n <= 29,
                i <= n,
                forall|j: int| 0 <= j < i ==> buffer@[j] == bytes@[j],
                forall|j: int| i <= j < 29 ==> buffer@[j] == 0,
            decreases n - i,
        {
            buffer[i] = bytes[i];
            i += 1;
        }
        let r = Principal { len: n as u8, bytes: buffer };
        proof {
            assert(r@ =~= bytes@);
            Principal::lemma_of(bytes@);
        }
        Some(r)
    }

    /// The identity with the given bytes.
    pub fn from_slice(bytes: &[u8]) -> (r: Principal)
        requires
            bytes@.len() <= MAX_LENGTH_IN_BYTES,
        ensures
            r == Principal::of(bytes@),
    {
        match Principal::try_from_slice(bytes) {
            Some(p) => p,
            None => vstd::pervasive::unreached(),
        }
    }

    /// The significant bytes.
    pub fn as_slice(&self) -> (r: &[u8])
        ensures
            r@ == self@,
            r@.len() <= MAX_LENGTH_IN_BYTES,
    {
        proof {
            use_type_invariant(self);
        }
        vstd::slice::slice_subrange(self.bytes.as_slice(), 0, self.len as usize)
    }

    /// Identities with the same bytes are the same identity.
    pub proof fn lemma_same_bytes(a: Principal, b: Principal)
        requires
            a.wf(),
            b.wf(),
        ensures
            a@ == b@ <==> a == b,
            a@.len() <= MAX_LENGTH_IN_BYTES,
    {
        if a@ == b@ {
            assert(a.len == b.len) by {
                assert(a@.len() == a.len);
                assert(b@.len() == b.len);
            }
            assert forall|i: int| 0 <= i < 29 implies a.bytes[i] == b.bytes[i] by {
                if i < a.len {
                    assert(a@[i] == a.bytes@[i]);
                    assert(b@[i] == b.bytes@[i]);
                }
            }
            assert(a.bytes =~= b.bytes);
        }
    }
}

/// A buffer that holds the first `n` of `bytes` and zeros behind them.
spec fn buffer_of(bytes: Seq<u8>, n: nat) -> [u8; 29]
    decreases n,
{
    if n == 0 {
        vstd::array::spec_array_fill_for_copy_type::<u8, 29>(0u8)
    } else {
        vstd::array::spec_array_update(buffer_of(bytes, (n - 1) as nat), n - 1, bytes[n - 1])
    }
}

proof fn lemma_buffer_of(bytes: Seq<u8>, n: nat)
    requires
        n <= bytes.len(),
        n <= 29,
    ensures
        forall|i: int| 0 <= i < n ==> buffer_of(bytes, n)@[i] == bytes[i],
        forall|i: int| n <= i < 29 ==> buffer_of(bytes, n)@[i] == 0,
    decreases n,
{
    if n > 0 {
        lemma_buffer_of(bytes, (n - 1) as nat);
        let before = buffer_of(bytes, (n - 1) as nat);
        vstd::array::axiom_spec_array_update(before, n - 1, bytes[n - 1]);
        assert(buffer_of(bytes, n)@ == before@.update(n - 1, bytes[n - 1]));
    } else {
        let zeros = vstd::array::spec_array_fill_for_copy_type::<u8, 29>(0u8);
        assert(buffer_of(bytes, 0) == zeros);
        assert forall|i: int| 0 <= i < 29 implies zeros@[i] == 0 by {
            vstd::array::axiom_spec_array_fill_for_copy_type::<u8, 29>(0u8);
        }
    }
}

impl PartialEq for Principal {
    fn eq(&self, other: &Principal) -> (r: bool) {
        if self.len != other.len {
            return false;
        }
        let mut i: usize = 0;
        while i < 29
            invariant
                i <= 29,
                self.len == other.len,
                forall|j: int| 0 <= j < i ==> self.bytes@[j] == other.bytes@[j],
            decreases 29 - i,
        {
            if self.bytes[i] != other.bytes[i] {
                return false;
            }
            i += 1;
        }
        assert(self.bytes =~= other.bytes);
        true
    }
}

impl PartialEqSpecImpl for Principal {
    open spec fn obeys_eq_spec() -> bool {
        true
    }

    open spec fn eq_spec(&self, other: &Principal) -> bool {
        *self == *other
    }
}

} // verus!
