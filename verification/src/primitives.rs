//! Plain value types shared by every ledger: fixed-width byte strings and
//! account addresses, and the Keccak-256 digest that keys burn records.
//!
//! The digest is computed by `stylus_sdk::crypto::keccak`; the function
//! that makes the call is the only unverified code in this module.

use vstd::prelude::*;

verus! {

/// A byte string of exactly `N` bytes (match identifiers, commitment hashes,
/// transaction keys).
#[derive(Clone, Copy, Debug, PartialEq, Eq, Hash)]
pub struct FixedBytes<const N: usize> {
    pub bytes: [u8; N],
}

impl<const N: usize> View for FixedBytes<N> {
    type V = Seq<u8>;

    open spec fn view(&self) -> Seq<u8> {
        self.bytes@
    }
}

/// Compares two byte arrays element by element.
pub fn bytes_equal<const N: usize>(a: &[u8; N], b: &[u8; N]) -> (r: bool)
    ensures
        r == (*a == *b),
        r == (a@ == b@),
{
    let mut i: usize = 0;
    while i < N
        invariant
            i <= N,
            forall|j: int| 0 <= j < i ==> a[j] == b[j],
        decreases N - i,
    {
        if a[i] != b[i] {
            return false;
        }
        i = i + 1;
    }
    assert(*a =~= *b);
    true
}

impl<const N: usize> FixedBytes<N> {
    /// Wraps a byte array.
    pub fn new(bytes: [u8; N]) -> (r: Self)
        ensures
            r.bytes == bytes,
    {
        FixedBytes { bytes }
    }

    /// The all-zero byte string.
    pub open spec fn spec_zero() -> Self {
        FixedBytes { bytes: vstd::array::spec_array_fill_for_copy_type::<u8, N>(0u8) }
    }

    /// The all-zero byte string.
    #[verifier::when_used_as_spec(spec_zero)]
    pub fn zero() -> (r: Self)
        ensures
            r == Self::spec_zero(),
            forall|i: int| 0 <= i < N ==> r@[i] == 0u8,
    {
        FixedBytes { bytes: [0u8; N] }
    }

    /// Number of bytes held, always `N`.
    pub fn len(&self) -> (n: usize)
        ensures
            n == N,
            n == self@.len(),
    {
        N
    }

    /// Whether two byte strings hold the same bytes.
    pub fn same(&self, other: &Self) -> (r: bool)
        ensures
            r == (*self == *other),
            r == (self@ == other@),
    {
        bytes_equal(&self.bytes, &other.bytes)
    }
}

/// A 20-byte account identity.
#[derive(Clone, Copy, Debug, PartialEq, Eq, Hash)]
pub struct Address {
    pub bytes: [u8; 20],
}

impl View for Address {
    type V = Seq<u8>;

    open spec fn view(&self) -> Seq<u8> {
        self.bytes@
    }
}

impl Address {
    /// Wraps twenty bytes.
    pub fn new(bytes: [u8; 20]) -> (r: Self)
        ensures
            r.bytes == bytes,
    {
        Address { bytes }
    }

    /// The null identity: twenty zero bytes.
    pub open spec fn spec_zero() -> Self {
        Address { bytes: vstd::array::spec_array_fill_for_copy_type::<u8, 20>(0u8) }
    }

    /// The null identity: twenty zero bytes.
    #[verifier::when_used_as_spec(spec_zero)]
    pub fn zero() -> (r: Self)
        ensures
            r == Self::spec_zero(),
            forall|i: int| 0 <= i < 20 ==> r@[i] == 0u8,
    {
        Address { bytes: [0u8; 20] }
    }

    /// Whether two identities are the same.
    pub fn same(&self, other: &Self) -> (r: bool)
        ensures
            r == (*self == *other),
            r == (self@ == other@),
    {
        bytes_equal(&self.bytes, &other.bytes)
    }

    /// Whether this is the null identity.
    pub fn is_zero(&self) -> (r: bool)
        ensures
            r == (*self == Self::spec_zero()),
    {
        let z = Address::zero();
        self.same(&z)
    }
}

/// The Keccak-256 digest of a byte string, as a sequence of 32 bytes.
pub uninterp spec fn keccak256(preimage: Seq<u8>) -> Seq<u8>;

/// Calls `stylus_sdk::crypto::keccak`, which hashes with
/// `alloy_primitives::keccak256`.  Trusted: the 32 bytes returned are the
/// Keccak-256 digest of the bytes handed in, and depend on nothing else.
#[verifier::external_body]
pub(crate) fn keccak_digest(preimage: &[u8]) -> (digest: FixedBytes<32>)
    ensures
        digest@ == keccak256(preimage@),
{
    FixedBytes { bytes: stylus_sdk::crypto::keccak(preimage).0 }
}

} // verus!
