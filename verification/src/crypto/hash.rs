//! Fixed-width digests that identify messages and hide captcha answers.

use vstd::prelude::*;
use vstd::std_specs::cmp::PartialEqSpecImpl;

verus! {

/// The 32-byte BLAKE3 digest of `input`, as `blake3::hash` computes it.
pub uninterp spec fn blake3_digest(input: Seq<u8>) -> Seq<u8>;

/// A 32-byte digest.
#[derive(Clone, Copy, Debug)]
pub struct Hash {
    pub bytes: [u8; 32],
}

impl View for Hash {
    type V = Seq<u8>;

    open spec fn view(&self) -> Seq<u8> {
        self.bytes@
    }
}

impl PartialEq for Hash {
    fn eq(&self, other: &Hash) -> (same: bool) {
        let mut i: usize = 0;
        while i < 32
            invariant
                i <= 32,
                forall|j: int| 0 <= j < i ==> self.bytes@[j] == other.bytes@[j],
            decreases 32 - i,
        {
            if self.bytes[i] != other.bytes[i] {
                return false;
            }
            i += 1;
        }
        assert(self.bytes@ =~= other.bytes@);
        true
    }
}

impl PartialEqSpecImpl for Hash {
    open spec fn obeys_eq_spec() -> bool {
        true
    }

    open spec fn eq_spec(&self, other: &Hash) -> bool {
        self@ == other@
    }
}

impl Eq for Hash {}

impl Hash {
    /// Wraps raw digest bytes.
    pub fn new(bytes: [u8; 32]) -> (h: Hash)
        ensures
            h@ == bytes@,
    {
        Hash { bytes }
    }

    /// The digest's bytes.
    pub fn as_bytes(&self) -> (bytes: &[u8; 32])
        ensures
            bytes@ == self@,
    {
        &self.bytes
    }
}

/// Calls `blake3::hash` on `input`. The digest is a function of the input
/// bytes alone; the contract gives it the name `blake3_digest`.
#[verifier::external_body]
pub(crate) fn blake3_of(input: &[u8]) -> (h: Hash)
    ensures
        h@ == blake3_digest(input@),
{
    Hash { bytes: blake3::hash(input).into() }
}

} // verus!
