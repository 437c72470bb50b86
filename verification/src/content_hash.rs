//! Content-addressing digests: a fixed-size digest of a node's own semantic
//! payload, never of its clocks or structural bookkeeping.

use vstd::prelude::*;

verus! {

/// What the digest function returns on given bytes. The value is fixed by
/// the outside implementation and depends on the input bytes alone.
pub uninterp spec fn digest_of(input: Seq<u8>) -> Seq<u8>;

/// Relies on blake3::hash: a 32-byte digest that is a function of the input
/// bytes alone.
#[verifier::external_body]
fn blake3_digest(input: &Vec<u8>) -> (r: Vec<u8>)
    ensures
        r@ == digest_of(input@),
        r@.len() == 32,
{
    blake3::hash(input.as_slice()).as_bytes().to_vec()
}

/// The all-zero placeholder digest that hash fields start from.
pub open spec fn nil_hash() -> Seq<u8> {
    Seq::new(32, |i: int| 0u8)
}

/// A content-addressing digest. Two node weights with equal content hashes
/// are semantically equivalent regardless of clock state.
#[derive(Debug)]
pub struct ContentHash {
    bytes: Vec<u8>,
}

impl View for ContentHash {
    type V = Seq<u8>;

    closed spec fn view(&self) -> Seq<u8> {
        self.bytes@
    }
}

impl ContentHash {
    /// The digest of the given bytes.
    pub fn new(input: &Vec<u8>) -> (r: Self)
        ensures
            r@ == digest_of(input@),
            r@.len() == 32,
    {
        ContentHash { bytes: blake3_digest(input) }
    }

    /// The all-zero placeholder hash.
    pub fn nil() -> (r: Self)
        ensures
            r@ == nil_hash(),
    {
        let mut bytes: Vec<u8> = Vec::new();
        let mut i: usize = 0;
        while i < 32
            invariant
                i <= 32,
                bytes@ =~= Seq::new(i as nat, |j: int| 0u8),
            decreases 32 - i,
        {
            bytes.push(0u8);
            i = i + 1;
        }
        proof {
            assert(bytes@ =~= nil_hash());
        }
        ContentHash { bytes }
    }

    /// The digest's bytes, for callers that serialize or transport it.
    pub fn as_bytes(&self) -> (r: &Vec<u8>)
        ensures
            r@ == self@,
    {
        &self.bytes
    }
}

impl Clone for ContentHash {
    fn clone(&self) -> (r: Self)
        ensures
            r@ == self@,
    {
        let mut bytes: Vec<u8> = Vec::new();
        let n = self.bytes.len();
        let mut i: usize = 0;
        while i < n
            invariant
                n == self.bytes@.len(),
                i <= n,
                bytes@ =~= self.bytes@.take(i as int),
            decreases n - i,
        {
            bytes.push(self.bytes[i]);
            i = i + 1;
        }
        proof {
            assert(bytes@ =~= self.bytes@);
        }
        ContentHash { bytes }
    }
}

impl PartialEq for ContentHash {
    fn eq(&self, other: &Self) -> (r: bool) {
        if self.bytes.len() != other.bytes.len() {
            proof {
                assert(self@ != other@);
            }
            return false;
        }
        let n = self.bytes.len();
        let mut i: usize = 0;
        while i < n
            invariant
                n == self.bytes@.len(),
                n == other.bytes@.len(),
                i <= n,
                forall|j: int| 0 <= j < i ==> self.bytes@[j] == other.bytes@[j],
            decreases n - i,
        {
            if self.bytes[i] != other.bytes[i] {
                proof {
                    assert(self@[i as int] != other@[i as int]);
                }
                return false;
            }
            i = i + 1;
        }
        proof {
            assert(self@ =~= other@);
        }
        true
    }
}

impl vstd::std_specs::cmp::PartialEqSpecImpl for ContentHash {
    open spec fn obeys_eq_spec() -> bool {
        true
    }

    open spec fn eq_spec(&self, other: &Self) -> bool {
        self@ == other@
    }
}

} // verus!
