//! Deterministic FNV-1a hashing: the same bytes give the same hash in every
//! process, on every platform and in every run, as checksums exchanged
//! between peers require.
use vstd::prelude::*;

use std::hash::Hash;

verus! {

/// FNV-1a 64-bit offset basis.
pub const FNV_OFFSET_BASIS: u64 = 0xcbf2_9ce4_8422_2325;

/// FNV-1a 64-bit prime.
pub const FNV_PRIME: u64 = 0x0100_0000_01b3;

/// One FNV-1a step: the state XOR the byte, times the prime, modulo 2^64.
pub open spec fn fnv1a_step(state: u64, byte: u8) -> u64 {
    ((((state ^ (byte as u64)) as nat) * (FNV_PRIME as nat)) % 0x1_0000_0000_0000_0000) as u64
}

/// The FNV-1a state after the bytes `bytes` are fed, in order, to `state`.
pub open spec fn fnv1a_bytes(state: u64, bytes: Seq<u8>) -> u64
    decreases bytes.len(),
{
    if bytes.len() == 0 {
        state
    } else {
        fnv1a_step(fnv1a_bytes(state, bytes.drop_last()), bytes.last())
    }
}

/// Feeding two byte strings one after the other gives the state of feeding
/// their concatenation: hashing is incremental.
pub proof fn law_fnv1a_incremental(state: u64, a: Seq<u8>, b: Seq<u8>)
    ensures
        fnv1a_bytes(fnv1a_bytes(state, a), b) == fnv1a_bytes(state, a + b),
    decreases b.len(),
{
    if b.len() > 0 {
        law_fnv1a_incremental(state, a, b.drop_last());
        assert((a + b).drop_last() =~= a + b.drop_last());
        assert((a + b).last() == b.last());
    } else {
        assert(a + b =~= a);
    }
}

/// A hasher that computes FNV-1a over the bytes written to it, from the
/// offset basis, with no random seed.
#[derive(Debug, Clone)]
pub struct DeterministicHasher {
    state: u64,
}

impl View for DeterministicHasher {
    type V = u64;

    /// The current FNV-1a state.
    closed spec fn view(&self) -> u64 {
        self.state
    }
}

impl DeterministicHasher {
    /// A hasher at the FNV-1a offset basis.
    pub fn new() -> (r: Self)
        ensures
            r@ == FNV_OFFSET_BASIS,
    {
        DeterministicHasher { state: FNV_OFFSET_BASIS }
    }
}

impl Default for DeterministicHasher {
    /// A hasher at the FNV-1a offset basis.
    fn default() -> (r: Self)
        ensures
            r@ == FNV_OFFSET_BASIS,
    {
        Self::new()
    }
}

impl std::hash::Hasher for DeterministicHasher {
    /// The current state.
    fn finish(&self) -> (r: u64)
        ensures
            r == self@,
    {
        self.state
    }

    /// Feeds each byte: XOR it into the state, then multiply by the prime.
    fn write(&mut self, bytes: &[u8])
        ensures
            final(self)@ == fnv1a_bytes(old(self)@, bytes@),
    {
        let ghost start = self.state;
        let mut i: usize = 0;
        while i < bytes.len()
            invariant
                0 <= i <= bytes@.len(),
                self.state == fnv1a_bytes(start, bytes@.subrange(0, i as int)),
            decreases bytes@.len() - i,
        {
            let byte = bytes[i];
            proof {
                let next = bytes@.subrange(0, i + 1);
                assert(next.drop_last() =~= bytes@.subrange(0, i as int));
                assert(next.last() == byte);
            }
            self.state = (self.state ^ (byte as u64)).wrapping_mul(FNV_PRIME);
            i = i + 1;
        }
        proof {
            assert(bytes@.subrange(0, bytes@.len() as int) =~= bytes@);
        }
    }
}

/// Feeds `value` to `hasher` through `value`'s `Hash` implementation.
///
/// Calls `Hash::hash`. Every method of `Hasher` that this hasher does not
/// define itself passes its bytes to `write`, so whatever the implementation
/// feeds, the new state is the FNV-1a state of some byte string fed to the
/// old one. Which bytes those are depends on `T`'s implementation and is
/// not stated.
#[verifier::external_body]
fn feed_hash<T: Hash + ?Sized>(value: &T, hasher: &mut DeterministicHasher)
    ensures
        exists|bytes: Seq<u8>| final(hasher)@ == fnv1a_bytes(old(hasher)@, bytes),
{
    value.hash(hasher);
}

/// The FNV-1a hash of `value`: a new hasher fed through `value`'s `Hash`
/// implementation, then finished.
///
/// What is proved is only that the result is the FNV-1a hash, from the
/// offset basis, of some byte string. Which bytes `value`'s `Hash`
/// implementation feeds is not stated, so neither is the result on a given
/// value, nor that two calls on equal values give the same hash: that rests
/// on `T`'s implementation being deterministic.
pub fn fnv1a_hash<T: Hash + ?Sized>(value: &T) -> (r: u64)
    ensures
        exists|bytes: Seq<u8>| r == fnv1a_bytes(FNV_OFFSET_BASIS, bytes),
{
    let mut hasher = DeterministicHasher::new();
    feed_hash(value, &mut hasher);
    std::hash::Hasher::finish(&hasher)
}

/// Builds [`DeterministicHasher`]s, each at the offset basis.
#[derive(Debug, Clone, Copy, Default)]
pub struct DeterministicBuildHasher;

impl std::hash::BuildHasher for DeterministicBuildHasher {
    type Hasher = DeterministicHasher;

    /// A hasher at the FNV-1a offset basis.
    fn build_hasher(&self) -> (r: DeterministicHasher)
        ensures
            r@ == FNV_OFFSET_BASIS,
    {
        DeterministicHasher::new()
    }
}

} // verus!
