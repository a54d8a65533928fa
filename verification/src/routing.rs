//! How an `EndBlock` picks the downstream replicas of an element, and the
//! stable key hash that a `GroupBy` edge routes by.

use vstd::prelude::*;

verus! {

/// The rule for routing elements over the edge between two blocks.
#[derive(Clone, Copy, Debug, PartialEq, Eq, Structural)]
pub enum ConnectionStrategy {
    /// One to one, paired by replica index.
    OnlyOne,
    /// Shuffle across all downstream replicas.
    Random,
    /// By a stable hash of the key, modulo the downstream replica count.
    GroupBy,
    /// Broadcast to every downstream replica.
    All,
}

/// The offset basis of the key hash.
pub const KEY_HASH_BASIS: u64 = 0xcbf29ce484222325;

/// The multiplier of the key hash.
pub const KEY_HASH_PRIME: u64 = 0x100000001b3;

/// The stable hash of a key's bytes: a fold that mixes one byte at a time,
/// the same on every host and in every run.
pub open spec fn spec_key_hash(bytes: Seq<u8>) -> u64
    decreases bytes.len(),
{
    if bytes.len() == 0 {
        KEY_HASH_BASIS
    } else {
        vstd::wrapping::u64_specs::wrapping_mul(spec_key_hash(bytes.drop_last()) ^ (bytes.last() as u64), KEY_HASH_PRIME)
    }
}

/// The stable hash of a key's bytes.
pub fn key_hash(bytes: &Vec<u8>) -> (r: u64)
    ensures
        r == spec_key_hash(bytes@),
{
    let mut h: u64 = KEY_HASH_BASIS;
    let mut i: usize = 0;
    while i < bytes.len()
        invariant
            i <= bytes@.len(),
            h == spec_key_hash(bytes@.take(i as int)),
        decreases bytes@.len() - i,
    {
        proof {
            assert(bytes@.take(i + 1 as int).drop_last() =~= bytes@.take(i as int));
        }
        h = (h ^ (bytes[i] as u64)).wrapping_mul(KEY_HASH_PRIME);
        i += 1;
    }
    proof {
        assert(bytes@.take(bytes@.len() as int) =~= bytes@);
    }
    h
}

/// The downstream replica a `GroupBy` edge delivers a key to: the stable
/// hash of the key, modulo the replica count.
pub fn group_by_replica(key: &Vec<u8>, num_replicas: u64) -> (r: u64)
    requires
        num_replicas > 0,
    ensures
        r == spec_key_hash(key@) % num_replicas,
        r < num_replicas,
{
    key_hash(key) % num_replicas
}

/// Law: on a `GroupBy` edge, every element whose key has the same bytes is
/// delivered to the same downstream replica; the destination depends on the
/// key and the replica count alone.
pub proof fn lemma_group_by_same_replica(k1: Seq<u8>, k2: Seq<u8>, num_replicas: u64)
    requires
        num_replicas > 0,
        k1 =~= k2,
    ensures
        spec_key_hash(k1) % num_replicas == spec_key_hash(k2) % num_replicas,
{
}

} // verus!
