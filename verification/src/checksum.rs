use vstd::prelude::*;

verus! {

use vstd::wrapping::u64_specs;

/// The checksum detects — it does not prevent — mutation of a host buffer
/// while the native side holds a borrow of it. It is a fast, non-cryptographic
/// hash (64-bit Fowler–Noll–Vo, variant 1a), a diagnostic layer rather than a
/// security mechanism.

/// FNV-1a offset basis.
pub const FNV_OFFSET_BASIS: u64 = 14695981039346656037;

/// FNV-1a prime.
pub const FNV_PRIME: u64 = 1099511628211;

/// Bytes hashed per buffer unless verbose diagnostics are enabled.
pub const CHECKSUM_LIMIT: usize = 1024;

/// One FNV-1a round: fold `byte` into the running hash.
pub open spec fn fnv1a_step(acc: u64, byte: u8) -> u64 {
    u64_specs::wrapping_mul(acc ^ (byte as u64), FNV_PRIME)
}

/// The FNV-1a hash of `bytes`.
pub open spec fn fnv1a(bytes: Seq<u8>) -> u64
    decreases bytes.len(),
{
    if bytes.len() == 0 {
        FNV_OFFSET_BASIS
    } else {
        fnv1a_step(fnv1a(bytes.drop_last()), bytes.last())
    }
}

/// The part of a buffer the checksum covers: everything when verbose
/// diagnostics are on or the buffer is short, otherwise the first
/// `CHECKSUM_LIMIT` bytes — a deliberate cost/coverage trade-off.
pub open spec fn hashed_region(bytes: Seq<u8>, verbose: bool) -> Seq<u8> {
    if verbose || bytes.len() < CHECKSUM_LIMIT {
        bytes
    } else {
        bytes.take(CHECKSUM_LIMIT as int)
    }
}

/// The checksum recorded for a buffer under the given diagnostic policy.
pub open spec fn checksum_spec(bytes: Seq<u8>, verbose: bool) -> u64 {
    fnv1a(hashed_region(bytes, verbose))
}

/// The FNV-1a hash of `bytes[0 .. upto]`.
fn fnv1a_prefix(bytes: &Vec<u8>, upto: usize) -> (h: u64)
    requires
        upto <= bytes@.len(),
    ensures
        h == fnv1a(bytes@.take(upto as int)),
{
    let mut acc: u64 = FNV_OFFSET_BASIS;
    let mut i: usize = 0;
    while i < upto
        invariant
            i <= upto <= bytes@.len(),
            acc == fnv1a(bytes@.take(i as int)),
        decreases upto - i,
    {
        proof {
            assert(bytes@.take(i + 1).drop_last() =~= bytes@.take(i as int));
            assert(bytes@.take(i + 1).last() == bytes@[i as int]);
        }
        acc = (acc ^ (bytes[i] as u64)).wrapping_mul(FNV_PRIME);
        i = i + 1;
    }
    assert(bytes@.take(upto as int) =~= bytes@.take(upto as int));
    acc
}

/// Calculates the checksum used to verify that a buffer was not mutated out
/// from under a borrow. Hashes the whole buffer when `verbose` diagnostics
/// are enabled or the buffer is shorter than `CHECKSUM_LIMIT`, and only the
/// first `CHECKSUM_LIMIT` bytes otherwise.
pub fn calculate_checksum_for_immutable_buffer(buffer: &Vec<u8>, verbose: bool) -> (h: u64)
    ensures
        h == checksum_spec(buffer@, verbose),
{
    if verbose || buffer.len() < CHECKSUM_LIMIT {
        let h = fnv1a_prefix(buffer, buffer.len());
        proof {
            assert(buffer@.take(buffer@.len() as int) =~= buffer@);
        }
        h
    } else {
        fnv1a_prefix(buffer, CHECKSUM_LIMIT)
    }
}

/// Unchanged bytes always pass verification: the checksum is a function of
/// the bytes and the policy alone.
pub proof fn lemma_checksum_deterministic(b1: Seq<u8>, b2: Seq<u8>, verbose: bool)
    requires
        b1 =~= b2,
    ensures
        checksum_spec(b1, verbose) == checksum_spec(b2, verbose),
{
}

/// A checksum mismatch under one policy means the bytes themselves differ:
/// the detector reports no false positives.
pub proof fn lemma_checksum_mismatch_means_mutation(b1: Seq<u8>, b2: Seq<u8>, verbose: bool)
    requires
        checksum_spec(b1, verbose) != checksum_spec(b2, verbose),
    ensures
        !(b1 =~= b2),
{
}

} // verus!
