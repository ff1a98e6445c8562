//! Capacity estimation: from per-entry byte sizes to a whole-megabyte image
//! capacity, with a fixed per-entry overhead to absorb filesystem metadata
//! cost.
//!
//! The conversion is plain ceiling division: no safety margin is added
//! beyond the per-entry overhead, and the result is in whole megabytes, not
//! sector units.

use vstd::arithmetic::div_mod::lemma_fundamental_div_mod;
use vstd::prelude::*;

verus! {

/// Fixed number of bytes added per manifest entry to absorb filesystem
/// metadata cost.
pub const ENTRY_OVERHEAD: u64 = 20;

/// Number of bytes in one megabyte of image capacity.
pub const BYTES_PER_MB: u64 = 1024 * 1024;

/// Total image payload in bytes: the sum over all entries of the entry's
/// size plus the fixed per-entry overhead.
pub open spec fn spec_total_bytes(sizes: Seq<u64>) -> int
    decreases sizes.len(),
{
    if sizes.len() == 0 {
        0
    } else {
        spec_total_bytes(sizes.drop_last()) + sizes.last() + ENTRY_OVERHEAD
    }
}

/// Image capacity in whole megabytes: the total byte count divided by the
/// megabyte size, rounded up.
pub open spec fn spec_capacity_mb(total: int) -> int {
    if total % (BYTES_PER_MB as int) == 0 {
        total / (BYTES_PER_MB as int)
    } else {
        total / (BYTES_PER_MB as int) + 1
    }
}

pub proof fn lemma_total_bytes_nonneg(sizes: Seq<u64>)
    ensures
        spec_total_bytes(sizes) >= 0,
    decreases sizes.len(),
{
    if sizes.len() > 0 {
        lemma_total_bytes_nonneg(sizes.drop_last());
    }
}

/// Appending one entry adds its size plus the per-entry overhead.
pub proof fn lemma_total_bytes_push(sizes: Seq<u64>, v: u64)
    ensures
        spec_total_bytes(sizes.push(v)) == spec_total_bytes(sizes) + v + ENTRY_OVERHEAD,
{
    assert(sizes.push(v).drop_last() =~= sizes);
    assert(sizes.push(v).last() == v);
}

/// A manifest with at least one entry has a positive byte total: the
/// per-entry overhead guarantees a positive minimum.
pub proof fn lemma_total_bytes_positive(sizes: Seq<u64>)
    requires
        sizes.len() >= 1,
    ensures
        spec_total_bytes(sizes) >= ENTRY_OVERHEAD,
{
    lemma_total_bytes_nonneg(sizes.drop_last());
}

/// The byte total is additive over concatenation of manifests.
pub proof fn lemma_total_bytes_concat(a: Seq<u64>, b: Seq<u64>)
    ensures
        spec_total_bytes(a + b) == spec_total_bytes(a) + spec_total_bytes(b),
    decreases b.len(),
{
    if b.len() == 0 {
        assert(a + b =~= a);
    } else {
        assert((a + b).drop_last() =~= a + b.drop_last());
        assert((a + b).last() == b.last());
        lemma_total_bytes_concat(a, b.drop_last());
    }
}

/// A capacity derived from a total that fits in a `u64` byte count itself
/// fits in a `u64`.
pub proof fn lemma_capacity_fits(total: int)
    requires
        0 <= total <= u64::MAX,
    ensures
        0 <= spec_capacity_mb(total) <= u64::MAX,
{
    let m = BYTES_PER_MB as int;
    lemma_capacity_is_ceiling(total);
    vstd::arithmetic::div_mod::lemma_div_is_ordered(total, u64::MAX as int, m);
}

/// The estimated capacity is the exact ceiling of the byte total: the
/// capacity holds the total, and one megabyte less would not.
pub proof fn lemma_capacity_is_ceiling(total: int)
    requires
        total >= 0,
    ensures
        spec_capacity_mb(total) * (BYTES_PER_MB as int) >= total,
        (spec_capacity_mb(total) - 1) * (BYTES_PER_MB as int) < total,
        spec_capacity_mb(total) >= 0,
{
    let m = BYTES_PER_MB as int;
    lemma_fundamental_div_mod(total, m);
    let q = total / m;
    let r = total % m;
    assert(total == m * q + r);
    if r == 0 {
        assert(spec_capacity_mb(total) == q);
        assert(q * m == m * q);
        assert((q - 1) * m == m * q - m);
    } else {
        assert(spec_capacity_mb(total) == q + 1);
        assert((q + 1) * m == m * q + m);
        assert(q * m == m * q);
    }
}

/// Law: the capacity is monotonically non-decreasing in the byte total.
pub proof fn lemma_capacity_monotone(a: int, b: int)
    requires
        0 <= a <= b,
    ensures
        spec_capacity_mb(a) <= spec_capacity_mb(b),
{
    let m = BYTES_PER_MB as int;
    lemma_capacity_is_ceiling(a);
    lemma_capacity_is_ceiling(b);
    let ca = spec_capacity_mb(a);
    let cb = spec_capacity_mb(b);
    if ca > cb {
        assert(cb <= ca - 1);
        assert(cb * m <= (ca - 1) * m) by {
            assert((ca - 1 - cb) * m >= 0);
            assert((ca - 1 - cb) * m == (ca - 1) * m - cb * m);
        }
        assert(cb * m < a);
        assert(false);
    }
}

/// Law: the byte total is monotonically non-decreasing in each entry size.
pub proof fn lemma_total_bytes_monotone(s1: Seq<u64>, s2: Seq<u64>)
    requires
        s1.len() == s2.len(),
        forall|i: int| 0 <= i < s1.len() ==> s1[i] <= s2[i],
    ensures
        spec_total_bytes(s1) <= spec_total_bytes(s2),
    decreases s1.len(),
{
    if s1.len() > 0 {
        assert forall|i: int| 0 <= i < s1.drop_last().len() implies s1.drop_last()[i]
            <= s2.drop_last()[i] by {
            assert(s1.drop_last()[i] == s1[i]);
            assert(s2.drop_last()[i] == s2[i]);
        }
        lemma_total_bytes_monotone(s1.drop_last(), s2.drop_last());
        assert(s1.last() <= s2.last());
    }
}

/// Law: for any manifest whose entries have sizes `s1` and `s2` with each
/// entry no smaller in `s2`, the estimated capacity for `s2` is no smaller.
pub proof fn lemma_capacity_monotone_in_sizes(s1: Seq<u64>, s2: Seq<u64>)
    requires
        s1.len() == s2.len(),
        forall|i: int| 0 <= i < s1.len() ==> s1[i] <= s2[i],
    ensures
        spec_total_bytes(s1) <= spec_total_bytes(s2),
        spec_capacity_mb(spec_total_bytes(s1)) <= spec_capacity_mb(spec_total_bytes(s2)),
{
    lemma_total_bytes_monotone(s1, s2);
    lemma_total_bytes_nonneg(s1);
    lemma_capacity_monotone(spec_total_bytes(s1), spec_total_bytes(s2));
}

/// Convert a byte total to a whole-megabyte capacity by ceiling division.
pub fn capacity_mb(total: u64) -> (r: u64)
    ensures
        r == spec_capacity_mb(total as int),
{
    let q = total / BYTES_PER_MB;
    if total % BYTES_PER_MB == 0 {
        q
    } else {
        assert(q < u64::MAX) by {
            assert(total as int / (BYTES_PER_MB as int) <= total as int) by {
                vstd::arithmetic::div_mod::lemma_div_nonincreasing(
                    total as int,
                    BYTES_PER_MB as int,
                );
            }
        }
        q + 1
    }
}

} // verus!
