use vstd::prelude::*;
use crate::pixel::{abs_diff, abs_diff_spec};
use crate::raster::Image;

verus! {

/// The largest sample count whose greatest possible difference sum,
/// 255 per sample, still fits in a `u64`.
pub const MAX_SAMPLES: u64 = 72340172838076673;

/// The number of bytes the vectorised reduction takes at once.
pub const CHUNK: usize = 32;

/// The sum of the absolute differences of the first `n` samples.
pub open spec fn sum_abs_diff(a: Seq<u8>, b: Seq<u8>, n: nat) -> int
    decreases n,
{
    if n == 0 {
        0
    } else {
        sum_abs_diff(a, b, (n - 1) as nat) + abs_diff_spec(a[n - 1], b[n - 1])
    }
}

/// The number of samples both buffers have.
pub open spec fn overlap(a: Seq<u8>, b: Seq<u8>) -> nat {
    if a.len() <= b.len() {
        a.len()
    } else {
        b.len()
    }
}

/// The numerator of the difference ratio: the summed difference over the
/// samples both buffers have.
pub open spec fn ratio_numerator(a: Seq<u8>, b: Seq<u8>) -> int {
    sum_abs_diff(a, b, overlap(a, b))
}

/// The denominator of the difference ratio: the greatest possible difference
/// over the first buffer.
pub open spec fn ratio_denominator(a: Seq<u8>) -> int {
    255 * a.len() as int
}

/// A difference ratio, kept as its exact numerator and denominator; its value
/// is `diff_sum / total_possible`, or 0 when `total_possible` is 0.
#[derive(Clone, Copy, Debug, PartialEq, Eq, Structural)]
pub struct DiffRatio {
    pub diff_sum: u64,
    pub total_possible: u64,
}

proof fn lemma_sum_bounds(a: Seq<u8>, b: Seq<u8>, n: nat)
    ensures
        0 <= sum_abs_diff(a, b, n) <= 255 * n,
    decreases n,
{
    if n > 0 {
        lemma_sum_bounds(a, b, (n - 1) as nat);
    }
}

proof fn lemma_sum_symmetric(a: Seq<u8>, b: Seq<u8>, n: nat)
    ensures
        sum_abs_diff(a, b, n) == sum_abs_diff(b, a, n),
    decreases n,
{
    if n > 0 {
        lemma_sum_symmetric(a, b, (n - 1) as nat);
    }
}

proof fn lemma_sum_same(a: Seq<u8>, n: nat)
    ensures
        sum_abs_diff(a, a, n) == 0,
    decreases n,
{
    if n > 0 {
        lemma_sum_same(a, (n - 1) as nat);
    }
}

proof fn lemma_sum_opposite(a: Seq<u8>, b: Seq<u8>, n: nat)
    requires
        n <= a.len(),
        n <= b.len(),
        forall|i: int| 0 <= i < n ==> abs_diff_spec(#[trigger] a[i], b[i]) == 255,
    ensures
        sum_abs_diff(a, b, n) == 255 * n,
    decreases n,
{
    if n > 0 {
        lemma_sum_opposite(a, b, (n - 1) as nat);
    }
}

/// The difference ratio always lies between 0 and 1.
pub proof fn lemma_ratio_in_unit_range(a: Seq<u8>, b: Seq<u8>)
    ensures
        0 <= ratio_numerator(a, b) <= ratio_denominator(a),
{
    lemma_sum_bounds(a, b, overlap(a, b));
}

/// An image compared with itself has a difference ratio of 0.
pub proof fn lemma_ratio_of_identical(a: Seq<u8>)
    ensures
        ratio_numerator(a, a) == 0,
{
    lemma_sum_same(a, a.len());
}

/// Two buffers of one length that differ by 255 in every sample have a
/// difference ratio of exactly 1.
pub proof fn lemma_ratio_of_opposite(a: Seq<u8>, b: Seq<u8>)
    requires
        a.len() == b.len(),
        forall|i: int| 0 <= i < a.len() ==> abs_diff_spec(#[trigger] a[i], b[i]) == 255,
    ensures
        ratio_numerator(a, b) == ratio_denominator(a),
{
    lemma_sum_opposite(a, b, a.len());
}

/// Swapping two buffers of one length leaves the difference ratio unchanged.
pub proof fn lemma_ratio_symmetric(a: Seq<u8>, b: Seq<u8>)
    requires
        a.len() == b.len(),
    ensures
        ratio_numerator(a, b) == ratio_numerator(b, a),
        ratio_denominator(a) == ratio_denominator(b),
{
    lemma_sum_symmetric(a, b, a.len());
}

/// The summed absolute difference over the samples both buffers have, taken
/// a chunk at a time and then one sample at a time for the remainder.
pub fn sum_abs_diff_chunked(a: &[u8], b: &[u8]) -> (r: u64)
    requires
        overlap(a@, b@) <= MAX_SAMPLES,
    ensures
        r == ratio_numerator(a@, b@),
{
    let len: usize = if a.len() <= b.len() { a.len() } else { b.len() };
    let mut total: u64 = 0;
    let mut i: usize = 0;
    while len - i >= CHUNK
        invariant
            i <= len,
            len == overlap(a@, b@),
            len <= a@.len(),
            len <= b@.len(),
            len <= MAX_SAMPLES,
            total == sum_abs_diff(a@, b@, i as nat),
        decreases len - i,
    {
        let mut part: u64 = 0;
        let mut j: usize = 0;
        while j < CHUNK
            invariant
                i + CHUNK <= len,
                len <= a@.len(),
                len <= b@.len(),
                j <= CHUNK,
                part == sum_abs_diff(a@, b@, (i + j) as nat) - sum_abs_diff(a@, b@, i as nat),
                part <= 255 * j,
            decreases CHUNK - j,
        {
            part = part + abs_diff(a[i + j], b[i + j]) as u64;
            j = j + 1;
        }
        proof {
            lemma_sum_bounds(a@, b@, (i + CHUNK) as nat);
        }
        total = total + part;
        i = i + CHUNK;
    }
    while i < len
        invariant
            i <= len,
            len == overlap(a@, b@),
            len <= a@.len(),
            len <= b@.len(),
            len <= MAX_SAMPLES,
            total == sum_abs_diff(a@, b@, i as nat),
        decreases len - i,
    {
        proof {
            lemma_sum_bounds(a@, b@, (i + 1) as nat);
        }
        total = total + abs_diff(a[i], b[i]) as u64;
        i = i + 1;
    }
    total
}

/// The difference ratio of two images: the summed absolute difference over
/// the samples both have, against 255 for every sample of the first.
pub fn calculate_diff_ratio(image1: &Image, image2: &Image) -> (r: DiffRatio)
    requires
        image1.data@.len() <= MAX_SAMPLES,
    ensures
        r.diff_sum == ratio_numerator(image1.data@, image2.data@),
        r.total_possible == ratio_denominator(image1.data@),
        r.diff_sum <= r.total_possible,
{
    let diff_sum = sum_abs_diff_chunked(image1.data.as_slice(), image2.data.as_slice());
    let total_possible = 255 * image1.data.len() as u64;
    proof {
        lemma_ratio_in_unit_range(image1.data@, image2.data@);
    }
    DiffRatio { diff_sum, total_possible }
}

} // verus!
