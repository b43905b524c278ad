//! Results of optimizing images: the original and the versions written.

use vstd::prelude::*;
use crate::inspector::ImageInfo;

verus! {

/// An image written by the optimizer.
#[derive(Debug, Clone)]
pub struct OptimizedImage {
    pub output_path: String,
    /// Format written: webp, avif, png, jpeg...
    pub format: String,
    /// Size in bytes.
    pub size: u64,
    pub width: u32,
    pub height: u32,
}

/// The original image and the versions written from it.
#[derive(Debug, Clone)]
pub struct OptimizationResult {
    pub original: ImageInfo,
    pub outputs: Vec<OptimizedImage>,
}

/// Sum of the sizes of the images in `outputs`.
pub open spec fn total_size(outputs: Seq<OptimizedImage>) -> int
    decreases outputs.len(),
{
    if outputs.len() == 0 {
        0
    } else {
        total_size(outputs.drop_last()) + outputs.last().size
    }
}

impl OptimizationResult {
    /// `(original size, sum of the output sizes)` in bytes.
    pub fn sizes(&self) -> (res: (u64, u64))
        requires
            total_size(self.outputs@) <= u64::MAX,
        ensures
            res.0 == self.original.size,
            res.1 == total_size(self.outputs@),
    {
        let mut sum: u64 = 0;
        let mut i: usize = 0;
        while i < self.outputs.len()
            invariant
                i <= self.outputs.len(),
                sum == total_size(self.outputs@.take(i as int)),
                total_size(self.outputs@) <= u64::MAX,
            decreases self.outputs.len() - i,
        {
            proof {
                assert(self.outputs@.take(i + 1).drop_last() =~= self.outputs@.take(i as int));
                lemma_total_size_prefix(self.outputs@, i + 1);
            }
            sum = sum + self.outputs[i].size;
            i += 1;
        }
        assert(self.outputs@.take(self.outputs.len() as int) =~= self.outputs@);
        (self.original.size, sum)
    }
}

proof fn lemma_total_size_prefix(s: Seq<OptimizedImage>, k: int)
    requires
        0 <= k <= s.len(),
    ensures
        total_size(s.take(k)) <= total_size(s),
    decreases s.len() - k,
{
    if k < s.len() {
        assert(s.drop_last().take(k) =~= s.take(k));
        lemma_total_size_prefix(s.drop_last(), k);
    } else {
        assert(s.take(k) =~= s);
    }
}

/// Sum of the original sizes of `results`.
pub open spec fn originals_total(results: Seq<OptimizationResult>) -> int
    decreases results.len(),
{
    if results.len() == 0 {
        0
    } else {
        originals_total(results.drop_last()) + results.last().original.size
    }
}

/// Sum of the sizes of every output of `results`.
pub open spec fn outputs_total(results: Seq<OptimizationResult>) -> int
    decreases results.len(),
{
    if results.len() == 0 {
        0
    } else {
        outputs_total(results.drop_last()) + total_size(results.last().outputs@)
    }
}

proof fn lemma_totals_prefix(s: Seq<OptimizationResult>, k: int)
    requires
        0 <= k <= s.len(),
    ensures
        originals_total(s.take(k)) <= originals_total(s),
        outputs_total(s.take(k)) <= outputs_total(s),
        0 <= originals_total(s.take(k)),
        0 <= outputs_total(s.take(k)),
    decreases s.len() - k,
{
    if k < s.len() {
        assert(s.drop_last().take(k) =~= s.take(k));
        lemma_totals_prefix(s.drop_last(), k);
        lemma_total_size_nonneg(s.last().outputs@);
    } else {
        assert(s.take(k) =~= s);
        lemma_totals_nonneg(s);
    }
}

proof fn lemma_total_size_nonneg(s: Seq<OptimizedImage>)
    ensures
        0 <= total_size(s),
    decreases s.len(),
{
    if s.len() > 0 {
        lemma_total_size_nonneg(s.drop_last());
    }
}

proof fn lemma_totals_nonneg(s: Seq<OptimizationResult>)
    ensures
        0 <= originals_total(s),
        0 <= outputs_total(s),
    decreases s.len(),
{
    if s.len() > 0 {
        lemma_totals_nonneg(s.drop_last());
        lemma_total_size_nonneg(s.last().outputs@);
    }
}

/// `(sum of the original sizes, sum of the output sizes)` of a batch, in bytes.
pub fn batch_totals(results: &Vec<OptimizationResult>) -> (res: (u64, u64))
    requires
        originals_total(results@) <= u64::MAX,
        outputs_total(results@) <= u64::MAX,
    ensures
        res.0 == originals_total(results@),
        res.1 == outputs_total(results@),
{
    let mut original: u64 = 0;
    let mut optimized: u64 = 0;
    let mut i: usize = 0;
    while i < results.len()
        invariant
            i <= results.len(),
            original == originals_total(results@.take(i as int)),
            optimized == outputs_total(results@.take(i as int)),
            originals_total(results@) <= u64::MAX,
            outputs_total(results@) <= u64::MAX,
        decreases results.len() - i,
    {
        proof {
            assert(results@.take(i + 1).drop_last() =~= results@.take(i as int));
            lemma_totals_prefix(results@, i + 1);
            lemma_total_size_prefix(results@[i as int].outputs@, results@[i as int].outputs@.len() as int);
            assert(results@.take(i + 1).last() == results@[i as int]);
        }
        let (o, s) = results[i].sizes();
        original = original + o;
        optimized = optimized + s;
        i += 1;
    }
    assert(results@.take(results.len() as int) =~= results@);
    (original, optimized)
}

} // verus!
