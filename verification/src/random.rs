use vstd::prelude::*;
use rand::Rng;
use rand::distributions::{Distribution, WeightedIndex};

verus! {

/// Calls `rand::Rng::gen_range` on the thread's generator with the range `lo..hi`; the
/// documentation promises a value in that range, which must not be empty. Which value comes
/// back is chance.
#[verifier::external_body]
pub(crate) fn random_range(lo: u64, hi: u64) -> (r: u64)
    requires
        lo < hi,
    ensures
        lo <= r < hi,
{
    rand::thread_rng().gen_range(lo..hi)
}

/// A random value below `top`.
pub(crate) fn random_below(top: u64) -> (r: u64)
    requires
        top > 0,
    ensures
        r < top,
{
    random_range(0, top)
}

/// The total of a list of weights.
pub open spec fn weight_sum(w: Seq<u32>) -> int
    decreases w.len(),
{
    if w.len() == 0 {
        0
    } else {
        weight_sum(w.drop_last()) + w.last()
    }
}

/// Builds `rand::distributions::WeightedIndex` from `weights` and samples it with the thread's
/// generator. Its source shows that building succeeds on a non-empty list whose total is
/// positive (and fits the weight type), and that the sampled index is that of an entry with
/// positive weight; which one comes back is chance.
#[verifier::external_body]
pub(crate) fn weighted_index(weights: &Vec<u32>) -> (r: usize)
    requires
        weights@.len() > 0,
        0 < weight_sum(weights@) <= u32::MAX,
    ensures
        r < weights@.len(),
        weights@[r as int] > 0,
{
    WeightedIndex::new(weights).unwrap().sample(&mut rand::thread_rng())
}

/// Calls `rand::Rng::gen_ratio` on the thread's generator: true with chance
/// `numerator / denominator`. Its source refuses (panics on) a zero denominator or a
/// numerator above it, never answers true for a zero numerator and always for a numerator
/// equal to the denominator; otherwise the answer is chance.
#[verifier::external_body]
pub(crate) fn random_ratio(numerator: u32, denominator: u32) -> (r: bool)
    requires
        0 < denominator,
        numerator <= denominator,
    ensures
        numerator == 0 ==> !r,
        numerator == denominator ==> r,
{
    rand::thread_rng().gen_ratio(numerator, denominator)
}

/// Calls `random_word::gen` for an English word; which word comes back is chance.
#[verifier::external_body]
pub(crate) fn random_english_word() -> (r: &'static str) {
    random_word::gen(random_word::Lang::En)
}

} // verus!
