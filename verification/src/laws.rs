//! The laws of the service, stated over the same spec functions the
//! executable contracts use: every resolution path returns the one fixed
//! stem of its (algorithm, word) pair, so caching, racing re-insertion and
//! parallel scheduling can never change an answer.

use vstd::prelude::*;

use crate::algorithm::{alg_code, AlgorithmId};
use crate::snowball::stem_of;
use crate::stemmer::SnowballStemmer;

verus! {

/// Determinism: the stem of a word under an algorithm is one fixed value.
/// Any two results of resolving the same pair — on any call path, against
/// any cache state — are equal.
pub proof fn lemma_stem_deterministic(a: int, w: Seq<char>, r1: Seq<char>, r2: Seq<char>)
    requires
        r1 == stem_of(a, w),
        r2 == stem_of(a, w),
    ensures
        r1 == r2,
{
}

/// Cache transparency: a stemmer that uses the cache and one that bypasses
/// it return equal stems for the same algorithm and word. The postcondition
/// of resolution never mentions the cache flag, and this law records why
/// that is enough.
pub proof fn lemma_cache_transparency(
    cached: SnowballStemmer,
    direct: SnowballStemmer,
    w: Seq<char>,
    r_cached: Seq<char>,
    r_direct: Seq<char>,
)
    requires
        cached.use_cache == true,
        direct.use_cache == false,
        cached.algorithm == direct.algorithm,
        r_cached == stem_of(alg_code(cached.algorithm), w),
        r_direct == stem_of(alg_code(direct.algorithm), w),
    ensures
        r_cached == r_direct,
{
}

/// Order preservation: a sequential batch and a parallel batch over the same
/// inputs agree element for element, each output standing at the position of
/// its input word, whatever interleaving the workers ran in.
pub proof fn lemma_order_preservation(
    a: int,
    words: Seq<Seq<char>>,
    sequential: Seq<Seq<char>>,
    parallel: Seq<Seq<char>>,
)
    requires
        sequential.len() == words.len(),
        parallel.len() == words.len(),
        forall|i: int| 0 <= i < words.len() ==> sequential[i] == stem_of(a, words[i]),
        forall|i: int| 0 <= i < words.len() ==> parallel[i] == stem_of(a, words[i]),
    ensures
        sequential == parallel,
        forall|i: int| 0 <= i < words.len() ==> parallel[i] == stem_of(a, words[i]),
{
    assert(sequential =~= parallel);
}

/// Idempotent re-insertion: any number of concurrent resolutions of the same
/// never-before-seen word yield pairwise equal results, and whatever value
/// the cache afterwards returns for that key is that same stem — a lost or
/// doubled insert can never leave a different value behind.
pub proof fn lemma_idempotent_reinsertion(
    a: int,
    w: Seq<char>,
    results: Seq<Seq<char>>,
    later_hit: Option<Seq<char>>,
)
    requires
        forall|i: int| 0 <= i < results.len() ==> results[i] == stem_of(a, w),
        later_hit is Some ==> later_hit->0 == stem_of(a, w),
    ensures
        forall|i: int, j: int|
            0 <= i < results.len() && 0 <= j < results.len() ==> results[i] == results[j],
        later_hit is Some && results.len() > 0 ==> later_hit->0 == results[0],
{
}

/// Distinct algorithms never share a cache key: the numeric code that keys
/// the table determines the algorithm, so the cache cannot conflate results
/// for the same word under different algorithms.
pub proof fn lemma_alg_code_injective(a1: AlgorithmId, a2: AlgorithmId)
    requires
        alg_code(a1) == alg_code(a2),
    ensures
        a1 == a2,
{
}

} // verus!
