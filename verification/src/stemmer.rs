//! The stemmer facade: binds one algorithm and a cache-enable flag, and
//! exposes single-word, sequential-batch and parallel-batch resolution.
//! All three paths return the one fixed stem of each (algorithm, word) pair;
//! the cache and the worker pool are performance variants, never semantic ones.

use vstd::prelude::*;

use crate::algorithm::{alg_code, algorithm_to_u8, language_of, lookup_language, lower_of,
    to_lower, AlgorithmId};
use crate::cache::{cache_capacity, CacheStore};
use crate::snowball::{snowball_stem, stem_of};
use rayon::iter::IntoParallelRefIterator;
use rayon::iter::ParallelIterator;
use vstd::string::StringExecFns;

verus! {

/// How many entries the table behind [`SnowballStemmer::new`] can hold.
pub const DEFAULT_CACHE_CAPACITY: usize = 100000;

/// Construction failure: the requested language name maps to no supported
/// algorithm. It carries the rejected name.
#[derive(Debug)]
pub struct UnsupportedLanguage {
    pub lang: String,
}

impl UnsupportedLanguage {
    /// A human-readable description naming the rejected language.
    pub fn message(&self) -> (r: String)
        ensures
            r@ == "unsupported language: "@ + self.lang@,
    {
        let mut m = "unsupported language: ".to_owned();
        m.append(self.lang.as_str());
        m
    }
}

/// A stemmer bound to one algorithm and one cache handle. The instance holds
/// no mutable state of its own: all sharing is through the cache handle, so
/// any number of stemmers and threads can work against one table.
pub struct SnowballStemmer {
    /// The algorithm every word of this stemmer is resolved under.
    pub algorithm: AlgorithmId,
    /// Whether resolution consults and fills the cache, or always recomputes.
    pub use_cache: bool,
    /// The handle on the shared memo table this stemmer works against.
    pub cache: CacheStore,
}

impl SnowballStemmer {
    /// The capacity of the table behind this stemmer's cache handle.
    pub open spec fn capacity(&self) -> nat {
        cache_capacity(self.cache)
    }

    /// Builds a stemmer for the given language name (matched without regard
    /// to case), with caching enabled and a fresh table of the default
    /// capacity. An unrecognized name is rejected, never silently mapped.
    pub fn new(lang: &str) -> (r: Result<SnowballStemmer, UnsupportedLanguage>)
        ensures
            r is Ok <==> language_of(lower_of(lang@)) is Some,
            r is Ok ==> r->Ok_0.algorithm == language_of(lower_of(lang@))->0,
            r is Ok ==> r->Ok_0.use_cache == true,
            r is Ok ==> r->Ok_0.capacity() == DEFAULT_CACHE_CAPACITY,
            r is Err ==> r->Err_0.lang@ == lang@,
    {
        Self::with_config(lang, true, CacheStore::new(DEFAULT_CACHE_CAPACITY))
    }

    /// Builds a stemmer for the given language name (matched without regard
    /// to case) with an explicit cache flag and cache handle; handing every
    /// stemmer a clone of one handle shares one process-wide table.
    pub fn with_config(lang: &str, use_cache: bool, cache: CacheStore) -> (r: Result<
        SnowballStemmer,
        UnsupportedLanguage,
    >)
        ensures
            r is Ok <==> language_of(lower_of(lang@)) is Some,
            r is Ok ==> r->Ok_0.algorithm == language_of(lower_of(lang@))->0,
            r is Ok ==> r->Ok_0.use_cache == use_cache,
            r is Ok ==> r->Ok_0.capacity() == cache_capacity(cache),
            r is Err ==> r->Err_0.lang@ == lang@,
    {
        let lowered = to_lower(lang);
        match lookup_language(&lowered) {
            Some(algorithm) => Ok(SnowballStemmer { algorithm, use_cache, cache }),
            None => Err(UnsupportedLanguage { lang: lang.to_owned() }),
        }
    }

    /// Resolves one word to its stem: on a cache hit the stored value, on a
    /// miss the computed stem, stored for later callers; with the cache
    /// disabled, always the computed stem. Every path returns the one fixed
    /// stem of the (algorithm, word) pair. Two threads may both miss on the
    /// same word and both compute and store; the value is the same either
    /// way, so the race only costs duplicate work.
    pub fn stem_word(&self, input: &str) -> (r: String)
        ensures
            r@ == stem_of(alg_code(self.algorithm), input@),
    {
        if !self.use_cache {
            return snowball_stem(self.algorithm, input);
        }
        let code = algorithm_to_u8(self.algorithm);
        match self.cache.get(code, input) {
            Some(cached) => cached,
            None => {
                let result = snowball_stem(self.algorithm, input);
                self.cache.put(code, input, result.clone());
                result
            },
        }
    }

    /// Resolves a batch of words on the calling thread, in order: the output
    /// has the stem of each input word at that word's position.
    pub fn stem_words(&self, inputs: Vec<String>) -> (r: Vec<String>)
        ensures
            r@.len() == inputs@.len(),
            forall|i: int|
                0 <= i < inputs@.len() ==> #[trigger] r@[i]@ == stem_of(
                    alg_code(self.algorithm),
                    inputs@[i]@,
                ),
    {
        let mut out: Vec<String> = Vec::new();
        let mut idx: usize = 0;
        while idx < inputs.len()
            invariant
                idx <= inputs.len(),
                out@.len() == idx,
                forall|i: int|
                    0 <= i < idx ==> #[trigger] out@[i]@ == stem_of(
                        alg_code(self.algorithm),
                        inputs@[i]@,
                    ),
            decreases inputs@.len() - idx,
        {
            let stemmed = self.stem_word(inputs[idx].as_str());
            out.push(stemmed);
            idx = idx + 1;
        }
        out
    }

    /// Resolves a batch of words across a worker pool. The output is the same
    /// as the sequential batch: the stem of each input word at that word's
    /// position, whatever order the workers finish in. The call blocks until
    /// the whole batch is done.
    pub fn stem_words_parallel(&self, inputs: Vec<String>) -> (r: Vec<String>)
        ensures
            r@.len() == inputs@.len(),
            forall|i: int|
                0 <= i < inputs@.len() ==> #[trigger] r@[i]@ == stem_of(
                    alg_code(self.algorithm),
                    inputs@[i]@,
                ),
    {
        par_map_stem(self, &inputs)
    }

    /// How many entries the shared table currently holds: never more than
    /// the capacity it was created with, however many keys were inserted.
    pub fn cache_len(&self) -> (r: usize)
        ensures
            r <= self.capacity(),
    {
        self.cache.len()
    }
}

/// Relies on rayon's `par_iter`, `ParallelIterator::map` and `collect` into a
/// `Vec`: collecting a mapped indexed parallel iterator places each result at
/// the position of its input, whatever order the worker threads run in, and
/// blocks until all of them are done. Each element itself is computed by the
/// verified [`SnowballStemmer::stem_word`], whose postcondition pins its value.
#[verifier::external_body]
fn par_map_stem(stemmer: &SnowballStemmer, inputs: &Vec<String>) -> (r: Vec<String>)
    ensures
        r@.len() == inputs@.len(),
        forall|i: int|
            0 <= i < inputs@.len() ==> #[trigger] r@[i]@ == stem_of(
                alg_code(stemmer.algorithm),
                inputs@[i]@,
            ),
{
    inputs.par_iter().map(|word| stemmer.stem_word(word.as_str())).collect()
}

} // verus!
