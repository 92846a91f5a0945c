//! The stemming transform itself, an external pure function: each algorithm
//! maps a word to one fixed stem, named here so contracts can speak of it.

use vstd::prelude::*;

use crate::algorithm::{alg_code, AlgorithmId};
use rust_stemmers::Algorithm;
use rust_stemmers::Stemmer;

verus! {

/// The stem that the algorithm with code `alg` produces for `word`.
/// The transform is pure and deterministic, so the result is a function of
/// the algorithm and the word's characters alone; its value is defined by
/// the external stemmer and is not written out here.
pub uninterp spec fn stem_of(alg: int, word: Seq<char>) -> Seq<char>;

/// Relies on `rust_stemmers::Stemmer::create` and `rust_stemmers::Stemmer::stem`:
/// `create` picks the one fixed stemming function of the algorithm, and `stem`
/// applies it to the word's characters with no other input, so the result
/// depends on the algorithm and the word alone.
#[verifier::external_body]
pub fn snowball_stem(algorithm: AlgorithmId, word: &str) -> (r: String)
    ensures
        r@ == stem_of(alg_code(algorithm), word@),
{
    let alg = match algorithm {
        AlgorithmId::Arabic => Algorithm::Arabic, AlgorithmId::Danish => Algorithm::Danish,
        AlgorithmId::Dutch => Algorithm::Dutch, AlgorithmId::English => Algorithm::English,
        AlgorithmId::Finnish => Algorithm::Finnish, AlgorithmId::French => Algorithm::French,
        AlgorithmId::German => Algorithm::German, AlgorithmId::Greek => Algorithm::Greek,
        AlgorithmId::Hungarian => Algorithm::Hungarian, AlgorithmId::Italian => Algorithm::Italian,
        AlgorithmId::Norwegian => Algorithm::Norwegian, AlgorithmId::Portuguese => Algorithm::Portuguese,
        AlgorithmId::Romanian => Algorithm::Romanian, AlgorithmId::Russian => Algorithm::Russian,
        AlgorithmId::Spanish => Algorithm::Spanish, AlgorithmId::Swedish => Algorithm::Swedish,
        AlgorithmId::Tamil => Algorithm::Tamil, AlgorithmId::Turkish => Algorithm::Turkish,
    };
    Stemmer::create(alg).stem(word).into_owned()
}

} // verus!
