//! The closed set of supported stemming algorithms, one per language, and
//! the case-insensitive lookup from a language name to its identifier.

use vstd::prelude::*;

verus! {

/// Identifier of one language's stemming algorithm: a finite, closed set.
/// Unknown language names are rejected at lookup, never silently mapped.
#[derive(Clone, Copy, Debug, PartialEq, Eq, Structural, Hash)]
pub enum AlgorithmId {
    Arabic,
    Danish,
    Dutch,
    English,
    Finnish,
    French,
    German,
    Greek,
    Hungarian,
    Italian,
    Norwegian,
    Portuguese,
    Romanian,
    Russian,
    Spanish,
    Swedish,
    Tamil,
    Turkish,
}

/// The distinct numeric code of each algorithm, used to key the cache.
pub open spec fn alg_code(a: AlgorithmId) -> int {
    match a {
        AlgorithmId::Arabic => 0,
        AlgorithmId::Danish => 1,
        AlgorithmId::Dutch => 2,
        AlgorithmId::English => 3,
        AlgorithmId::Finnish => 4,
        AlgorithmId::French => 5,
        AlgorithmId::German => 6,
        AlgorithmId::Greek => 7,
        AlgorithmId::Hungarian => 8,
        AlgorithmId::Italian => 9,
        AlgorithmId::Norwegian => 10,
        AlgorithmId::Portuguese => 11,
        AlgorithmId::Romanian => 12,
        AlgorithmId::Russian => 13,
        AlgorithmId::Spanish => 14,
        AlgorithmId::Swedish => 15,
        AlgorithmId::Tamil => 16,
        AlgorithmId::Turkish => 17,
    }
}

/// The algorithm's discriminant as a machine integer, for use in a cache key.
pub fn algorithm_to_u8(algorithm: AlgorithmId) -> (r: u8)
    ensures
        r as int == alg_code(algorithm),
{
    match algorithm {
        AlgorithmId::Arabic => 0,
        AlgorithmId::Danish => 1,
        AlgorithmId::Dutch => 2,
        AlgorithmId::English => 3,
        AlgorithmId::Finnish => 4,
        AlgorithmId::French => 5,
        AlgorithmId::German => 6,
        AlgorithmId::Greek => 7,
        AlgorithmId::Hungarian => 8,
        AlgorithmId::Italian => 9,
        AlgorithmId::Norwegian => 10,
        AlgorithmId::Portuguese => 11,
        AlgorithmId::Romanian => 12,
        AlgorithmId::Russian => 13,
        AlgorithmId::Spanish => 14,
        AlgorithmId::Swedish => 15,
        AlgorithmId::Tamil => 16,
        AlgorithmId::Turkish => 17,
    }
}

/// The lowercase form of a string, as `str::to_lowercase` computes it:
/// a pure function of the characters alone.
pub uninterp spec fn lower_of(s: Seq<char>) -> Seq<char>;

/// Relies on `str::to_lowercase`: the result depends on the input's
/// characters alone, so the same name always lowers to the same string.
#[verifier::external_body]
pub fn to_lower(s: &str) -> (r: String)
    ensures
        r@ == lower_of(s@),
{
    s.to_lowercase()
}

/// Which algorithm an already-lowercased language name denotes, if any.
pub open spec fn language_of(lowered: Seq<char>) -> Option<AlgorithmId> {
    if lowered == "arabic"@ {
        Some(AlgorithmId::Arabic)
    } else if lowered == "danish"@ {
        Some(AlgorithmId::Danish)
    } else if lowered == "dutch"@ {
        Some(AlgorithmId::Dutch)
    } else if lowered == "english"@ {
        Some(AlgorithmId::English)
    } else if lowered == "finnish"@ {
        Some(AlgorithmId::Finnish)
    } else if lowered == "french"@ {
        Some(AlgorithmId::French)
    } else if lowered == "german"@ {
        Some(AlgorithmId::German)
    } else if lowered == "greek"@ {
        Some(AlgorithmId::Greek)
    } else if lowered == "hungarian"@ {
        Some(AlgorithmId::Hungarian)
    } else if lowered == "italian"@ {
        Some(AlgorithmId::Italian)
    } else if lowered == "norwegian"@ {
        Some(AlgorithmId::Norwegian)
    } else if lowered == "portuguese"@ {
        Some(AlgorithmId::Portuguese)
    } else if lowered == "romanian"@ {
        Some(AlgorithmId::Romanian)
    } else if lowered == "russian"@ {
        Some(AlgorithmId::Russian)
    } else if lowered == "spanish"@ {
        Some(AlgorithmId::Spanish)
    } else if lowered == "swedish"@ {
        Some(AlgorithmId::Swedish)
    } else if lowered == "tamil"@ {
        Some(AlgorithmId::Tamil)
    } else if lowered == "turkish"@ {
        Some(AlgorithmId::Turkish)
    } else {
        None
    }
}

/// Closed-set lookup of an already-lowercased language name.
pub fn lookup_language(lowered: &String) -> (r: Option<AlgorithmId>)
    ensures
        r == language_of(lowered@),
{
    if *lowered == "arabic".to_owned() {
        Some(AlgorithmId::Arabic)
    } else if *lowered == "danish".to_owned() {
        Some(AlgorithmId::Danish)
    } else if *lowered == "dutch".to_owned() {
        Some(AlgorithmId::Dutch)
    } else if *lowered == "english".to_owned() {
        Some(AlgorithmId::English)
    } else if *lowered == "finnish".to_owned() {
        Some(AlgorithmId::Finnish)
    } else if *lowered == "french".to_owned() {
        Some(AlgorithmId::French)
    } else if *lowered == "german".to_owned() {
        Some(AlgorithmId::German)
    } else if *lowered == "greek".to_owned() {
        Some(AlgorithmId::Greek)
    } else if *lowered == "hungarian".to_owned() {
        Some(AlgorithmId::Hungarian)
    } else if *lowered == "italian".to_owned() {
        Some(AlgorithmId::Italian)
    } else if *lowered == "norwegian".to_owned() {
        Some(AlgorithmId::Norwegian)
    } else if *lowered == "portuguese".to_owned() {
        Some(AlgorithmId::Portuguese)
    } else if *lowered == "romanian".to_owned() {
        Some(AlgorithmId::Romanian)
    } else if *lowered == "russian".to_owned() {
        Some(AlgorithmId::Russian)
    } else if *lowered == "spanish".to_owned() {
        Some(AlgorithmId::Spanish)
    } else if *lowered == "swedish".to_owned() {
        Some(AlgorithmId::Swedish)
    } else if *lowered == "tamil".to_owned() {
        Some(AlgorithmId::Tamil)
    } else if *lowered == "turkish".to_owned() {
        Some(AlgorithmId::Turkish)
    } else {
        None
    }
}

} // verus!
