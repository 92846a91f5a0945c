//! A word-stemming service with a bounded, concurrency-safe memo table.
//!
//! Stemming a word is a pure, deterministic transform of an algorithm
//! identifier and the word's characters; the work of this crate is the
//! caching layer around it: a capacity-bounded store shared by any number
//! of threads, a get-or-compute path per word, and sequential and parallel
//! batch entry points that keep input order.

pub mod algorithm;
pub mod cache;
pub mod laws;
pub mod snowball;
pub mod stemmer;
