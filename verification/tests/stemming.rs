use snowball_stem_cache::cache::CacheStore;
use snowball_stem_cache::stemmer::SnowballStemmer;

#[test]
fn english_sequential_scenario() {
    let stemmer = SnowballStemmer::new("english").unwrap();
    let words = vec!["running".to_string(), "flies".to_string(), "running".to_string()];
    let stems = stemmer.stem_words(words);
    assert_eq!(stems, vec!["run".to_string(), "fli".to_string(), "run".to_string()]);
    // Two distinct words were resolved, so the cache now holds both.
    assert_eq!(stemmer.cache_len(), 2);
}

#[test]
fn repeated_input_repeats_output() {
    let stemmer = SnowballStemmer::new("english").unwrap();
    let first = stemmer.stem_word("running");
    let second = stemmer.stem_word("running");
    let third = stemmer.stem_word("running");
    assert_eq!(first, "run");
    assert_eq!(first, second);
    assert_eq!(second, third);
}

#[test]
fn unknown_language_rejected() {
    let result = SnowballStemmer::new("klingon");
    match result {
        Ok(_) => panic!("an unrecognized language must be rejected"),
        Err(e) => {
            assert_eq!(e.lang, "klingon");
            assert_eq!(e.message(), "unsupported language: klingon");
        }
    }
}

#[test]
fn language_lookup_ignores_case() {
    assert!(SnowballStemmer::new("English").is_ok());
    assert!(SnowballStemmer::new("ENGLISH").is_ok());
    assert!(SnowballStemmer::new("gErMaN").is_ok());
    let upper = SnowballStemmer::new("ENGLISH").unwrap();
    let lower = SnowballStemmer::new("english").unwrap();
    assert_eq!(upper.stem_word("running"), lower.stem_word("running"));
}

#[test]
fn every_supported_language_constructs() {
    let names = [
        "arabic", "danish", "dutch", "english", "finnish", "french", "german", "greek",
        "hungarian", "italian", "norwegian", "portuguese", "romanian", "russian", "spanish",
        "swedish", "tamil", "turkish",
    ];
    for name in names {
        assert!(SnowballStemmer::new(name).is_ok(), "language {} must be supported", name);
    }
}

#[test]
fn cache_transparency() {
    let store = CacheStore::new(1000);
    let cached = SnowballStemmer::with_config("english", true, store.clone_handle()).unwrap();
    let direct = SnowballStemmer::with_config("english", false, store).unwrap();
    let words = ["running", "flies", "happily", "cats", "argued", "running"];
    for w in words {
        assert_eq!(cached.stem_word(w), direct.stem_word(w));
    }
    // The second pass over the same words is served from the cache and must
    // still agree with the uncached path.
    for w in words {
        assert_eq!(cached.stem_word(w), direct.stem_word(w));
    }
}

#[test]
fn disabled_cache_stores_nothing() {
    let direct = SnowballStemmer::with_config("english", false, CacheStore::new(1000)).unwrap();
    assert_eq!(direct.stem_word("running"), "run");
    assert_eq!(direct.stem_word("flies"), "fli");
    assert_eq!(direct.cache_len(), 0);
}

#[test]
fn parallel_matches_sequential() {
    let stemmer = SnowballStemmer::new("english").unwrap();
    let mut words: Vec<String> = Vec::new();
    for i in 0..500 {
        words.push(format!("running{}", i % 7));
        words.push("connection".to_string());
        words.push("flies".to_string());
    }
    let sequential = stemmer.stem_words(words.clone());
    let parallel = stemmer.stem_words_parallel(words.clone());
    assert_eq!(sequential.len(), words.len());
    assert_eq!(parallel, sequential);
}

#[test]
fn parallel_preserves_order() {
    let stemmer = SnowballStemmer::new("english").unwrap();
    let words = vec![
        "running".to_string(),
        "flies".to_string(),
        "connection".to_string(),
        "argued".to_string(),
        "happily".to_string(),
    ];
    let parallel = stemmer.stem_words_parallel(words);
    assert_eq!(
        parallel,
        vec![
            "run".to_string(),
            "fli".to_string(),
            "connect".to_string(),
            "argu".to_string(),
            "happili".to_string(),
        ]
    );
}

#[test]
fn empty_batch() {
    let stemmer = SnowballStemmer::new("english").unwrap();
    assert_eq!(stemmer.stem_words(Vec::new()), Vec::<String>::new());
    assert_eq!(stemmer.stem_words_parallel(Vec::new()), Vec::<String>::new());
}

#[test]
fn concurrent_resolution_of_one_new_word() {
    let store = CacheStore::new(1000);
    let stemmer = SnowballStemmer::with_config("english", true, store).unwrap();
    assert_eq!(stemmer.cache_len(), 0);
    let words = vec!["misunderstanding".to_string(); 64];
    let results = stemmer.stem_words_parallel(words);
    assert_eq!(results.len(), 64);
    for r in &results {
        assert_eq!(r, &results[0]);
    }
    // However many workers raced on the miss, one consistent entry remains.
    assert_eq!(stemmer.cache_len(), 1);
    assert_eq!(stemmer.stem_word("misunderstanding"), results[0]);
}

#[test]
fn capacity_bounds_growth() {
    let store = CacheStore::new(4);
    let stemmer = SnowballStemmer::with_config("english", true, store).unwrap();
    for i in 0..50 {
        let word = format!("different{}", i);
        stemmer.stem_word(&word);
        assert!(stemmer.cache_len() <= 4);
    }
    // Growth plateaus at the configured capacity; older entries were evicted.
    assert_eq!(stemmer.cache_len(), 4);
}

#[test]
fn shared_handle_shares_entries() {
    let store = CacheStore::new(1000);
    let first = SnowballStemmer::with_config("english", true, store.clone_handle()).unwrap();
    let second = SnowballStemmer::with_config("english", true, store).unwrap();
    first.stem_word("running");
    assert_eq!(second.cache_len(), 1);
    assert_eq!(second.stem_word("running"), "run");
    assert_eq!(second.cache_len(), 1);
}

#[test]
fn distinct_algorithms_do_not_conflate() {
    let store = CacheStore::new(1000);
    let english = SnowballStemmer::with_config("english", true, store.clone_handle()).unwrap();
    let german = SnowballStemmer::with_config("german", true, store).unwrap();
    // The same word resolved under two algorithms makes two cache entries.
    english.stem_word("generation");
    german.stem_word("generation");
    assert_eq!(english.cache_len(), 2);
    // A repeat lookup under each algorithm still gets that algorithm's stem.
    assert_eq!(english.stem_word("generation"), "generat");
    assert_eq!(german.stem_word("generation"), german.stem_word("generation"));
}

#[test]
fn single_word_agrees_with_both_batch_paths() {
    let stemmer = SnowballStemmer::new("spanish").unwrap();
    let words = vec!["corriendo".to_string(), "gatos".to_string()];
    let single: Vec<String> = vec![
        stemmer.stem_word("corriendo"),
        stemmer.stem_word("gatos"),
    ];
    assert_eq!(stemmer.stem_words(words.clone()), single);
    assert_eq!(stemmer.stem_words_parallel(words), single);
}
