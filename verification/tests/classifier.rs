use babymode::whisper::{classify, clean_word, is_censored_variation, is_swear_word};

fn list(words: &[&str]) -> Vec<String> {
    words.iter().map(|w| w.to_string()).collect()
}

#[test]
fn test_clean_word() {
    assert_eq!(clean_word("  hello!  "), "hello");
    assert_eq!(clean_word("fuck,"), "fuck");
    assert_eq!(clean_word("'damn'"), "damn");
    assert_eq!(clean_word("SHIT"), "shit");
}

#[test]
fn test_is_swear_word() {
    let swear_words = vec!["fuck".to_string(), "shit".to_string()];

    assert!(is_swear_word("fuck", &swear_words));
    assert!(is_swear_word("fucking", &swear_words));
    assert!(is_swear_word("shit", &swear_words));
    assert!(!is_swear_word("hello", &swear_words));
    assert!(!is_swear_word("", &swear_words));
}

#[test]
fn test_is_censored_variation() {
    assert!(is_censored_variation("f**k", "fuck"));
    assert!(is_censored_variation("s#it", "shit"));
    assert!(is_censored_variation("f@ck", "fuck"));
    assert!(!is_censored_variation("hello", "fuck"));
    assert!(!is_censored_variation("f*ck", "hello"));
}

#[test]
fn clean_word_strips_whitespace_before_punctuation() {
    assert_eq!(clean_word("\t\n ...Word?!\r\n"), "word");
    assert_eq!(clean_word("! x"), " x");
    assert_eq!(clean_word(""), "");
    assert_eq!(clean_word("   "), "");
    assert_eq!(clean_word("?!"), "");
    assert_eq!(clean_word("don't"), "don't");
    assert_eq!(clean_word("\u{a0}ÉCOLE\u{3000}"), "école");
}

#[test]
fn classification_ignores_case_whitespace_and_punctuation() {
    let swear_words = list(&["fuck"]);
    assert_eq!(classify("FUCK!", &swear_words), classify("fuck", &swear_words));
    assert!(classify("FUCK!", &swear_words));
    assert!(classify("  \"Fuck\",  ", &swear_words));
    assert!(!classify("  \"Bird\",  ", &swear_words));
    // three of four positions agree: an obfuscated spelling by the rule
    assert!(classify("  \"Duck\",  ", &swear_words));
}

#[test]
fn stop_words_and_single_letters_are_never_flagged() {
    assert!(!is_swear_word("a", &list(&["a"])));
    assert!(!is_swear_word("i", &list(&["i"])));
    for stop in [
        "he", "it", "in", "is", "to", "or", "as", "be", "we", "on", "so", "up", "an", "my", "at",
        "go", "do", "if", "no", "me", "us", "oh",
    ] {
        assert!(!is_swear_word(stop, &list(&[stop])), "{}", stop);
        assert!(!is_swear_word(&stop.to_uppercase(), &list(&[stop])), "{}", stop);
    }
    assert!(is_swear_word("xx", &list(&["xx"])));
    assert!(is_swear_word("XX", &list(&["xx"])));
    assert!(!is_swear_word("x", &list(&["x"])));
}

#[test]
fn containment_needs_four_characters_on_both_sides() {
    assert!(is_swear_word("bullshit", &list(&["shit"])));
    assert!(is_swear_word("shit", &list(&["bullshit"])));
    assert!(!is_swear_word("classy", &list(&["ass"])));
    assert!(!is_swear_word("hel", &list(&["hell"])));
    assert!(!is_swear_word("shell", &list(&["she"])));
    assert!(!is_swear_word("hello", &[]));
}

#[test]
fn obfuscated_spellings_are_flagged() {
    let swear_words = list(&["fuck", "shit"]);
    assert!(is_swear_word("f**k", &swear_words));
    assert!(is_swear_word("s#it", &swear_words));
    assert!(is_swear_word("sh@t", &swear_words));
    assert!(!is_swear_word("****", &list(&["abc"])));
    assert!(is_swear_word("****", &list(&["abcd"])));
}

#[test]
fn variation_needs_more_than_half_of_the_positions() {
    assert!(!is_censored_variation("fu", "fx"));
    assert!(is_censored_variation("fu", "fu"));
    assert!(!is_censored_variation("ab**", "xyzw"));
    assert!(is_censored_variation("a***", "xyzw"));
    assert!(is_censored_variation("ab*", "abz"));
    assert!(is_censored_variation("a**", "xyz"));
    assert!(!is_censored_variation("ab*", "xyz"));
    assert!(!is_censored_variation("", ""));
    assert!(!is_censored_variation("fuck", "f**k"));
}
