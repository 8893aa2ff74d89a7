use chisel::auto_complete::{autocomplete, autocomplete_from_source};

fn vocab(terms: &[&str]) -> Vec<String> {
    terms.iter().map(|t| t.to_string()).collect()
}

#[test]
fn trailing_token_prefix_returns_terms_in_vocabulary_order() {
    let v = vocab(&["abc", "abd"]);
    let r = autocomplete("ab", &v);
    assert_eq!(r, vec!["abc".to_string(), "abd".to_string()]);
}

#[test]
fn no_trailing_token_yields_empty_string_sentinel() {
    let v = vocab(&["abc", "abd"]);
    let r = autocomplete("ab ", &v);
    assert_eq!(r, vec![String::new()]);
    let r2 = autocomplete("", &v);
    assert_eq!(r2, vec![String::new()]);
}

#[test]
fn token_after_non_word_character_is_used() {
    let v = vocab(&["uint256", "uint8"]);
    let r = autocomplete("x + uint", &v);
    assert_eq!(r, vec!["uint256".to_string(), "uint8".to_string()]);
}

#[test]
fn absent_prefix_yields_empty_list() {
    let v = vocab(&["abc", "abd"]);
    let r = autocomplete("zz", &v);
    assert!(r.is_empty());
}

#[test]
fn whole_term_is_not_its_own_suggestion() {
    let v = vocab(&["abc"]);
    let r = autocomplete("abc", &v);
    assert!(r.is_empty());
}

#[test]
fn duplicate_terms_are_preserved() {
    let v = vocab(&["abc", "abc"]);
    let r = autocomplete("ab", &v);
    assert_eq!(r, vec!["abc".to_string(), "abc".to_string()]);
}

#[test]
fn source_text_is_parsed_as_object_keys() {
    let source = "{\"abc\": 1, \"abd\": {\"x\": 2}}";
    let r = autocomplete_from_source("ab", source).expect("source should be a proper mapping");
    assert_eq!(r, vec!["abc".to_string(), "abd".to_string()]);
}

#[test]
fn unparsable_source_yields_nothing() {
    assert!(autocomplete_from_source("ab", "not json").is_none());
    assert!(autocomplete_from_source("ab", "[1, 2]").is_none());
}
