use ignore_gen::filter::{
    entry_matches_query, filter_compiled, filter_regex, filter_substring_or_exact_ci,
    retain_flagged,
};
use ignore_gen::pattern::{compile, PatternError};

fn entries(items: &[&str]) -> Vec<String> {
    items.iter().map(|s| s.to_string()).collect()
}

fn letters(s: &str) -> Vec<char> {
    s.chars().collect()
}

#[test]
fn query_matches_by_substring() {
    assert!(entry_matches_query(&letters("Golang"), &letters("Go")));
    assert!(entry_matches_query(&letters("Golang"), &letters("lang")));
    assert!(!entry_matches_query(&letters("Golang"), &letters("go")));
}

#[test]
fn query_matches_by_equality_ignoring_ascii_case() {
    assert!(entry_matches_query(&letters("GO"), &letters("Go")));
    assert!(entry_matches_query(&letters("rust"), &letters("RUST")));
    assert!(!entry_matches_query(&letters("GOLANG"), &letters("Go")));
}

#[test]
fn search_takes_both_legs() {
    let catalog = entries(&["Golang", "GO", "Python", "Go", "gopher", "Django"]);
    assert_eq!(
        filter_substring_or_exact_ci(&catalog, "Go"),
        entries(&["Golang", "GO", "Go"])
    );
}

#[test]
fn search_is_the_union_of_its_legs() {
    let catalog = entries(&["Golang", "GO", "Python", "Go", "go", "Cargo", "ErGo"]);
    let query = "Go";
    let by_substring: Vec<String> =
        catalog.iter().filter(|e| e.contains(query)).cloned().collect();
    let by_equality: Vec<String> =
        catalog.iter().filter(|e| e.eq_ignore_ascii_case(query)).cloned().collect();
    let hits = filter_substring_or_exact_ci(&catalog, query);
    for entry in &catalog {
        let expected = by_substring.contains(entry) || by_equality.contains(entry);
        assert_eq!(hits.contains(entry), expected, "{entry}");
    }
    assert!(by_substring.len() < hits.len());
    assert!(by_equality.len() < hits.len());
}

#[test]
fn search_keeps_catalog_order_and_duplicates() {
    let catalog = entries(&["Zig", "Rust", "Zig", "Ada", "ZigZag"]);
    assert_eq!(
        filter_substring_or_exact_ci(&catalog, "Zig"),
        entries(&["Zig", "Zig", "ZigZag"])
    );
}

#[test]
fn search_with_empty_query_keeps_everything() {
    let catalog = entries(&["Ada", "", "C"]);
    assert_eq!(filter_substring_or_exact_ci(&catalog, ""), catalog);
}

#[test]
fn search_without_hits_is_empty() {
    let catalog = entries(&["Ada", "C"]);
    assert_eq!(filter_substring_or_exact_ci(&catalog, "Rust"), Vec::<String>::new());
    assert_eq!(filter_substring_or_exact_ci(&Vec::new(), "Rust"), Vec::<String>::new());
}

#[test]
fn retain_flagged_keeps_the_flagged_entries() {
    let catalog = entries(&["a", "b", "c", "d"]);
    assert_eq!(
        retain_flagged(&catalog, &vec![true, false, false, true]),
        entries(&["a", "d"])
    );
    assert_eq!(retain_flagged(&catalog, &vec![false; 4]), Vec::<String>::new());
    assert_eq!(retain_flagged(&catalog, &vec![true; 4]), catalog);
}

#[test]
fn retain_flagged_treats_missing_flags_as_unset() {
    let catalog = entries(&["a", "b", "c"]);
    assert_eq!(retain_flagged(&catalog, &vec![true, true]), entries(&["a", "b"]));
    assert_eq!(retain_flagged(&catalog, &Vec::new()), Vec::<String>::new());
    assert_eq!(
        retain_flagged(&catalog, &vec![false, true, true, true, true]),
        entries(&["b", "c"])
    );
}

#[test]
fn anchored_pattern_excludes_entries_not_starting_with_c() {
    let catalog = entries(&["ObjectiveC", "CSharp", "C", "C++", "Clojure", "Scala", "c"]);
    assert_eq!(
        filter_regex(&catalog, "^C.+$"),
        Ok(entries(&["CSharp", "C++", "Clojure"]))
    );
}

#[test]
fn unanchored_pattern_matches_anywhere() {
    let catalog = entries(&["ObjectiveC", "CSharp", "Python", "Scala"]);
    assert_eq!(
        filter_regex(&catalog, "C"),
        Ok(entries(&["ObjectiveC", "CSharp"]))
    );
    assert_eq!(
        filter_regex(&catalog, "[ty]"),
        Ok(entries(&["ObjectiveC", "Python"]))
    );
}

#[test]
fn pattern_filter_keeps_catalog_order_and_duplicates() {
    let catalog = entries(&["Vim", "Emacs", "Vim", "VisualStudio"]);
    assert_eq!(
        filter_regex(&catalog, "^V"),
        Ok(entries(&["Vim", "Vim", "VisualStudio"]))
    );
}

#[test]
fn unbalanced_parenthesis_is_reported() {
    let catalog = entries(&["Rust"]);
    let err = filter_regex(&catalog, "(").unwrap_err();
    assert_eq!(err.pattern, "(");
    assert_eq!(err.detail, regex::Regex::new("(").unwrap_err().to_string());
    assert_ne!(err.detail, "(");
    assert!(!err.detail.is_empty());
}

#[test]
fn invalid_pattern_is_reported_for_an_empty_catalog_too() {
    assert!(filter_regex(&Vec::new(), "[a-").is_err());
    assert!(filter_regex(&Vec::new(), "a{2,1}").is_err());
    assert_eq!(filter_regex(&Vec::new(), "a"), Ok(Vec::new()));
}

#[test]
fn compile_reports_the_pattern_as_given() {
    let err = compile("foo(bar").unwrap_err();
    assert_eq!(
        err,
        PatternError {
            pattern: "foo(bar".to_string(),
            detail: regex::Regex::new("foo(bar").unwrap_err().to_string(),
        }
    );
}

#[test]
fn compile_gives_a_regex_for_the_pattern() {
    let re = compile("^C.+$").unwrap();
    assert_eq!(re.as_str(), "^C.+$");
    assert!(re.is_match("CSharp"));
    assert!(!re.is_match("ObjectiveC"));
}

#[test]
fn pattern_error_message_names_the_pattern() {
    let err = PatternError { pattern: "a(".to_string(), detail: "unclosed group".to_string() };
    assert_eq!(err.message(), "invalid regular expression 'a(': unclosed group");
}

#[test]
fn filter_compiled_agrees_with_is_match() {
    let catalog = entries(&["Go", "Golang", "Rust", "Django", ""]);
    let re = regex::Regex::new("(?i)go$").unwrap();
    let expected: Vec<String> = catalog.iter().filter(|e| re.is_match(e)).cloned().collect();
    assert_eq!(filter_compiled(&catalog, &re), expected);
    assert_eq!(expected, entries(&["Go", "Django"]));
}
