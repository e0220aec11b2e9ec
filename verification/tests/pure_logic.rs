use smairs::alias::{canonical_name, variants_of};
use smairs::extract::extract_character_names;
use smairs::model::is_valid_id;
use smairs::query::split_query;
use smairs::recover::is_corruption_signature;
use smairs::snippet::make_snippet;
use smairs::{topic, validate_text, SearchError};

#[test]
fn split_query_keeps_quoted_runs_together() {
    let toks = split_query("he said \"went to the market\" quickly");
    assert_eq!(toks, vec!["he", "said", "\"went to the market\"", "quickly"]);
}

#[test]
fn split_query_handles_blank_and_unclosed_quotes() {
    assert_eq!(split_query("").len(), 0);
    assert_eq!(split_query("   ").len(), 0);
    assert_eq!(split_query("\"unclosed run"), vec!["\"unclosed run"]);
    assert_eq!(split_query("a  b"), vec!["a", "b"]);
}

#[test]
fn extractor_finds_capitalized_runs() {
    let names = extract_character_names("Robert talked with Mary Jane about XAbc and Bo.");
    assert_eq!(names, vec!["Robert", "Mary Jane"]);
}

#[test]
fn extractor_splits_runs_at_punctuation() {
    let names = extract_character_names("Mary,Jane and Robert-Smith");
    assert_eq!(names, vec!["Mary", "Jane", "Robert", "Smith"]);
}

#[test]
fn extractor_ignores_short_and_lowercase_words() {
    let names = extract_character_names("al Bo cde Def");
    assert_eq!(names, vec!["Def"]);
}

#[test]
fn snippet_highlights_the_match() {
    let (snippet, highlights, pos) = make_snippet("Hello World", "\"world\"");
    assert_eq!(snippet, "Hello World");
    assert_eq!(highlights, vec![(6, 11)]);
    assert_eq!(pos, Some(6));
}

#[test]
fn snippet_windows_a_long_text() {
    let mut text = String::new();
    for _ in 0..30 {
        text.push_str("abcde ");
    }
    text.push_str("needle");
    for _ in 0..30 {
        text.push_str(" vwxyz");
    }
    let (snippet, highlights, pos) = make_snippet(&text, "needle");
    let p = text.find("needle").unwrap();
    assert_eq!(pos, Some(p));
    let start = p - 60;
    let end = p + "needle".len() + 60;
    assert_eq!(snippet, &text[start..end]);
    assert_eq!(highlights, vec![(60, 66)]);
}

#[test]
fn snippet_without_match_is_a_prefix() {
    let mut text = String::new();
    for _ in 0..40 {
        text.push_str("words");
    }
    let (snippet, highlights, pos) = make_snippet(&text, "absent");
    assert_eq!(snippet.len(), 160);
    assert_eq!(snippet, &text[0..160]);
    assert!(highlights.is_empty());
    assert_eq!(pos, None);
}

#[test]
fn snippet_for_empty_query_is_a_prefix() {
    let (snippet, highlights, pos) = make_snippet("some scene text", "\"\"");
    assert_eq!(snippet, "some scene text");
    assert!(highlights.is_empty());
    assert_eq!(pos, None);
}

#[test]
fn alias_table_expands_known_names() {
    assert_eq!(canonical_name("bob"), Some(vec!["robert".to_string(), "bobby".to_string()]));
    assert_eq!(canonical_name("BOB"), Some(vec!["robert".to_string(), "bobby".to_string()]));
    assert_eq!(canonical_name("rob"), Some(vec!["robert".to_string()]));
    assert_eq!(canonical_name("zed"), None);
}

#[test]
fn two_word_names_get_honorific_forms() {
    assert_eq!(
        canonical_name("John Smith"),
        Some(vec!["mr smith".to_string(), "mrs smith".to_string(), "ms smith".to_string()])
    );
}

#[test]
fn variant_list_starts_with_the_literal_name() {
    let vs = variants_of("Bob");
    assert_eq!(vs[0], "Bob");
    assert!(vs.contains(&"robert".to_string()));
    assert!(vs.contains(&"bobby".to_string()));
}

#[test]
fn corruption_signatures_are_detected() {
    assert!(is_corruption_signature("the index writer was killed"));
    assert!(is_corruption_signature("meta.json is missing"));
    assert!(is_corruption_signature("file Does Not Exist"));
    assert!(!is_corruption_signature("permission denied"));
}

#[test]
fn engine_errors_with_signatures_are_recoverable() {
    let broken = SearchError::Engine { message: "writer was killed".to_string() };
    assert!(broken.is_recoverable());
    let io = SearchError::Engine { message: "permission denied".to_string() };
    assert!(!io.is_recoverable());
    let parse = SearchError::Query { message: "writer was killed".to_string() };
    assert!(!parse.is_recoverable());
}

#[test]
fn valid_ids_are_lowercase_alphanumeric() {
    assert!(is_valid_id("s1"));
    assert!(is_valid_id("scene42"));
    assert!(!is_valid_id(""));
    assert!(!is_valid_id("S1"));
    assert!(!is_valid_id("scene-42"));
    assert!(!is_valid_id("aaaaaaaaaaaaaaaaaaaaaaaaaaaaaaaaaaaaaaaa"));
}

#[test]
fn validate_text_rejects_blank_input() {
    assert!(!validate_text(""));
    assert!(!validate_text("   \t\n"));
    assert!(validate_text("  a  "));
}

#[test]
fn validate_text_rejects_unicode_whitespace() {
    assert!(!validate_text("\u{00A0}\u{2003}\u{3000}"));
    assert!(validate_text("\u{00A0}x\u{2003}"));
}

#[test]
fn topic_joins_job_id_and_suffix() {
    assert_eq!(topic("j1", "progress"), "job::j1::progress");
    assert_eq!(topic("abc", "done"), "job::abc::done");
}
