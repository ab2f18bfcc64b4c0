use workpool::search::{contains, search, search_case_insnesitive};

#[test]
fn case_sensitive() {
    let query = "duct";
    let contents = "\
Rust:
safe, fast, productive.
Pick three.";

    assert_eq!(vec!["safe, fast, productive."], search(query, contents));
}

#[test]
fn case_insensitive() {
    let query = "rust";
    let contents = "\
Rust:
safe, fast, productive.
Pick three.
Trust me.";
    assert_eq!(vec!["Rust:", "Trust me."], search_case_insnesitive(query, contents));
}

#[test]
fn case_sensitive_skips_other_case() {
    let contents = "Rust:\nTrust me.";
    assert_eq!(vec!["Trust me."], search("rust", contents));
}

#[test]
fn empty_contents_has_no_lines() {
    assert!(search("", "").is_empty());
    assert!(search_case_insnesitive("a", "").is_empty());
}

#[test]
fn empty_query_matches_every_line() {
    assert_eq!(vec!["a", "", "b"], search("", "a\n\nb\n"));
}

#[test]
fn crlf_endings_are_dropped() {
    assert_eq!(vec!["one", "two"], search("o", "one\r\ntwo\r\n"));
}

#[test]
fn lone_carriage_return_at_end_stays() {
    assert_eq!(vec!["end\r"], search("end", "end\r"));
}

#[test]
fn trailing_newline_adds_no_line() {
    assert_eq!(vec!["x"], search("", "x\n"));
    assert_eq!(vec![""], search("", "\n"));
}

#[test]
fn non_ascii_lines_are_kept_whole() {
    assert_eq!(vec!["Grüße", "GRÜN"], search_case_insnesitive("grü", "Grüße\nblau\nGRÜN"));
}

#[test]
fn contains_finds_runs() {
    assert!(contains("productive", "duct"));
    assert!(contains("abc", ""));
    assert!(!contains("abc", "abcd"));
    assert!(!contains("abc", "ac"));
    assert!(contains("aab", "ab"));
}
