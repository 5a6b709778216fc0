use traverse::fuzzy::{keep_candidate, search, Candidate};

fn cand(path: &str, rel: &[&str]) -> Candidate {
    Candidate {
        path: path.to_string(),
        components: rel.iter().map(|s| s.to_string()).collect(),
    }
}

fn strings(v: &[&str]) -> Vec<String> {
    v.iter().map(|s| s.to_string()).collect()
}

#[test]
fn query_matches_readme_and_reader() {
    let cands = vec![
        cand("/w/README.md", &["README.md"]),
        cand("/w/src/reader.rs", &["src", "reader.rs"]),
        cand("/w/xyz.bin", &["xyz.bin"]),
    ];
    let none: Vec<String> = vec![];
    let found = search(&cands, "read", false, &none);
    assert_eq!(found, strings(&["/w/README.md", "/w/src/reader.rs"]));
}

#[test]
fn empty_query_matches_nothing() {
    let cands = vec![cand("/w/a.txt", &["a.txt"])];
    let none: Vec<String> = vec![];
    assert!(search(&cands, "", true, &none).is_empty());
}

#[test]
fn hidden_and_excluded_subtrees_are_skipped() {
    let cands = vec![
        cand("/w/.git/readme", &[".git", "readme"]),
        cand("/w/target/readme", &["target", "readme"]),
        cand("/w/.readme", &[".readme"]),
        cand("/w/docs/readme", &["docs", "readme"]),
    ];
    let excluded = strings(&["target"]);
    assert_eq!(search(&cands, "readme", false, &excluded), strings(&["/w/docs/readme"]));
    assert_eq!(
        search(&cands, "readme", true, &excluded),
        strings(&["/w/.git/readme", "/w/.readme", "/w/docs/readme"])
    );
}

#[test]
fn search_is_repeatable() {
    let cands = vec![
        cand("/w/b/main.rs", &["b", "main.rs"]),
        cand("/w/a/main.rs", &["a", "main.rs"]),
    ];
    let none: Vec<String> = vec![];
    let first = search(&cands, "main", false, &none);
    let second = search(&cands, "main", false, &none);
    assert_eq!(first, second);
    assert_eq!(first, strings(&["/w/b/main.rs", "/w/a/main.rs"]));
}

#[test]
fn candidate_needs_positive_score() {
    let comps = strings(&["src", "lib.rs"]);
    let none: Vec<String> = vec![];
    assert!(keep_candidate(&comps, Some(5), false, &none));
    assert!(!keep_candidate(&comps, Some(0), false, &none));
    assert!(!keep_candidate(&comps, None, false, &none));
    let excluded = strings(&["src"]);
    assert!(!keep_candidate(&comps, Some(5), false, &excluded));
    let file_named_like_excluded = strings(&["docs", "src"]);
    assert!(keep_candidate(&file_named_like_excluded, Some(5), false, &excluded));
    let empty: Vec<String> = vec![];
    assert!(!keep_candidate(&empty, Some(5), true, &none));
}
