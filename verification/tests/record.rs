use pipe::record::{Commit, FileDiff};

#[test]
fn the_sentinel_has_four_empty_fields() {
    let sentinel = Commit::sentinel();
    assert_eq!(
        sentinel,
        Commit { hash: String::new(), author: String::new(), date: String::new(), message: String::new() }
    );
    assert!(sentinel.is_sentinel());
}

#[test]
fn a_commit_is_a_sentinel_by_its_hash_alone() {
    let named = Commit {
        hash: "abc".to_string(),
        author: String::new(),
        date: String::new(),
        message: String::new(),
    };
    assert!(!named.is_sentinel());
    let nameless = Commit {
        hash: String::new(),
        author: "Ada".to_string(),
        date: "2024-03-02".to_string(),
        message: "text".to_string(),
    };
    assert!(nameless.is_sentinel());
}

#[test]
fn copies_are_equal_to_what_they_copy() {
    let commit = Commit {
        hash: "abc".to_string(),
        author: "Ada".to_string(),
        date: "2024-03-02".to_string(),
        message: "text".to_string(),
    };
    assert_eq!(commit.clone(), commit);
    let file = FileDiff { filename: "a.rs".to_string(), diff: "text".to_string() };
    assert_eq!(file.clone(), file);
}
