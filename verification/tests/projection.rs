use pipe::projection::{label, Projection, SHORT_HASH};
use pipe::record::{Commit, FileDiff};
use pipe::screen::{Screen, SearchKind};

fn commit(hash: &str, author: &str, date: &str, message: &str) -> Commit {
    Commit {
        hash: hash.to_string(),
        author: author.to_string(),
        date: date.to_string(),
        message: message.to_string(),
    }
}

fn strings(items: &[&str]) -> Vec<String> {
    items.iter().map(|item| item.to_string()).collect()
}

fn history() -> Vec<Commit> {
    vec![
        commit("0123456789abcdef0123456789abcdef01234567", "Ada", "2024-03-02", "Second"),
        commit("89abcdef0123456789abcdef0123456789abcdef", "Bob", "2024-03-01", "First"),
    ]
}

#[test]
fn a_label_shows_seven_characters_of_the_hash() {
    assert_eq!(SHORT_HASH, 7);
    assert_eq!(label(&history()[0]), "0123456 - 2024-03-02 - Second");
    assert_eq!(label(&commit("0123456", "a", "d", "m")), "0123456 - d - m");
}

#[test]
fn a_label_shows_a_short_hash_whole() {
    assert_eq!(label(&commit("abc", "Ada", "2024-03-02", "Short")), "abc - 2024-03-02 - Short");
    assert_eq!(label(&commit("", "", "", "")), " -  - ");
    assert_eq!(label(&commit("\u{e9}\u{e9}\u{e9}\u{e9}\u{e9}\u{e9}\u{e9}\u{e9}", "", "d", "m")), "\u{e9}\u{e9}\u{e9}\u{e9}\u{e9}\u{e9}\u{e9} - d - m");
}

#[test]
fn the_main_list() {
    let screen = Screen::MainList {
        directory: "/work".to_string(),
        branch: "main".to_string(),
        commits: history(),
    };
    assert_eq!(
        screen.project(),
        Projection {
            title: "Git Repository Explorer".to_string(),
            text: "\u{1f4c1} Directory: /work\n\u{1f33f} Branch: main\n\nShortcuts: 'b' = branches | 's' or '/' = search | 'q' = quit\n".to_string(),
            list_title: "Commits".to_string(),
            items: Some(strings(&["0123456 - 2024-03-02 - Second", "89abcde - 2024-03-01 - First"])),
            submit: None,
            close: None,
        }
    );
}

#[test]
fn the_main_list_without_commits_shows_one_entry() {
    let screen = Screen::MainList {
        directory: "Unknown".to_string(),
        branch: "Not a git repository".to_string(),
        commits: Vec::new(),
    };
    let shown = screen.project();
    assert_eq!(shown.items, Some(strings(&["No commits found"])));
    assert_eq!(
        shown.text,
        format!(
            "{} Directory: Unknown\n{} Branch: Not a git repository\n\nShortcuts: 'b' = branches | 's' or '/' = search | 'q' = quit\n",
            '\u{1f4c1}', '\u{1f33f}'
        )
    );
}

#[test]
fn the_branch_selector_marks_the_current_branch() {
    let screen = Screen::BranchSelector {
        branches: strings(&["main", "dev", "origin/main", "Main"]),
        current: "main".to_string(),
    };
    assert_eq!(
        screen.project(),
        Projection {
            title: "Select Branch".to_string(),
            text: String::new(),
            list_title: String::new(),
            items: Some(strings(&["* main (current)", "dev", "origin/main", "Main"])),
            submit: None,
            close: Some("Cancel".to_string()),
        }
    );
}

#[test]
fn the_branch_selector_without_branches_shows_one_entry() {
    let screen = Screen::BranchSelector { branches: Vec::new(), current: "main".to_string() };
    assert_eq!(screen.project().items, Some(strings(&["No branches found"])));
}

#[test]
fn the_choice_of_a_search() {
    assert_eq!(
        Screen::SearchTypeSelector.project(),
        Projection {
            title: "Search Commits".to_string(),
            text: String::new(),
            list_title: String::new(),
            items: Some(strings(&[
                "Search by commit message",
                "Search by author",
                "Search by filename"
            ])),
            submit: None,
            close: Some("Cancel".to_string()),
        }
    );
}

#[test]
fn the_search_input_asks_by_kind() {
    let cases = [
        (SearchKind::Message, "Enter search term for commit messages:"),
        (SearchKind::Author, "Enter author name:"),
        (SearchKind::File, "Enter filename (e.g., src/main.rs):"),
    ];
    for (kind, prompt) in cases {
        assert_eq!(
            Screen::SearchInput { kind }.project(),
            Projection {
                title: "Search".to_string(),
                text: prompt.to_string(),
                list_title: String::new(),
                items: None,
                submit: Some("Search".to_string()),
                close: Some("Cancel".to_string()),
            }
        );
    }
}

#[test]
fn what_a_search_found() {
    let screen = Screen::SearchResults { query: "fix bug".to_string(), commits: history() };
    assert_eq!(
        screen.project(),
        Projection {
            title: "Search Results: 'fix bug'".to_string(),
            text: String::new(),
            list_title: String::new(),
            items: Some(strings(&["0123456 - 2024-03-02 - Second", "89abcde - 2024-03-01 - First"])),
            submit: None,
            close: Some("Close".to_string()),
        }
    );
    let screen = Screen::SearchResults { query: "fix bug".to_string(), commits: Vec::new() };
    assert_eq!(screen.project().items, Some(strings(&["No results found for 'fix bug'"])));
}

#[test]
fn the_details_of_a_commit() {
    let screen = Screen::CommitDetail {
        commit: commit("0123456789abcdef", "Ada", "2024-03-02", "Second"),
        stats: " a.rs | 2 +-\n".to_string(),
        files: strings(&["a.rs", "b.rs"]),
    };
    assert_eq!(
        screen.project(),
        Projection {
            title: "Commit Details".to_string(),
            text: "Hash: 0123456789abcdef\nAuthor: Ada\nDate: 2024-03-02\n\nMessage:\nSecond\n\n a.rs | 2 +-\n".to_string(),
            list_title: "Changed Files (Click to View)".to_string(),
            items: Some(strings(&["a.rs", "b.rs"])),
            submit: None,
            close: Some("Close".to_string()),
        }
    );
    let screen = Screen::CommitDetail {
        commit: commit("0123456789abcdef", "Ada", "2024-03-02", "Second"),
        stats: String::new(),
        files: Vec::new(),
    };
    assert_eq!(screen.project().items, Some(strings(&["No files changed"])));
}

#[test]
fn the_content_of_a_file() {
    let screen = Screen::FileContent {
        commit: commit("0123456789abcdef", "Ada", "2024-03-02", "Second"),
        file: FileDiff { filename: "src/a.rs".to_string(), diff: "fn main() {}\n".to_string() },
    };
    let header = format!("File: {}\nCommit: {}\n{}\n", "src/a.rs", "0123456", "-".repeat(60));
    assert_eq!(
        screen.project(),
        Projection {
            title: "File Content".to_string(),
            text: format!("{}\n{}", header, "fn main() {}\n"),
            list_title: String::new(),
            items: None,
            submit: None,
            close: Some("Close".to_string()),
        }
    );
}
