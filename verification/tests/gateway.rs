use pipe::gateway::{
    decode_branch, decode_branches, decode_changed_files, decode_commit, decode_commits,
    decode_directory, decode_file_content, decode_stats, fetch, get_all_branches,
    get_branch_commits, get_changed_files, get_commit_stats, get_commits, get_current_branch,
    get_current_directory, get_file_diff, noise, search_commits, search_commits_by_author,
    search_commits_by_file, CONTENT_LINES, FIELD_DELIMITER,
};
use pipe::query::Query;
use pipe::record::Commit;

fn commit(hash: &str, author: &str, date: &str, message: &str) -> Commit {
    Commit {
        hash: hash.to_string(),
        author: author.to_string(),
        date: date.to_string(),
        message: message.to_string(),
    }
}

fn strings(items: &[&str]) -> Vec<String> {
    items.iter().map(|item| item.to_string()).collect()
}

fn failing(_query: &Query) -> Option<String> {
    None
}

#[test]
fn a_line_of_four_fields_is_one_commit() {
    assert_eq!(
        decode_commit("0123456789abcdef|Ada Lovelace|2024-03-01|Fix bug in parser"),
        commit("0123456789abcdef", "Ada Lovelace", "2024-03-01", "Fix bug in parser")
    );
}

#[test]
fn missing_fields_are_empty() {
    assert_eq!(decode_commit("abc|Ada|2024-03-01"), commit("abc", "Ada", "2024-03-01", ""));
    assert_eq!(decode_commit("abc|Ada"), commit("abc", "Ada", "", ""));
    assert_eq!(decode_commit("abc"), commit("abc", "", "", ""));
    assert_eq!(decode_commit("abc|"), commit("abc", "", "", ""));
    assert_eq!(decode_commit(""), commit("", "", "", ""));
    assert_eq!(decode_commit("|||"), commit("", "", "", ""));
    assert_eq!(decode_commit("|Ada||text"), commit("", "Ada", "", "text"));
}

#[test]
fn fields_after_the_fourth_are_left_out() {
    assert_eq!(
        decode_commit("abc|Ada|2024-03-01|first|second|third"),
        commit("abc", "Ada", "2024-03-01", "first")
    );
    assert_eq!(decode_commit("a|b|c|d|"), commit("a", "b", "c", "d"));
}

#[test]
fn the_delimiter_is_the_pipe() {
    assert_eq!(FIELD_DELIMITER, '|');
}

#[test]
fn each_line_that_holds_anything_is_one_commit() {
    let text = "a1|Ada|2024-03-01|one\n\nb2|Bob|2024-03-02|two\n\n\nc3\n";
    assert_eq!(
        decode_commits(Some(text)),
        vec![
            commit("a1", "Ada", "2024-03-01", "one"),
            commit("b2", "Bob", "2024-03-02", "two"),
            commit("c3", "", "", ""),
        ]
    );
}

#[test]
fn commits_without_a_final_line_feed_and_with_carriage_returns() {
    assert_eq!(
        decode_commits(Some("a1|Ada|2024-03-01|one\r\nb2|Bob|2024-03-02|two")),
        vec![commit("a1", "Ada", "2024-03-01", "one"), commit("b2", "Bob", "2024-03-02", "two")]
    );
}

#[test]
fn no_output_and_no_lines_give_no_commits() {
    assert_eq!(decode_commits(None), Vec::<Commit>::new());
    assert_eq!(decode_commits(Some("")), Vec::<Commit>::new());
    assert_eq!(decode_commits(Some("\n\n\r\n")), Vec::<Commit>::new());
}

#[test]
fn there_are_never_more_commits_than_lines_that_hold_anything() {
    let texts = ["", "\n", "a", "a|b|c|d|e|f\n", "|\n|\n", "x\n\ny\n\n", "a|b\r\n\r\nc|d|e|f|g"];
    for text in texts {
        let filled = text.lines().filter(|line| !line.is_empty()).count();
        assert_eq!(decode_commits(Some(text)).len(), filled, "text {:?}", text);
    }
}

#[test]
fn the_current_branch_is_trimmed() {
    assert_eq!(decode_branch(Some("main\n")), "main");
    assert_eq!(decode_branch(Some("  feature/x \r\n")), "feature/x");
    assert_eq!(decode_branch(Some("")), "");
}

#[test]
fn a_failure_gives_each_placeholder() {
    assert_eq!(decode_branch(None), "Not a git repository");
    assert_eq!(decode_directory(None), "Unknown");
    assert_eq!(decode_stats(None), "No stats available");
    assert_eq!(decode_file_content(None), "Unable to retrieve file content");
    assert_eq!(decode_changed_files(None), Vec::<String>::new());
    assert_eq!(decode_branches(None), Vec::<String>::new());
    assert_eq!(decode_commits(None), Vec::<Commit>::new());
}

#[test]
fn directory_and_stats_are_kept_as_they_are() {
    assert_eq!(decode_directory(Some("/home/ada/project")), "/home/ada/project");
    let stats = " src/main.rs | 4 ++--\n 1 file changed, 2 insertions(+), 2 deletions(-)\n";
    assert_eq!(decode_stats(Some(stats)), stats);
}

#[test]
fn changed_files_leave_out_the_noise() {
    assert_eq!(
        decode_changed_files(Some("target/debug/app.o\n.git/HEAD\nsrc/main.ext\n")),
        strings(&["src/main.ext"])
    );
}

#[test]
fn what_counts_as_noise() {
    assert!(noise("target/debug/app"));
    assert!(noise("sub/target/x.rs"));
    assert!(noise("lib/code.o"));
    assert!(noise("deps/app-123.rcgu.o"));
    assert!(noise(".git/config"));
    assert!(noise("vendor/.git/HEAD"));
    assert!(!noise("src/main.rs"));
    assert!(!noise("target"));
    assert!(!noise("src/targets.rs"));
    assert!(!noise(".github/workflows/ci.yml"));
    assert!(!noise(".gitignore"));
    assert!(!noise("docs/a.odt"));
    assert!(!noise(""));
}

#[test]
fn changed_files_skip_empty_lines_and_keep_the_order() {
    assert_eq!(
        decode_changed_files(Some("b.rs\n\na.rs\nx.o\nREADME.md")),
        strings(&["b.rs", "a.rs", "README.md"])
    );
}

#[test]
fn a_file_of_1500_lines_is_cut_to_1000() {
    let mut text = String::new();
    for n in 1..=1500 {
        text.push_str(&format!("line {}\n", n));
    }
    let content = decode_file_content(Some(&text));
    assert_eq!(content.lines().count(), 1000);
    let expected: Vec<String> = (1..=1000).map(|n| format!("line {}", n)).collect();
    assert_eq!(content, expected.join("\n"));
    assert_eq!(CONTENT_LINES, 1000);
}

#[test]
fn a_short_file_is_kept_whole_without_its_last_line_feed() {
    assert_eq!(decode_file_content(Some("a\nb\n")), "a\nb");
    assert_eq!(decode_file_content(Some("a\r\n\r\nb")), "a\n\nb");
    assert_eq!(decode_file_content(Some("")), "");
    let mut text = String::new();
    for n in 1..=1000 {
        text.push_str(&format!("{}\n", n));
    }
    assert_eq!(decode_file_content(Some(&text)).lines().count(), 1000);
}

#[test]
fn branches_are_the_lines_that_hold_anything() {
    assert_eq!(
        decode_branches(Some("main\ndev\n\norigin/main\n")),
        strings(&["main", "dev", "origin/main"])
    );
    assert_eq!(decode_branches(Some("")), Vec::<String>::new());
}

#[test]
fn every_gateway_function_degrades_when_the_tool_fails() {
    assert_eq!(get_current_branch(&failing), "Not a git repository");
    assert_eq!(get_current_directory(&failing), "Unknown");
    assert_eq!(get_commits(20, &failing), Vec::<Commit>::new());
    assert_eq!(get_branch_commits("dev", 20, &failing), Vec::<Commit>::new());
    assert_eq!(search_commits("fix", 50, &failing), Vec::<Commit>::new());
    assert_eq!(search_commits_by_author("ada", 50, &failing), Vec::<Commit>::new());
    assert_eq!(search_commits_by_file("src/main.rs", 50, &failing), Vec::<Commit>::new());
    assert_eq!(get_commit_stats("abc", &failing), "No stats available");
    assert_eq!(get_changed_files("abc", &failing), Vec::<String>::new());
    assert_eq!(get_file_diff("abc", "src/main.rs", &failing), "Unable to retrieve file content");
    assert_eq!(get_all_branches(&failing), Vec::<String>::new());
}

#[test]
fn every_gateway_function_asks_its_own_query() {
    let echo = |query: &Query| -> Option<String> {
        Some(match query {
            Query::CurrentDirectory => "/work".to_string(),
            Query::CurrentBranch => " main \n".to_string(),
            Query::AllBranches => "main\ndev\n".to_string(),
            Query::Commits { count } => format!("c{}|a|d|commits", count),
            Query::BranchCommits { branch, count } => format!("b{}|a|d|{}", count, branch),
            Query::SearchCommits { query, max_results } => format!("m{}|a|d|{}", max_results, query),
            Query::SearchCommitsByAuthor { author, max_results } => {
                format!("u{}|{}|d|by author", max_results, author)
            }
            Query::SearchCommitsByFile { filename, max_results } => {
                format!("f{}|a|d|{}", max_results, filename)
            }
            Query::CommitStats { commit_hash } => format!("stats of {}", commit_hash),
            Query::ChangedFiles { commit_hash } => format!("{}.rs\n{}.o\n", commit_hash, commit_hash),
            Query::FileDiff { commit_hash, filename } => format!("{}\n{}\n", commit_hash, filename),
        })
    };
    assert_eq!(get_current_directory(&echo), "/work");
    assert_eq!(get_current_branch(&echo), "main");
    assert_eq!(get_all_branches(&echo), strings(&["main", "dev"]));
    assert_eq!(get_commits(20, &echo), vec![commit("c20", "a", "d", "commits")]);
    assert_eq!(get_branch_commits("dev", 7, &echo), vec![commit("b7", "a", "d", "dev")]);
    assert_eq!(search_commits("fix bug", 50, &echo), vec![commit("m50", "a", "d", "fix bug")]);
    assert_eq!(
        search_commits_by_author("Ada", 50, &echo),
        vec![commit("u50", "Ada", "d", "by author")]
    );
    assert_eq!(
        search_commits_by_file("src/a.rs", 3, &echo),
        vec![commit("f3", "a", "d", "src/a.rs")]
    );
    assert_eq!(get_commit_stats("abc", &echo), "stats of abc");
    assert_eq!(get_changed_files("abc", &echo), strings(&["abc.rs"]));
    assert_eq!(get_file_diff("abc", "src/a.rs", &echo), "abc\nsrc/a.rs");
}

#[test]
fn a_search_finds_the_one_commit_whose_message_holds_the_phrase() {
    let history = [
        ("1111111111111111111111111111111111111111", "Ada", "2024-03-03", "Add search dialog"),
        ("2222222222222222222222222222222222222222", "Bob", "2024-03-02", "Fix Bug in the branch list"),
        ("3333333333333333333333333333333333333333", "Cyd", "2024-03-01", "Initial commit"),
    ];
    let repository = |query: &Query| -> Option<String> {
        match query {
            Query::SearchCommits { query, max_results } => {
                let wanted = query.to_lowercase();
                let found: Vec<String> = history
                    .iter()
                    .filter(|entry| entry.3.to_lowercase().contains(&wanted))
                    .take(*max_results)
                    .map(|entry| format!("{}|{}|{}|{}", entry.0, entry.1, entry.2, entry.3))
                    .collect();
                Some(found.join("\n"))
            }
            _ => None,
        }
    };
    assert_eq!(
        search_commits("fix bug", 50, &repository),
        vec![commit(
            "2222222222222222222222222222222222222222",
            "Bob",
            "2024-03-02",
            "Fix Bug in the branch list"
        )]
    );
    assert_eq!(search_commits("no such phrase", 50, &repository), Vec::<Commit>::new());
}

#[test]
fn fetch_asks_every_query_in_order() {
    let queries = vec![Query::CurrentBranch, Query::Commits { count: 20 }, Query::AllBranches];
    let run = |query: &Query| -> Option<String> {
        match query {
            Query::CurrentBranch => Some("main".to_string()),
            Query::Commits { count } => Some(format!("{}", count)),
            _ => None,
        }
    };
    assert_eq!(
        fetch(&queries, &run),
        vec![Some("main".to_string()), Some("20".to_string()), None]
    );
    assert_eq!(fetch(&Vec::new(), &run), Vec::<Option<String>>::new());
}

#[test]
fn the_content_of_a_long_file_is_cut_on_the_way_through_the_gateway() {
    let repository = |query: &Query| -> Option<String> {
        match query {
            Query::FileDiff { commit_hash, filename } if commit_hash == "abc" && filename == "big.txt" => {
                let lines: Vec<String> = (1..=1500).map(|n| format!("{}", n)).collect();
                Some(lines.join("\n"))
            }
            _ => None,
        }
    };
    let content = get_file_diff("abc", "big.txt", &repository);
    assert_eq!(content.lines().count(), 1000);
    assert_eq!(content.lines().last(), Some("1000"));
    assert_eq!(get_file_diff("abc", "other.txt", &repository), "Unable to retrieve file content");
}

#[test]
fn the_changed_files_of_a_commit_come_without_the_noise() {
    let repository = |query: &Query| -> Option<String> {
        match query {
            Query::ChangedFiles { commit_hash } if commit_hash == "abc" => {
                Some("target/debug/app.o\n.git/HEAD\nsrc/main.ext\n".to_string())
            }
            _ => None,
        }
    };
    assert_eq!(get_changed_files("abc", &repository), strings(&["src/main.ext"]));
    assert_eq!(get_changed_files("def", &repository), Vec::<String>::new());
}

#[test]
fn a_path_that_only_holds_the_name_of_a_directory_is_kept() {
    assert_eq!(
        decode_changed_files(Some("docs/retarget/notes.md\nsrc/main.ext\n")),
        strings(&["docs/retarget/notes.md", "src/main.ext"])
    );
    assert_eq!(decode_changed_files(Some("docs/retarget/notes.md")), strings(&["docs/retarget/notes.md"]));
    assert!(!noise("docs/retarget/notes.md"));
    assert!(!noise("mytarget/x.rs"));
    assert!(!noise("repo.git/config.txt"));
    assert!(!noise("src/x.git/file"));
    assert!(!noise("src/target"));
    assert!(!noise("a/.git"));
    assert!(noise("target/x"));
    assert!(noise("a/b/target/c/d.rs"));
    assert!(noise(".git/x"));
    assert!(noise("a/.git/x"));
    assert!(noise("x.o"));
}

#[test]
fn every_line_that_is_shown_comes_out_as_often_as_it_went_in() {
    let text = "a.rs\ntarget/a.rs\na.rs\n\nb.o\nretarget/b.rs\n.git/HEAD\na.rs\nretarget/b.rs";
    assert_eq!(
        decode_changed_files(Some(text)),
        strings(&["a.rs", "a.rs", "retarget/b.rs", "a.rs", "retarget/b.rs"])
    );
}

#[test]
fn the_lines_of_the_content_are_the_first_lines_of_the_file() {
    let mut long = String::new();
    for n in 1..=1500 {
        long.push_str(&format!("line {}\r\n", n));
    }
    let texts = ["", "a", "a\nb\nc", "a\n\nb\n", "x\r\ny", "\n\nz", "caf\u{e9}\n\u{1f33f}\n", long.as_str()];
    for text in texts {
        let content = decode_file_content(Some(text));
        let shown: Vec<&str> = content.lines().collect();
        let expected: Vec<&str> = text.lines().take(1000).collect();
        assert_eq!(shown, expected, "text {:?}", text);
    }
}

#[test]
fn an_empty_last_line_is_the_end_of_the_content() {
    let content = decode_file_content(Some("a\n\n"));
    assert_eq!(content, "a\n");
    assert_eq!(content.lines().count(), 1);
}
