use pipe::query::{program, Query};

fn strings(items: &[&str]) -> Option<Vec<String>> {
    Some(items.iter().map(|item| item.to_string()).collect())
}

const FORMAT: &str = "--pretty=format:%H|%an|%ad|%s";

#[test]
fn the_working_directory_is_not_asked_of_the_tool() {
    assert_eq!(Query::CurrentDirectory.arguments(), None);
}

#[test]
fn arguments_of_the_branch_queries() {
    assert_eq!(Query::CurrentBranch.arguments(), strings(&["branch", "--show-current"]));
    assert_eq!(
        Query::AllBranches.arguments(),
        strings(&["branch", "-a", "--format=%(refname:short)"])
    );
}

#[test]
fn arguments_of_the_log_queries() {
    assert_eq!(
        Query::Commits { count: 20 }.arguments(),
        strings(&["log", "-20", FORMAT, "--date=short"])
    );
    assert_eq!(
        Query::Commits { count: 0 }.arguments(),
        strings(&["log", "-0", FORMAT, "--date=short"])
    );
    assert_eq!(
        Query::BranchCommits { branch: "dev".to_string(), count: 20 }.arguments(),
        strings(&["log", "dev", "-20", FORMAT, "--date=short"])
    );
}

#[test]
fn arguments_of_the_searches() {
    assert_eq!(
        Query::SearchCommits { query: "fix bug".to_string(), max_results: 50 }.arguments(),
        strings(&["log", "-50", FORMAT, "--date=short", "--grep=fix bug", "-i", "--fixed-strings"])
    );
    assert_eq!(
        Query::SearchCommitsByAuthor { author: "Ada".to_string(), max_results: 50 }.arguments(),
        strings(&["log", "-50", FORMAT, "--date=short", "--author=Ada", "-i", "--fixed-strings"])
    );
    assert_eq!(
        Query::SearchCommitsByFile { filename: "src/main.rs".to_string(), max_results: 50 }
            .arguments(),
        strings(&["log", "-50", FORMAT, "--date=short", "--", "src/main.rs"])
    );
}

#[test]
fn a_search_text_stays_inside_one_argument() {
    let args = Query::SearchCommits { query: "--all -p .*".to_string(), max_results: 5 }
        .arguments()
        .unwrap();
    assert_eq!(args.len(), 7);
    assert_eq!(args[4], "--grep=--all -p .*");
}

#[test]
fn arguments_of_the_commit_queries() {
    assert_eq!(
        Query::CommitStats { commit_hash: "abc123".to_string() }.arguments(),
        strings(&["show", "--stat", "--pretty=format:", "abc123"])
    );
    assert_eq!(
        Query::ChangedFiles { commit_hash: "abc123".to_string() }.arguments(),
        strings(&["diff-tree", "--no-commit-id", "--name-only", "-r", "abc123"])
    );
    assert_eq!(
        Query::FileDiff { commit_hash: "abc123".to_string(), filename: "src/main.rs".to_string() }
            .arguments(),
        strings(&["show", "abc123:src/main.rs"])
    );
}

#[test]
fn the_tool_is_git() {
    assert_eq!(program(), "git");
}
