//! What can be asked about the repository, and the arguments with which the
//! version-control tool answers each question.

use crate::text::{decimal, push_decimal};
use vstd::prelude::*;

verus! {

/// One question about the repository.
#[derive(Debug, PartialEq, Eq)]
pub enum Query {
    /// The directory in which the program runs. The operating system answers
    /// this one, not the tool.
    CurrentDirectory,
    /// The name of the branch that is checked out.
    CurrentBranch,
    /// The names of all branches, local and remote.
    AllBranches,
    /// The `count` most recent commits of the current branch.
    Commits { count: usize },
    /// The `count` most recent commits of `branch`.
    BranchCommits { branch: String, count: usize },
    /// At most `max_results` commits whose message holds `query`.
    SearchCommits { query: String, max_results: usize },
    /// At most `max_results` commits whose author holds `author`.
    SearchCommitsByAuthor { author: String, max_results: usize },
    /// At most `max_results` commits that touch `filename`.
    SearchCommitsByFile { filename: String, max_results: usize },
    /// The summary of what the commit changed.
    CommitStats { commit_hash: String },
    /// The paths that the commit touched.
    ChangedFiles { commit_hash: String },
    /// The content of `filename` as it was at the commit.
    FileDiff { commit_hash: String, filename: String },
}

/// The mathematical value of a [`Query`].
pub ghost enum QueryView {
    CurrentDirectory,
    CurrentBranch,
    AllBranches,
    Commits { count: nat },
    BranchCommits { branch: Seq<char>, count: nat },
    SearchCommits { query: Seq<char>, max_results: nat },
    SearchCommitsByAuthor { author: Seq<char>, max_results: nat },
    SearchCommitsByFile { filename: Seq<char>, max_results: nat },
    CommitStats { commit_hash: Seq<char> },
    ChangedFiles { commit_hash: Seq<char> },
    FileDiff { commit_hash: Seq<char>, filename: Seq<char> },
}

impl View for Query {
    type V = QueryView;

    open spec fn view(&self) -> QueryView {
        match self {
            Query::CurrentDirectory => QueryView::CurrentDirectory,
            Query::CurrentBranch => QueryView::CurrentBranch,
            Query::AllBranches => QueryView::AllBranches,
            Query::Commits { count } => QueryView::Commits { count: *count as nat },
            Query::BranchCommits { branch, count } => QueryView::BranchCommits {
                branch: branch@,
                count: *count as nat,
            },
            Query::SearchCommits { query, max_results } => QueryView::SearchCommits {
                query: query@,
                max_results: *max_results as nat,
            },
            Query::SearchCommitsByAuthor { author, max_results } => {
                QueryView::SearchCommitsByAuthor {
                    author: author@,
                    max_results: *max_results as nat,
                }
            },
            Query::SearchCommitsByFile { filename, max_results } => {
                QueryView::SearchCommitsByFile {
                    filename: filename@,
                    max_results: *max_results as nat,
                }
            },
            Query::CommitStats { commit_hash } => QueryView::CommitStats {
                commit_hash: commit_hash@,
            },
            Query::ChangedFiles { commit_hash } => QueryView::ChangedFiles {
                commit_hash: commit_hash@,
            },
            Query::FileDiff { commit_hash, filename } => QueryView::FileDiff {
                commit_hash: commit_hash@,
                filename: filename@,
            },
        }
    }
}

impl DeepView for Query {
    type V = QueryView;

    open spec fn deep_view(&self) -> QueryView {
        self@
    }
}

/// The argument that limits a log to `count` entries.
pub open spec fn limit_flag(count: nat) -> Seq<char> {
    "-"@ + decimal(count)
}

/// The argument that makes the log print one record per line: hash, author,
/// date and subject, with `|` between them.
pub open spec fn record_format() -> Seq<char> {
    "--pretty=format:%H|%an|%ad|%s"@
}

/// The argument that makes the log print dates as a calendar day.
pub open spec fn short_dates() -> Seq<char> {
    "--date=short"@
}

/// The first arguments of every log query: the subcommand, the revision
/// where one is given, the limit, and the formats of records and dates.
pub open spec fn log_arguments(revision: Option<Seq<char>>, count: nat) -> Seq<Seq<char>> {
    match revision {
        Some(name) => seq!["log"@, name, limit_flag(count), record_format(), short_dates()],
        None => seq!["log"@, limit_flag(count), record_format(), short_dates()],
    }
}

impl QueryView {
    /// The arguments with which the tool answers the query, or `None` for the
    /// one query that the tool is not asked.
    ///
    /// A text to search for is handed over inside one argument, behind the
    /// option's name, and is matched as it is written, whatever letters'
    /// case: never as a pattern, never as an option.
    pub open spec fn arguments(self) -> Option<Seq<Seq<char>>> {
        match self {
            QueryView::CurrentDirectory => None,
            QueryView::CurrentBranch => Some(seq!["branch"@, "--show-current"@]),
            QueryView::AllBranches => Some(
                seq!["branch"@, "-a"@, "--format=%(refname:short)"@],
            ),
            QueryView::Commits { count } => Some(log_arguments(None, count)),
            QueryView::BranchCommits { branch, count } => Some(log_arguments(Some(branch), count)),
            QueryView::SearchCommits { query, max_results } => Some(
                log_arguments(None, max_results) + seq![
                    "--grep="@ + query,
                    "-i"@,
                    "--fixed-strings"@,
                ],
            ),
            QueryView::SearchCommitsByAuthor { author, max_results } => Some(
                log_arguments(None, max_results) + seq![
                    "--author="@ + author,
                    "-i"@,
                    "--fixed-strings"@,
                ],
            ),
            QueryView::SearchCommitsByFile { filename, max_results } => Some(
                log_arguments(None, max_results) + seq!["--"@, filename],
            ),
            QueryView::CommitStats { commit_hash } => Some(
                seq!["show"@, "--stat"@, "--pretty=format:"@, commit_hash],
            ),
            QueryView::ChangedFiles { commit_hash } => Some(
                seq!["diff-tree"@, "--no-commit-id"@, "--name-only"@, "-r"@, commit_hash],
            ),
            QueryView::FileDiff { commit_hash, filename } => Some(
                seq!["show"@, commit_hash + ":"@ + filename],
            ),
        }
    }
}

/// The name of the version-control tool: the program that is started with a
/// query's arguments.
pub fn program() -> (name: &'static str)
    ensures
        name@ == "git"@,
{
    "git"
}

/// The argument that limits a log to `count` entries.
fn limit(count: usize) -> (flag: String)
    ensures
        flag@ == limit_flag(count as nat),
{
    let mut flag = "-".to_owned();
    push_decimal(&mut flag, count);
    flag
}

/// `head` followed by `tail`, as one string.
fn glue(head: &str, tail: &str) -> (whole: String)
    ensures
        whole@ == head@ + tail@,
{
    let mut whole = head.to_owned();
    whole.append(tail);
    whole
}

/// The first arguments of every log query.
fn log_head(revision: Option<&str>, count: usize) -> (args: Vec<String>)
    ensures
        args.deep_view() == log_arguments(revision.deep_view(), count as nat),
{
    let mut args: Vec<String> = Vec::new();
    args.push("log".to_owned());
    match revision {
        Some(name) => {
            args.push(name.to_owned());
        },
        None => {},
    }
    args.push(limit(count));
    args.push("--pretty=format:%H|%an|%ad|%s".to_owned());
    args.push("--date=short".to_owned());
    assert(args.deep_view() =~= log_arguments(revision.deep_view(), count as nat));
    args
}

impl Query {
    /// The arguments to start the tool with for this query, or `None` for the
    /// one query that the tool is not asked.
    pub fn arguments(&self) -> (args: Option<Vec<String>>)
        ensures
            args.deep_view() == self@.arguments(),
    {
        match self {
            Query::CurrentDirectory => None,
            Query::CurrentBranch => {
                let mut args: Vec<String> = Vec::new();
                args.push("branch".to_owned());
                args.push("--show-current".to_owned());
                assert(args.deep_view() =~= seq!["branch"@, "--show-current"@]);
                Some(args)
            },
            Query::AllBranches => {
                let mut args: Vec<String> = Vec::new();
                args.push("branch".to_owned());
                args.push("-a".to_owned());
                args.push("--format=%(refname:short)".to_owned());
                assert(args.deep_view() =~= seq!["branch"@, "-a"@, "--format=%(refname:short)"@]);
                Some(args)
            },
            Query::Commits { count } => Some(log_head(None, *count)),
            Query::BranchCommits { branch, count } => Some(log_head(Some(branch.as_str()), *count)),
            Query::SearchCommits { query, max_results } => {
                let mut args = log_head(None, *max_results);
                let ghost head = args.deep_view();
                let pattern = glue("--grep=", query.as_str());
                args.push(pattern);
                args.push("-i".to_owned());
                args.push("--fixed-strings".to_owned());
                assert(args.deep_view() =~= head + seq![
                    "--grep="@ + query@,
                    "-i"@,
                    "--fixed-strings"@,
                ]);
                assert(args.deep_view() =~= self@.arguments()->0);
                Some(args)
            },
            Query::SearchCommitsByAuthor { author, max_results } => {
                let mut args = log_head(None, *max_results);
                let ghost head = args.deep_view();
                let pattern = glue("--author=", author.as_str());
                args.push(pattern);
                args.push("-i".to_owned());
                args.push("--fixed-strings".to_owned());
                assert(args.deep_view() =~= head + seq![
                    "--author="@ + author@,
                    "-i"@,
                    "--fixed-strings"@,
                ]);
                assert(args.deep_view() =~= self@.arguments()->0);
                Some(args)
            },
            Query::SearchCommitsByFile { filename, max_results } => {
                let mut args = log_head(None, *max_results);
                let ghost head = args.deep_view();
                args.push("--".to_owned());
                args.push(filename.clone());
                assert(args.deep_view() =~= head + seq!["--"@, filename@]);
                assert(args.deep_view() =~= self@.arguments()->0);
                Some(args)
            },
            Query::CommitStats { commit_hash } => {
                let mut args: Vec<String> = Vec::new();
                args.push("show".to_owned());
                args.push("--stat".to_owned());
                args.push("--pretty=format:".to_owned());
                args.push(commit_hash.clone());
                assert(args.deep_view() =~= self@.arguments()->0);
                Some(args)
            },
            Query::ChangedFiles { commit_hash } => {
                let mut args: Vec<String> = Vec::new();
                args.push("diff-tree".to_owned());
                args.push("--no-commit-id".to_owned());
                args.push("--name-only".to_owned());
                args.push("-r".to_owned());
                args.push(commit_hash.clone());
                assert(args.deep_view() =~= self@.arguments()->0);
                Some(args)
            },
            Query::FileDiff { commit_hash, filename } => {
                let mut args: Vec<String> = Vec::new();
                args.push("show".to_owned());
                let mut object = glue(commit_hash.as_str(), ":");
                object.append(filename.as_str());
                args.push(object);
                assert(args.deep_view() =~= self@.arguments()->0);
                Some(args)
            },
        }
    }
}

} // verus!
