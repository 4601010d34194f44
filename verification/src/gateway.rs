//! The repository gateway: how the text that the version-control tool prints is
//! decoded into records, and what each query degrades to when the tool fails.
//!
//! Nothing here starts the tool. The functions that decode take its output as
//! `Option<&str>`: `None` where the tool could not be started or ended with a
//! failure, else what it printed. The functions that ask take `run`, which
//! answers a query with such an output, and decode what `run` gave. No
//! function here fails; each maps `None` to its empty or placeholder result.

use crate::query::{Query, QueryView};
use crate::record::{Commit, CommitView};
use crate::text::{
    are_kept_by_joining, contains, ends_with, first_lines, first_of, join, joined,
    lemma_line_feeds_of_joined, lemma_lines_hold_no_line_feed, lemma_lines_of_joined,
    lemma_split_joined, line_feeds, lines, lines_of, occurs_in, split, split_on, starts_with, trim,
    trimmed,
};
use vstd::prelude::*;

verus! {

/// The delimiter between the fields of a record.
pub const FIELD_DELIMITER: char = '|';

/// The number of lines of a file's content that are kept.
pub const CONTENT_LINES: usize = 1000;

/// Field `k` of a record, or the empty sequence where the record has no field `k`.
pub open spec fn field_of(fields: Seq<Seq<char>>, k: int) -> Seq<char> {
    if 0 <= k < fields.len() {
        fields[k]
    } else {
        Seq::empty()
    }
}

/// The commit that a line of the log stands for: its first four fields are the
/// hash, the author, the date and the message. A field that the line lacks is
/// empty; a fifth field and what follows it are left out.
pub open spec fn commit_of(line: Seq<char>) -> CommitView {
    let fields = split_on(line, FIELD_DELIMITER);
    CommitView {
        hash: field_of(fields, 0),
        author: field_of(fields, 1),
        date: field_of(fields, 2),
        message: field_of(fields, 3),
    }
}

/// Whether a line holds anything.
pub open spec fn is_filled(line: Seq<char>) -> bool {
    line.len() > 0
}

/// The lines of `text` that hold anything.
pub open spec fn filled_lines(text: Seq<char>) -> Seq<Seq<char>> {
    lines_of(text).filter(|line: Seq<char>| is_filled(line))
}

/// The commits that the log's output stands for: one for each line that holds
/// anything, in the order of the lines.
pub open spec fn commits_of(text: Seq<char>) -> Seq<CommitView> {
    filled_lines(text).map_values(|line: Seq<char>| commit_of(line))
}

/// Decoding gives one commit for each line that holds anything, and none for
/// any other line: commit `k` is the one that the `k`-th such line stands for,
/// and there are no more commits than lines.
pub proof fn lemma_one_commit_per_line(text: Seq<char>)
    ensures
        commits_of(text).len() == filled_lines(text).len(),
        commits_of(text).len() <= lines_of(text).len(),
        forall|k: int|
            0 <= k < commits_of(text).len() ==> (is_filled(#[trigger] filled_lines(text)[k])
                && commits_of(text)[k] == commit_of(filled_lines(text)[k])),
{
    let filled = |line: Seq<char>| is_filled(line);
    lines_of(text).lemma_filter_len(filled);
    assert forall|k: int| 0 <= k < commits_of(text).len() implies is_filled(
        #[trigger] filled_lines(text)[k],
    ) by {
        lines_of(text).lemma_filter_pred(filled, k);
    }
}

/// A line of fields with `|` between them decodes to its first four fields,
/// however many it has: a field that is missing is empty, and a fifth field
/// and what follows it are left out.
pub proof fn lemma_commit_of_fields(fields: Seq<Seq<char>>)
    requires
        forall|k: int| 0 <= k < fields.len() ==> !(#[trigger] fields[k]).contains(FIELD_DELIMITER),
    ensures
        commit_of(joined(fields, seq![FIELD_DELIMITER])) == (CommitView {
            hash: field_of(fields, 0),
            author: field_of(fields, 1),
            date: field_of(fields, 2),
            message: field_of(fields, 3),
        }),
{
    if fields.len() >= 1 {
        lemma_split_joined(fields, FIELD_DELIMITER);
    }
}

/// Field `k` of `fields` as a string of its own, empty where there is no such field.
fn field(fields: &Vec<String>, k: usize) -> (text: String)
    ensures
        text@ == field_of(fields.deep_view(), k as int),
{
    if k < fields.len() {
        fields[k].clone()
    } else {
        String::new()
    }
}

/// Decodes one line of the log.
pub fn decode_commit(line: &str) -> (commit: Commit)
    ensures
        commit@ == commit_of(line@),
{
    let fields = split(line, FIELD_DELIMITER);
    Commit {
        hash: field(&fields, 0),
        author: field(&fields, 1),
        date: field(&fields, 2),
        message: field(&fields, 3),
    }
}

/// The lines of `text` that hold anything.
fn decode_lines(text: &str) -> (kept: Vec<String>)
    ensures
        kept.deep_view() == filled_lines(text@),
{
    let all = lines(text);
    let mut kept: Vec<String> = Vec::new();
    let ghost filled = |line: Seq<char>| is_filled(line);
    let mut i: usize = 0;
    assert(all.deep_view().take(0) == Seq::<Seq<char>>::empty());
    while i < all.len()
        invariant
            i <= all.len(),
            filled == (|line: Seq<char>| is_filled(line)),
            kept.deep_view() == all.deep_view().take(i as int).filter(filled),
        decreases all.len() - i,
    {
        proof {
            let seen = all.deep_view().take(i as int);
            assert(all.deep_view().take(i + 1) == seen.push(all@[i as int]@));
            seen.lemma_filter_push(all@[i as int]@, filled);
        }
        if !all[i].as_str().is_empty() {
            let ghost before = kept.deep_view();
            let line = all[i].clone();
            kept.push(line);
            assert(kept.deep_view() == before.push(line@));
        }
        i += 1;
    }
    assert(all.deep_view().take(i as int) == all.deep_view());
    kept
}

/// The commits that a log query gives: those of its output, or none where the
/// tool failed.
pub open spec fn commits_from(output: Option<Seq<char>>) -> Seq<CommitView> {
    match output {
        Some(text) => commits_of(text),
        None => Seq::empty(),
    }
}

/// Decodes the output of a log query. Where the tool failed there are no commits.
pub fn decode_commits(output: Option<&str>) -> (commits: Vec<Commit>)
    ensures
        commits.deep_view() == commits_from(output.deep_view()),
{
    let mut commits: Vec<Commit> = Vec::new();
    match output {
        None => {
            assert(commits.deep_view() == Seq::<CommitView>::empty());
        },
        Some(text) => {
            let kept = decode_lines(text);
            let ghost decode = |line: Seq<char>| commit_of(line);
            let mut i: usize = 0;
            while i < kept.len()
                invariant
                    i <= kept.len(),
                    decode == (|line: Seq<char>| commit_of(line)),
                    commits.deep_view() == kept.deep_view().take(i as int).map_values(decode),
                decreases kept.len() - i,
            {
                let ghost before = commits.deep_view();
                let commit = decode_commit(kept[i].as_str());
                commits.push(commit);
                assert(commits.deep_view() == before.push(commit@));
                assert(kept.deep_view().take(i + 1) == kept.deep_view().take(i as int).push(
                    kept@[i as int]@,
                ));
                i += 1;
            }
            assert(kept.deep_view().take(i as int) == kept.deep_view());
        },
    }
    commits
}

/// What stands for the current branch where the tool failed.
pub open spec fn no_repository() -> Seq<char> {
    "Not a git repository"@
}

/// What stands for the working directory where it cannot be had.
pub open spec fn unknown_directory() -> Seq<char> {
    "Unknown"@
}

/// What stands for a commit's statistics where the tool failed.
pub open spec fn no_stats() -> Seq<char> {
    "No stats available"@
}

/// What stands for a file's content where the tool failed.
pub open spec fn no_content() -> Seq<char> {
    "Unable to retrieve file content"@
}

/// The name of the current branch: the output without the white space around
/// it, or a placeholder where the tool failed.
pub open spec fn branch_from(output: Option<Seq<char>>) -> Seq<char> {
    match output {
        Some(text) => trimmed(text),
        None => no_repository(),
    }
}

/// The working directory: the path as it was handed in, or a placeholder where
/// there is none.
pub open spec fn directory_from(output: Option<Seq<char>>) -> Seq<char> {
    match output {
        Some(text) => text,
        None => unknown_directory(),
    }
}

/// A commit's statistics: the output as it is, or a placeholder where the tool
/// failed.
pub open spec fn stats_from(output: Option<Seq<char>>) -> Seq<char> {
    match output {
        Some(text) => text,
        None => no_stats(),
    }
}

/// The names of all branches: the lines of the output that hold anything, or
/// none where the tool failed.
pub open spec fn branches_from(output: Option<Seq<char>>) -> Seq<Seq<char>> {
    match output {
        Some(text) => filled_lines(text),
        None => Seq::empty(),
    }
}

/// Decodes the name of the current branch.
pub fn decode_branch(output: Option<&str>) -> (branch: String)
    ensures
        branch@ == branch_from(output.deep_view()),
{
    match output {
        Some(text) => trim(text),
        None => "Not a git repository".to_owned(),
    }
}

/// Decodes the working directory.
pub fn decode_directory(output: Option<&str>) -> (directory: String)
    ensures
        directory@ == directory_from(output.deep_view()),
{
    match output {
        Some(text) => text.to_owned(),
        None => "Unknown".to_owned(),
    }
}

/// Decodes a commit's statistics.
pub fn decode_stats(output: Option<&str>) -> (stats: String)
    ensures
        stats@ == stats_from(output.deep_view()),
{
    match output {
        Some(text) => text.to_owned(),
        None => "No stats available".to_owned(),
    }
}

/// Decodes the names of all branches.
pub fn decode_branches(output: Option<&str>) -> (branches: Vec<String>)
    ensures
        branches.deep_view() == branches_from(output.deep_view()),
{
    match output {
        Some(text) => decode_lines(text),
        None => {
            let branches: Vec<String> = Vec::new();
            assert(branches.deep_view() == Seq::<Seq<char>>::empty());
            branches
        },
    }
}

/// Whether a path lies under a build-output directory: `target` is the first
/// of its directories, or one further down.
pub open spec fn is_build_output(path: Seq<char>) -> bool {
    "target/"@.is_prefix_of(path) || occurs_in(path, "/target/"@)
}

/// Whether a path lies under a version-control metadata directory: `.git` is
/// the first of its directories, or one further down.
pub open spec fn is_metadata(path: Seq<char>) -> bool {
    ".git/"@.is_prefix_of(path) || occurs_in(path, "/.git/"@)
}

/// Whether a path names an object file.
pub open spec fn is_object_file(path: Seq<char>) -> bool {
    ".o"@.is_suffix_of(path)
}

/// Whether a changed path is noise to someone who reads the history: a path
/// under a build-output directory, an object file, or a path under a
/// version-control metadata directory. A path that only holds the name of such
/// a directory inside a longer name is no noise.
pub open spec fn is_noise(path: Seq<char>) -> bool {
    is_build_output(path) || is_object_file(path) || is_metadata(path)
}

/// Whether a line of the changed-file list is kept: it holds a path, and the
/// path is not noise.
pub open spec fn is_shown(path: Seq<char>) -> bool {
    is_filled(path) && !is_noise(path)
}

/// The paths that the output of a changed-files query stands for.
pub open spec fn changed_files_of(text: Seq<char>) -> Seq<Seq<char>> {
    lines_of(text).filter(|path: Seq<char>| is_shown(path))
}

/// Filtering keeps of every value as many as there were, where the value
/// passes, and none of it where it does not.
proof fn lemma_filter_counts(
    lines: Seq<Seq<char>>,
    passes: spec_fn(Seq<char>) -> bool,
    line: Seq<char>,
)
    ensures
        passes(line) ==> lines.filter(passes).to_multiset().count(line)
            == lines.to_multiset().count(line),
        !passes(line) ==> lines.filter(passes).to_multiset().count(line) == 0,
    decreases lines.len(),
{
    if lines.len() == 0 {
        lines.lemma_filter_len(passes);
        vstd::seq_lib::to_multiset_contains(lines, line);
        vstd::seq_lib::to_multiset_contains(lines.filter(passes), line);
    } else {
        let front = lines.drop_last();
        let last = lines.last();
        assert(lines == front.push(last));
        lemma_filter_counts(front, passes, line);
        front.lemma_filter_push(last, passes);
        vstd::seq_lib::to_multiset_build(front, last);
        vstd::multiset::lemma_insert_increases_count_by_1(front.to_multiset(), last);
        vstd::multiset::lemma_insert_other_elements_unchanged(front.to_multiset(), last, line);
        if passes(last) {
            let kept = front.filter(passes);
            vstd::seq_lib::to_multiset_build(kept, last);
            vstd::multiset::lemma_insert_increases_count_by_1(kept.to_multiset(), last);
            vstd::multiset::lemma_insert_other_elements_unchanged(kept.to_multiset(), last, line);
        }
    }
}

/// Whether `part` is made of lines of `whole`, in the order in which they
/// stand there, each line of `whole` taken once at most.
pub open spec fn is_taken_in_order(part: Seq<Seq<char>>, whole: Seq<Seq<char>>) -> bool
    decreases whole.len(),
{
    if part.len() == 0 {
        true
    } else if whole.len() == 0 {
        false
    } else if part.last() == whole.last() {
        is_taken_in_order(part.drop_last(), whole.drop_last())
    } else {
        is_taken_in_order(part, whole.drop_last())
    }
}

/// What a filter lets through is taken in order from what went in.
proof fn lemma_filter_takes_in_order(lines: Seq<Seq<char>>, passes: spec_fn(Seq<char>) -> bool)
    ensures
        is_taken_in_order(lines.filter(passes), lines),
    decreases lines.len(),
{
    if lines.len() == 0 {
        lines.lemma_filter_len(passes);
    } else {
        let front = lines.drop_last();
        let last = lines.last();
        let part = lines.filter(passes);
        assert(lines == front.push(last));
        front.lemma_filter_push(last, passes);
        lemma_filter_takes_in_order(front, passes);
        if passes(last) {
            assert(part.drop_last() == front.filter(passes));
        } else if part.len() > 0 {
            front.lemma_filter_pred(passes, part.len() - 1);
        }
    }
}

/// The changed files are the lines of the output that hold a path which is no
/// noise, and nothing else: they are taken in order from the lines, none of
/// them is empty or noise, and every line that holds a path which is no noise
/// comes out as often as it went in.
pub proof fn lemma_changed_files_are_the_shown_lines(text: Seq<char>)
    ensures
        is_taken_in_order(changed_files_of(text), lines_of(text)),
        forall|k: int|
            0 <= k < changed_files_of(text).len() ==> is_shown(
                #[trigger] changed_files_of(text)[k],
            ),
        forall|path: Seq<char>|
            is_shown(path) ==> #[trigger] changed_files_of(text).to_multiset().count(path)
                == lines_of(text).to_multiset().count(path),
        forall|path: Seq<char>|
            !is_shown(path) ==> #[trigger] changed_files_of(text).to_multiset().count(path) == 0,
{
    let shown = |path: Seq<char>| is_shown(path);
    lemma_filter_takes_in_order(lines_of(text), shown);
    assert forall|k: int| 0 <= k < changed_files_of(text).len() implies is_shown(
        #[trigger] changed_files_of(text)[k],
    ) by {
        lines_of(text).lemma_filter_pred(shown, k);
    }
    assert forall|path: Seq<char>| is_shown(path) implies #[trigger] changed_files_of(
        text,
    ).to_multiset().count(path) == lines_of(text).to_multiset().count(path) by {
        lemma_filter_counts(lines_of(text), shown, path);
    }
    assert forall|path: Seq<char>| !is_shown(path) implies #[trigger] changed_files_of(
        text,
    ).to_multiset().count(path) == 0 by {
        lemma_filter_counts(lines_of(text), shown, path);
    }
}

/// Whether `path` is noise.
pub fn noise(path: &str) -> (yes: bool)
    ensures
        yes == is_noise(path@),
{
    starts_with(path, "target/") || contains(path, "/target/") || ends_with(path, ".o")
        || starts_with(path, ".git/") || contains(path, "/.git/")
}

/// The changed files that a query gives: those of its output, or none where the
/// tool failed.
pub open spec fn changed_files_from(output: Option<Seq<char>>) -> Seq<Seq<char>> {
    match output {
        Some(text) => changed_files_of(text),
        None => Seq::empty(),
    }
}

/// Decodes the output of a changed-files query, leaving out the noise. Where
/// the tool failed there are no files.
pub fn decode_changed_files(output: Option<&str>) -> (files: Vec<String>)
    ensures
        files.deep_view() == changed_files_from(output.deep_view()),
{
    let mut files: Vec<String> = Vec::new();
    match output {
        None => {
            assert(files.deep_view() == Seq::<Seq<char>>::empty());
        },
        Some(text) => {
            let all = lines(text);
            let ghost shown = |path: Seq<char>| is_shown(path);
            let mut i: usize = 0;
            assert(all.deep_view().take(0) == Seq::<Seq<char>>::empty());
            while i < all.len()
                invariant
                    i <= all.len(),
                    shown == (|path: Seq<char>| is_shown(path)),
                    files.deep_view() == all.deep_view().take(i as int).filter(shown),
                decreases all.len() - i,
            {
                proof {
                    let seen = all.deep_view().take(i as int);
                    assert(all.deep_view().take(i + 1) == seen.push(all@[i as int]@));
                    seen.lemma_filter_push(all@[i as int]@, shown);
                }
                let path = all[i].as_str();
                if !path.is_empty() && !noise(path) {
                    let ghost before = files.deep_view();
                    let kept = all[i].clone();
                    files.push(kept);
                    assert(files.deep_view() == before.push(kept@));
                }
                i += 1;
            }
            assert(all.deep_view().take(i as int) == all.deep_view());
        },
    }
    files
}

/// The content of a file as it is shown: its first `CONTENT_LINES` lines, with
/// a line feed between one and the next.
pub open spec fn content_of(text: Seq<char>) -> Seq<char> {
    joined(first_of(lines_of(text), CONTENT_LINES as nat), "\n"@)
}

/// The content that is shown never has more than `CONTENT_LINES` lines: it
/// holds fewer line feeds than that. Of a file that has that many lines or
/// more, exactly that many are shown.
pub proof fn lemma_content_is_cut(text: Seq<char>)
    ensures
        line_feeds(content_of(text)) < CONTENT_LINES,
        lines_of(text).len() >= CONTENT_LINES ==> line_feeds(content_of(text)) == CONTENT_LINES
            - 1,
{
    let kept = first_of(lines_of(text), CONTENT_LINES as nat);
    lemma_lines_hold_no_line_feed(text);
    reveal_strlit("\n");
    assert("\n"@ == seq!['\n']);
    lemma_line_feeds_of_joined(kept);
}

/// The lines of the content that is shown are the first `CONTENT_LINES` lines
/// of the file, none changed and none left out, wherever the last of them
/// holds something and none before it ends with a carriage return. (An empty
/// last line is not told apart from the end of the text, and a carriage
/// return before a line feed belongs to the line's end.)
pub proof fn lemma_content_keeps_the_lines(text: Seq<char>)
    requires
        are_kept_by_joining(first_of(lines_of(text), CONTENT_LINES as nat)),
    ensures
        lines_of(content_of(text)) == first_of(lines_of(text), CONTENT_LINES as nat),
{
    reveal_strlit("\n");
    assert("\n"@ == seq!['\n']);
    lemma_lines_of_joined(first_of(lines_of(text), CONTENT_LINES as nat));
}

/// The content that a query for a file gives: that of its output, or a
/// placeholder where the tool failed.
pub open spec fn content_from(output: Option<Seq<char>>) -> Seq<char> {
    match output {
        Some(text) => content_of(text),
        None => no_content(),
    }
}

/// Decodes a file's content, cut to its first `CONTENT_LINES` lines.
pub fn decode_file_content(output: Option<&str>) -> (content: String)
    ensures
        content@ == content_from(output.deep_view()),
{
    match output {
        Some(text) => {
            let kept = first_lines(text, CONTENT_LINES);
            join(&kept, "\n")
        },
        None => "Unable to retrieve file content".to_owned(),
    }
}

/// Where the tool fails, every query degrades to its empty or placeholder
/// result.
pub proof fn lemma_failure_degrades()
    ensures
        branch_from(None) == "Not a git repository"@,
        directory_from(None) == "Unknown"@,
        stats_from(None) == "No stats available"@,
        content_from(None) == "Unable to retrieve file content"@,
        commits_from(None) == Seq::<CommitView>::empty(),
        changed_files_from(None) == Seq::<Seq<char>>::empty(),
        branches_from(None) == Seq::<Seq<char>>::empty(),
{
}

/// Whether `run` answers every query: it can be called with each, and gives
/// what the tool printed, or `None` where the tool could not be started or
/// ended with a failure.
pub open spec fn answers_all<R: Fn(&Query) -> Option<String>>(run: &R) -> bool {
    forall|query: &Query| run.requires((query,))
}

/// Whether `output` is what `run` gave when it was asked a query whose value
/// is `asked`.
pub open spec fn answered<R: Fn(&Query) -> Option<String>>(
    run: &R,
    asked: QueryView,
    output: Option<Seq<char>>,
) -> bool {
    exists|query: &Query, answer: Option<String>|
        query@ == asked && #[trigger] run.ensures((query,), answer) && answer.deep_view() == output
}

/// What `run` printed, as text.
fn text(output: &Option<String>) -> (text: Option<&str>)
    ensures
        text.deep_view() == output.deep_view(),
{
    match output {
        Some(text) => Some(text.as_str()),
        None => None,
    }
}

/// Puts `query` to the repository.
fn ask<R: Fn(&Query) -> Option<String>>(query: Query, run: &R) -> (output: Option<String>)
    requires
        answers_all(run),
    ensures
        answered(run, query@, output.deep_view()),
{
    run(&query)
}

/// Puts each of `queries` to the repository and gives the outputs in the same
/// order.
pub fn fetch<R: Fn(&Query) -> Option<String>>(queries: &Vec<Query>, run: &R) -> (outputs: Vec<
    Option<String>,
>)
    requires
        answers_all(run),
    ensures
        outputs.len() == queries.len(),
        forall|k: int|
            0 <= k < queries.len() ==> run.ensures((&queries@[k],), #[trigger] outputs@[k]),
{
    let mut outputs: Vec<Option<String>> = Vec::new();
    let mut k: usize = 0;
    while k < queries.len()
        invariant
            answers_all(run),
            k <= queries.len(),
            outputs.len() == k,
            forall|j: int| 0 <= j < k ==> run.ensures((&queries@[j],), #[trigger] outputs@[j]),
        decreases queries.len() - k,
    {
        let output = run(&queries[k]);
        outputs.push(output);
        k += 1;
    }
    outputs
}

/// The name of the branch that is checked out, or `"Not a git repository"`
/// where the tool fails.
pub fn get_current_branch<R: Fn(&Query) -> Option<String>>(run: &R) -> (branch: String)
    requires
        answers_all(run),
    ensures
        exists|output: Option<Seq<char>>|
            #[trigger] answered(run, QueryView::CurrentBranch, output) && branch@ == branch_from(
                output,
            ),
{
    let output = ask(Query::CurrentBranch, run);
    decode_branch(text(&output))
}

/// The recent commits of the current branch, `count` at most; none where the
/// tool fails.
pub fn get_commits<R: Fn(&Query) -> Option<String>>(count: usize, run: &R) -> (commits: Vec<
    Commit,
>)
    requires
        answers_all(run),
    ensures
        exists|output: Option<Seq<char>>|
            #[trigger] answered(run, QueryView::Commits { count: count as nat }, output)
                && commits.deep_view() == commits_from(output),
{
    let output = ask(Query::Commits { count }, run);
    decode_commits(text(&output))
}

/// The directory in which the program runs, or `"Unknown"` where it cannot be
/// had.
pub fn get_current_directory<R: Fn(&Query) -> Option<String>>(run: &R) -> (directory: String)
    requires
        answers_all(run),
    ensures
        exists|output: Option<Seq<char>>|
            #[trigger] answered(run, QueryView::CurrentDirectory, output) && directory@
                == directory_from(output),
{
    let output = ask(Query::CurrentDirectory, run);
    decode_directory(text(&output))
}

/// The summary of what the commit changed, or `"No stats available"` where
/// the tool fails.
pub fn get_commit_stats<R: Fn(&Query) -> Option<String>>(commit_hash: &str, run: &R) -> (stats:
    String)
    requires
        answers_all(run),
    ensures
        exists|output: Option<Seq<char>>|
            #[trigger] answered(run, QueryView::CommitStats { commit_hash: commit_hash@ }, output)
                && stats@ == stats_from(output),
{
    let output = ask(Query::CommitStats { commit_hash: commit_hash.to_owned() }, run);
    decode_stats(text(&output))
}

/// The paths that the commit touched, without the noise; none where the tool
/// fails.
pub fn get_changed_files<R: Fn(&Query) -> Option<String>>(commit_hash: &str, run: &R) -> (files:
    Vec<String>)
    requires
        answers_all(run),
    ensures
        exists|output: Option<Seq<char>>|
            #[trigger] answered(run, QueryView::ChangedFiles { commit_hash: commit_hash@ }, output)
                && files.deep_view() == changed_files_from(output),
{
    let output = ask(Query::ChangedFiles { commit_hash: commit_hash.to_owned() }, run);
    decode_changed_files(text(&output))
}

/// The first `CONTENT_LINES` lines of the file as it was at the commit, or
/// `"Unable to retrieve file content"` where the tool fails.
pub fn get_file_diff<R: Fn(&Query) -> Option<String>>(
    commit_hash: &str,
    filename: &str,
    run: &R,
) -> (content: String)
    requires
        answers_all(run),
    ensures
        exists|output: Option<Seq<char>>|
            #[trigger] answered(
                run,
                QueryView::FileDiff { commit_hash: commit_hash@, filename: filename@ },
                output,
            ) && content@ == content_from(output),
{
    let output = ask(
        Query::FileDiff { commit_hash: commit_hash.to_owned(), filename: filename.to_owned() },
        run,
    );
    decode_file_content(text(&output))
}

/// The names of all branches, local and remote; none where the tool fails.
pub fn get_all_branches<R: Fn(&Query) -> Option<String>>(run: &R) -> (branches: Vec<String>)
    requires
        answers_all(run),
    ensures
        exists|output: Option<Seq<char>>|
            #[trigger] answered(run, QueryView::AllBranches, output) && branches.deep_view()
                == branches_from(output),
{
    let output = ask(Query::AllBranches, run);
    decode_branches(text(&output))
}

/// The recent commits of `branch`, `count` at most; none where the tool fails.
pub fn get_branch_commits<R: Fn(&Query) -> Option<String>>(
    branch: &str,
    count: usize,
    run: &R,
) -> (commits: Vec<Commit>)
    requires
        answers_all(run),
    ensures
        exists|output: Option<Seq<char>>|
            #[trigger] answered(
                run,
                QueryView::BranchCommits { branch: branch@, count: count as nat },
                output,
            ) && commits.deep_view() == commits_from(output),
{
    let output = ask(Query::BranchCommits { branch: branch.to_owned(), count }, run);
    decode_commits(text(&output))
}

/// The commits whose message holds `query`, `max_results` at most; none where
/// the tool fails.
pub fn search_commits<R: Fn(&Query) -> Option<String>>(
    query: &str,
    max_results: usize,
    run: &R,
) -> (commits: Vec<Commit>)
    requires
        answers_all(run),
    ensures
        exists|output: Option<Seq<char>>|
            #[trigger] answered(
                run,
                QueryView::SearchCommits { query: query@, max_results: max_results as nat },
                output,
            ) && commits.deep_view() == commits_from(output),
{
    let output = ask(Query::SearchCommits { query: query.to_owned(), max_results }, run);
    decode_commits(text(&output))
}

/// The commits whose author holds `author`, `max_results` at most; none where
/// the tool fails.
pub fn search_commits_by_author<R: Fn(&Query) -> Option<String>>(
    author: &str,
    max_results: usize,
    run: &R,
) -> (commits: Vec<Commit>)
    requires
        answers_all(run),
    ensures
        exists|output: Option<Seq<char>>|
            #[trigger] answered(
                run,
                QueryView::SearchCommitsByAuthor {
                    author: author@,
                    max_results: max_results as nat,
                },
                output,
            ) && commits.deep_view() == commits_from(output),
{
    let output = ask(Query::SearchCommitsByAuthor { author: author.to_owned(), max_results }, run);
    decode_commits(text(&output))
}

/// The commits that touch `filename`, `max_results` at most; none where the
/// tool fails.
pub fn search_commits_by_file<R: Fn(&Query) -> Option<String>>(
    filename: &str,
    max_results: usize,
    run: &R,
) -> (commits: Vec<Commit>)
    requires
        answers_all(run),
    ensures
        exists|output: Option<Seq<char>>|
            #[trigger] answered(
                run,
                QueryView::SearchCommitsByFile {
                    filename: filename@,
                    max_results: max_results as nat,
                },
                output,
            ) && commits.deep_view() == commits_from(output),
{
    let output = ask(
        Query::SearchCommitsByFile { filename: filename.to_owned(), max_results },
        run,
    );
    decode_commits(text(&output))
}

} // verus!
