//! What each screen shows, ready to be painted: a title, a block of text, a
//! list of labels to choose from, and the names of its buttons. How any of it
//! is laid out or coloured is not decided here.
//!
//! Whoever paints a screen hands back what the user does with it: choosing
//! entry `i` of the list is `Event::Select(i)`, the button named by `submit`
//! is `Event::Submit` with the line of text, the button named by `close` is
//! `Event::Close`, and a key that no text field takes is `Event::Key`.

use crate::record::{Commit, CommitView};
use crate::screen::{Screen, ScreenView, SearchKind};
use crate::text::{prefix, prefix_of};
use vstd::prelude::*;

verus! {

/// The number of characters of a hash that are shown where space is short.
pub const SHORT_HASH: usize = 7;

/// What a screen shows.
#[derive(Debug, PartialEq, Eq)]
pub struct Projection {
    /// The screen's title.
    pub title: String,
    /// The block of text above the list; empty where the screen shows none.
    pub text: String,
    /// The title of the list; empty where it has none.
    pub list_title: String,
    /// The labels of the list's entries, or `None` where the screen has no
    /// list. Entry `i` is the one that `Select(i)` chooses.
    pub items: Option<Vec<String>>,
    /// The name of the button that submits the line of text which the screen
    /// takes, or `None` where the screen takes no text.
    pub submit: Option<String>,
    /// The name of the button that closes the screen, or `None` where the
    /// screen cannot be closed.
    pub close: Option<String>,
}

/// The mathematical value of a [`Projection`].
pub ghost struct ProjectionView {
    pub title: Seq<char>,
    pub text: Seq<char>,
    pub list_title: Seq<char>,
    pub items: Option<Seq<Seq<char>>>,
    pub submit: Option<Seq<char>>,
    pub close: Option<Seq<char>>,
}

impl View for Projection {
    type V = ProjectionView;

    open spec fn view(&self) -> ProjectionView {
        ProjectionView {
            title: self.title@,
            text: self.text@,
            list_title: self.list_title@,
            items: self.items.deep_view(),
            submit: self.submit.deep_view(),
            close: self.close.deep_view(),
        }
    }
}

/// The label of a commit in a list: the start of its hash, its date and its
/// message.
pub open spec fn commit_label(commit: CommitView) -> Seq<char> {
    prefix_of(commit.hash, SHORT_HASH as nat) + " - "@ + commit.date + " - "@ + commit.message
}

/// The labels of a list of commits. An empty list shows one entry, `nothing`,
/// which stands for no commit.
pub open spec fn commit_labels(commits: Seq<CommitView>, nothing: Seq<char>) -> Seq<Seq<char>> {
    if commits.len() == 0 {
        seq![nothing]
    } else {
        commits.map_values(|commit: CommitView| commit_label(commit))
    }
}

/// The label of a branch in the selector. The branch whose name is exactly
/// that of the current one is marked.
pub open spec fn branch_label(branch: Seq<char>, current: Seq<char>) -> Seq<char> {
    if branch == current {
        "* "@ + branch + " (current)"@
    } else {
        branch
    }
}

/// The labels of the branch selector. An empty list shows one entry that
/// stands for no branch.
pub open spec fn branch_labels(branches: Seq<Seq<char>>, current: Seq<char>) -> Seq<Seq<char>> {
    if branches.len() == 0 {
        seq!["No branches found"@]
    } else {
        branches.map_values(|branch: Seq<char>| branch_label(branch, current))
    }
}

/// The labels of a commit's changed files. An empty list shows one entry that
/// stands for no file.
pub open spec fn file_labels(files: Seq<Seq<char>>) -> Seq<Seq<char>> {
    if files.len() == 0 {
        seq!["No files changed"@]
    } else {
        files
    }
}

/// The three kinds of search, as the selector lists them.
pub open spec fn search_kind_labels() -> Seq<Seq<char>> {
    seq!["Search by commit message"@, "Search by author"@, "Search by filename"@]
}

/// What the search input asks for.
pub open spec fn prompt(kind: SearchKind) -> Seq<char> {
    match kind {
        SearchKind::Message => "Enter search term for commit messages:"@,
        SearchKind::Author => "Enter author name:"@,
        SearchKind::File => "Enter filename (e.g., src/main.rs):"@,
    }
}

/// The text above the list of a branch's commits.
pub open spec fn main_header(directory: Seq<char>, branch: Seq<char>) -> Seq<char> {
    "\u{1f4c1} Directory: "@ + directory + "\n\u{1f33f} Branch: "@ + branch
        + "\n\nShortcuts: 'b' = branches | 's' or '/' = search | 'q' = quit\n"@
}

/// The text that describes a commit.
pub open spec fn commit_text(commit: CommitView, stats: Seq<char>) -> Seq<char> {
    "Hash: "@ + commit.hash + "\nAuthor: "@ + commit.author + "\nDate: "@ + commit.date
        + "\n\nMessage:\n"@ + commit.message + "\n\n"@ + stats
}

/// The line that parts a file's heading from its content.
pub open spec fn rule() -> Seq<char> {
    "------------------------------------------------------------"@
}

/// The text that shows a file: a heading, a rule, and the content.
pub open spec fn file_text(commit: CommitView, filename: Seq<char>, content: Seq<char>) -> Seq<
    char,
> {
    "File: "@ + filename + "\nCommit: "@ + prefix_of(commit.hash, SHORT_HASH as nat) + "\n"@
        + rule() + "\n\n"@ + content
}

/// What `screen` shows.
pub open spec fn projection_of(screen: ScreenView) -> ProjectionView {
    match screen {
        ScreenView::MainList { directory, branch, commits } => ProjectionView {
            title: "Git Repository Explorer"@,
            text: main_header(directory, branch),
            list_title: "Commits"@,
            items: Some(commit_labels(commits, "No commits found"@)),
            submit: None,
            close: None,
        },
        ScreenView::BranchSelector { branches, current } => ProjectionView {
            title: "Select Branch"@,
            text: Seq::empty(),
            list_title: Seq::empty(),
            items: Some(branch_labels(branches, current)),
            submit: None,
            close: Some("Cancel"@),
        },
        ScreenView::SearchTypeSelector => ProjectionView {
            title: "Search Commits"@,
            text: Seq::empty(),
            list_title: Seq::empty(),
            items: Some(search_kind_labels()),
            submit: None,
            close: Some("Cancel"@),
        },
        ScreenView::SearchInput { kind } => ProjectionView {
            title: "Search"@,
            text: prompt(kind),
            list_title: Seq::empty(),
            items: None,
            submit: Some("Search"@),
            close: Some("Cancel"@),
        },
        ScreenView::SearchResults { query, commits } => ProjectionView {
            title: "Search Results: '"@ + query + "'"@,
            text: Seq::empty(),
            list_title: Seq::empty(),
            items: Some(commit_labels(commits, "No results found for '"@ + query + "'"@)),
            submit: None,
            close: Some("Close"@),
        },
        ScreenView::CommitDetail { commit, stats, files } => ProjectionView {
            title: "Commit Details"@,
            text: commit_text(commit, stats),
            list_title: "Changed Files (Click to View)"@,
            items: Some(file_labels(files)),
            submit: None,
            close: Some("Close"@),
        },
        ScreenView::FileContent { commit, file } => ProjectionView {
            title: "File Content"@,
            text: file_text(commit, file.filename, file.diff),
            list_title: Seq::empty(),
            items: None,
            submit: None,
            close: Some("Close"@),
        },
    }
}

/// The label of `commit` in a list.
pub fn label(commit: &Commit) -> (text: String)
    ensures
        text@ == commit_label(commit@),
{
    let mut text = prefix(commit.hash.as_str(), SHORT_HASH);
    text.append(" - ");
    text.append(commit.date.as_str());
    text.append(" - ");
    text.append(commit.message.as_str());
    text
}

/// The labels of `commits`, or the one label `nothing` where there are none.
fn labels(commits: &Vec<Commit>, nothing: String) -> (items: Vec<String>)
    ensures
        items.deep_view() == commit_labels(commits.deep_view(), nothing@),
{
    let mut items: Vec<String> = Vec::new();
    if commits.len() == 0 {
        items.push(nothing);
        assert(items.deep_view() =~= seq![nothing@]);
        return items;
    }
    let mut i: usize = 0;
    while i < commits.len()
        invariant
            i <= commits.len(),
            items.len() == i,
            forall|k: int| 0 <= k < i ==> (#[trigger] items@[k])@ == commit_label(commits@[k]@),
        decreases commits.len() - i,
    {
        items.push(label(&commits[i]));
        i += 1;
    }
    assert(items.deep_view() =~= commits.deep_view().map_values(
        |commit: CommitView| commit_label(commit),
    ));
    items
}

/// The one entry `label`.
fn single(label: &str) -> (items: Vec<String>)
    ensures
        items.deep_view() == seq![label@],
{
    let mut items: Vec<String> = Vec::new();
    items.push(label.to_owned());
    assert(items.deep_view() =~= seq![label@]);
    items
}

/// A copy of `names`.
fn copies(names: &Vec<String>) -> (items: Vec<String>)
    ensures
        items.deep_view() == names.deep_view(),
{
    let mut items: Vec<String> = Vec::new();
    let mut i: usize = 0;
    while i < names.len()
        invariant
            i <= names.len(),
            items.len() == i,
            forall|k: int| 0 <= k < i ==> (#[trigger] items@[k])@ == names@[k]@,
        decreases names.len() - i,
    {
        items.push(names[i].clone());
        i += 1;
    }
    assert(items.deep_view() =~= names.deep_view());
    items
}

impl Screen {
    /// What the screen shows. Which branch is the current one is decided
    /// here, each time anew, by comparing names.
    pub fn project(&self) -> (shown: Projection)
        ensures
            shown@ == projection_of(self@),
    {
        match self {
            Screen::MainList { directory, branch, commits } => {
                let mut text = "\u{1f4c1} Directory: ".to_owned();
                text.append(directory.as_str());
                text.append("\n\u{1f33f} Branch: ");
                text.append(branch.as_str());
                text.append("\n\nShortcuts: 'b' = branches | 's' or '/' = search | 'q' = quit\n");
                Projection {
                    title: "Git Repository Explorer".to_owned(),
                    text,
                    list_title: "Commits".to_owned(),
                    items: Some(labels(commits, "No commits found".to_owned())),
                    submit: None,
                    close: None,
                }
            },
            Screen::BranchSelector { branches, current } => {
                let mut items: Vec<String> = Vec::new();
                if branches.len() == 0 {
                    items.push("No branches found".to_owned());
                    assert(items.deep_view() =~= seq!["No branches found"@]);
                } else {
                    let mut i: usize = 0;
                    while i < branches.len()
                        invariant
                            i <= branches.len(),
                            items.len() == i,
                            forall|k: int|
                                0 <= k < i ==> (#[trigger] items@[k])@ == branch_label(
                                    branches@[k]@,
                                    current@,
                                ),
                        decreases branches.len() - i,
                    {
                        let branch = &branches[i];
                        if *branch == *current {
                            let mut marked = "* ".to_owned();
                            marked.append(branch.as_str());
                            marked.append(" (current)");
                            items.push(marked);
                        } else {
                            items.push(branch.clone());
                        }
                        i += 1;
                    }
                    assert(items.deep_view() =~= branches.deep_view().map_values(
                        |branch: Seq<char>| branch_label(branch, current@),
                    ));
                }
                Projection {
                    title: "Select Branch".to_owned(),
                    text: String::new(),
                    list_title: String::new(),
                    items: Some(items),
                    submit: None,
                    close: Some("Cancel".to_owned()),
                }
            },
            Screen::SearchTypeSelector => {
                let mut items: Vec<String> = Vec::new();
                items.push("Search by commit message".to_owned());
                items.push("Search by author".to_owned());
                items.push("Search by filename".to_owned());
                assert(items.deep_view() =~= search_kind_labels());
                Projection {
                    title: "Search Commits".to_owned(),
                    text: String::new(),
                    list_title: String::new(),
                    items: Some(items),
                    submit: None,
                    close: Some("Cancel".to_owned()),
                }
            },
            Screen::SearchInput { kind } => {
                let text = match kind {
                    SearchKind::Message => "Enter search term for commit messages:",
                    SearchKind::Author => "Enter author name:",
                    SearchKind::File => "Enter filename (e.g., src/main.rs):",
                };
                Projection {
                    title: "Search".to_owned(),
                    text: text.to_owned(),
                    list_title: String::new(),
                    items: None,
                    submit: Some("Search".to_owned()),
                    close: Some("Cancel".to_owned()),
                }
            },
            Screen::SearchResults { query, commits } => {
                let mut title = "Search Results: '".to_owned();
                title.append(query.as_str());
                title.append("'");
                let mut nothing = "No results found for '".to_owned();
                nothing.append(query.as_str());
                nothing.append("'");
                Projection {
                    title,
                    text: String::new(),
                    list_title: String::new(),
                    items: Some(labels(commits, nothing)),
                    submit: None,
                    close: Some("Close".to_owned()),
                }
            },
            Screen::CommitDetail { commit, stats, files } => {
                let mut text = "Hash: ".to_owned();
                text.append(commit.hash.as_str());
                text.append("\nAuthor: ");
                text.append(commit.author.as_str());
                text.append("\nDate: ");
                text.append(commit.date.as_str());
                text.append("\n\nMessage:\n");
                text.append(commit.message.as_str());
                text.append("\n\n");
                text.append(stats.as_str());
                let items = if files.len() == 0 {
                    single("No files changed")
                } else {
                    copies(files)
                };
                Projection {
                    title: "Commit Details".to_owned(),
                    text,
                    list_title: "Changed Files (Click to View)".to_owned(),
                    items: Some(items),
                    submit: None,
                    close: Some("Close".to_owned()),
                }
            },
            Screen::FileContent { commit, file } => {
                let mut text = "File: ".to_owned();
                text.append(file.filename.as_str());
                text.append("\nCommit: ");
                let short = prefix(commit.hash.as_str(), SHORT_HASH);
                text.append(short.as_str());
                text.append("\n");
                text.append("------------------------------------------------------------");
                text.append("\n\n");
                text.append(file.diff.as_str());
                Projection {
                    title: "File Content".to_owned(),
                    text,
                    list_title: String::new(),
                    items: None,
                    submit: None,
                    close: Some("Close".to_owned()),
                }
            },
        }
    }
}

} // verus!
