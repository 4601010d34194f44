//! The screens that a user moves between. Each one holds the data that it
//! shows, as it was fetched when the screen was opened.

use crate::record::{Commit, CommitView, FileDiff, FileDiffView};
use vstd::prelude::*;

verus! {

/// What a search goes by.
#[derive(Debug, PartialEq, Eq, Clone, Copy)]
pub enum SearchKind {
    /// The commit's message.
    Message,
    /// The commit's author.
    Author,
    /// A file that the commit touches.
    File,
}

/// One screen of the browser.
#[derive(Debug, PartialEq, Eq)]
pub enum Screen {
    /// The list of recent commits of one branch: the base of every stack.
    MainList { directory: String, branch: String, commits: Vec<Commit> },
    /// The list of branches to switch to.
    BranchSelector { branches: Vec<String>, current: String },
    /// The choice of what a search goes by.
    SearchTypeSelector,
    /// The line in which the text to search for is typed.
    SearchInput { kind: SearchKind },
    /// The commits that a search found.
    SearchResults { query: String, commits: Vec<Commit> },
    /// One commit, with its statistics and the files that it changed.
    CommitDetail { commit: Commit, stats: String, files: Vec<String> },
    /// One file as it was at one commit.
    FileContent { commit: Commit, file: FileDiff },
}

/// The mathematical value of a [`Screen`].
pub ghost enum ScreenView {
    MainList { directory: Seq<char>, branch: Seq<char>, commits: Seq<CommitView> },
    BranchSelector { branches: Seq<Seq<char>>, current: Seq<char> },
    SearchTypeSelector,
    SearchInput { kind: SearchKind },
    SearchResults { query: Seq<char>, commits: Seq<CommitView> },
    CommitDetail { commit: CommitView, stats: Seq<char>, files: Seq<Seq<char>> },
    FileContent { commit: CommitView, file: FileDiffView },
}

impl View for Screen {
    type V = ScreenView;

    open spec fn view(&self) -> ScreenView {
        match self {
            Screen::MainList { directory, branch, commits } => ScreenView::MainList {
                directory: directory@,
                branch: branch@,
                commits: commits.deep_view(),
            },
            Screen::BranchSelector { branches, current } => ScreenView::BranchSelector {
                branches: branches.deep_view(),
                current: current@,
            },
            Screen::SearchTypeSelector => ScreenView::SearchTypeSelector,
            Screen::SearchInput { kind } => ScreenView::SearchInput { kind: *kind },
            Screen::SearchResults { query, commits } => ScreenView::SearchResults {
                query: query@,
                commits: commits.deep_view(),
            },
            Screen::CommitDetail { commit, stats, files } => ScreenView::CommitDetail {
                commit: commit@,
                stats: stats@,
                files: files.deep_view(),
            },
            Screen::FileContent { commit, file } => ScreenView::FileContent {
                commit: commit@,
                file: file@,
            },
        }
    }
}

impl DeepView for Screen {
    type V = ScreenView;

    open spec fn deep_view(&self) -> ScreenView {
        self@
    }
}

impl ScreenView {
    /// Whether the screen is a list of a branch's commits, which only the base
    /// of a stack is.
    pub open spec fn is_base(self) -> bool {
        self is MainList
    }

    /// Whether the screen takes the keys that are typed as text.
    pub open spec fn takes_text(self) -> bool {
        self is SearchInput
    }
}

impl Screen {
    /// Whether the screen is a list of a branch's commits.
    pub fn is_base(&self) -> (yes: bool)
        ensures
            yes == self@.is_base(),
    {
        match self {
            Screen::MainList { .. } => true,
            _ => false,
        }
    }

    /// Whether the screen takes the keys that are typed as text.
    pub fn takes_text(&self) -> (yes: bool)
        ensures
            yes == self@.takes_text(),
    {
        match self {
            Screen::SearchInput { .. } => true,
            _ => false,
        }
    }
}

} // verus!
