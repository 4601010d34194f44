//! The records that the repository queries produce.

use vstd::prelude::*;

verus! {

/// One entry of the repository's history.
///
/// A commit whose fields are all empty is the sentinel that stands for "no data
/// available". It is told apart from a real commit by its empty hash.
#[derive(Debug, PartialEq, Eq)]
pub struct Commit {
    pub hash: String,
    pub author: String,
    pub date: String,
    pub message: String,
}

/// The mathematical value of a [`Commit`]: its four fields as character sequences.
pub ghost struct CommitView {
    pub hash: Seq<char>,
    pub author: Seq<char>,
    pub date: Seq<char>,
    pub message: Seq<char>,
}

impl CommitView {
    /// The commit with four empty fields.
    pub open spec fn sentinel() -> CommitView {
        CommitView {
            hash: Seq::empty(),
            author: Seq::empty(),
            date: Seq::empty(),
            message: Seq::empty(),
        }
    }

    /// A commit with an empty hash names nothing in the repository.
    pub open spec fn is_sentinel(self) -> bool {
        self.hash.len() == 0
    }
}

impl View for Commit {
    type V = CommitView;

    open spec fn view(&self) -> CommitView {
        CommitView {
            hash: self.hash@,
            author: self.author@,
            date: self.date@,
            message: self.message@,
        }
    }
}

impl DeepView for Commit {
    type V = CommitView;

    open spec fn deep_view(&self) -> CommitView {
        self@
    }
}

impl Clone for Commit {
    fn clone(&self) -> (copy: Commit)
        ensures
            copy@ == self@,
    {
        Commit {
            hash: self.hash.clone(),
            author: self.author.clone(),
            date: self.date.clone(),
            message: self.message.clone(),
        }
    }
}

impl Commit {
    /// The sentinel commit: every field empty.
    pub fn sentinel() -> (commit: Commit)
        ensures
            commit@ == CommitView::sentinel(),
    {
        Commit {
            hash: String::new(),
            author: String::new(),
            date: String::new(),
            message: String::new(),
        }
    }

    /// Whether this commit is a sentinel, that is, whether its hash is empty.
    pub fn is_sentinel(&self) -> (empty: bool)
        ensures
            empty == self@.is_sentinel(),
    {
        self.hash.as_str().is_empty()
    }
}

/// The content of one file as it was at one commit.
#[derive(Debug, PartialEq, Eq)]
pub struct FileDiff {
    pub filename: String,
    pub diff: String,
}

/// The mathematical value of a [`FileDiff`].
pub ghost struct FileDiffView {
    pub filename: Seq<char>,
    pub diff: Seq<char>,
}

impl View for FileDiff {
    type V = FileDiffView;

    open spec fn view(&self) -> FileDiffView {
        FileDiffView { filename: self.filename@, diff: self.diff@ }
    }
}

impl DeepView for FileDiff {
    type V = FileDiffView;

    open spec fn deep_view(&self) -> FileDiffView {
        self@
    }
}

impl Clone for FileDiff {
    fn clone(&self) -> (copy: FileDiff)
        ensures
            copy@ == self@,
    {
        FileDiff { filename: self.filename.clone(), diff: self.diff.clone() }
    }
}

} // verus!
