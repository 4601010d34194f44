//! What happens to the stack of screens and what the stack asks for in
//! return: the user's events, the requests for data, and the actions that
//! follow an event.

use crate::query::{Query, QueryView};
use crate::record::{Commit, CommitView};
use crate::screen::SearchKind;
use crate::text::{blank, is_blank};
use vstd::prelude::*;

verus! {

/// The number of commits that a branch's list asks for.
pub const LIST_LENGTH: usize = 20;

/// The number of commits that a search asks for at most.
pub const SEARCH_LENGTH: usize = 50;

/// What a key that is no text stands for.
#[derive(Debug, PartialEq, Eq, Clone, Copy)]
pub enum Shortcut {
    /// Leave the program.
    Quit,
    /// Open the branch selector.
    Branches,
    /// Open the choice of what to search by.
    Search,
}

/// The shortcut that `key` is bound to, if any.
pub open spec fn shortcut_of(key: char) -> Option<Shortcut> {
    if key == 'q' {
        Some(Shortcut::Quit)
    } else if key == 'b' {
        Some(Shortcut::Branches)
    } else if key == 's' || key == '/' {
        Some(Shortcut::Search)
    } else {
        None
    }
}

/// The shortcut that `key` is bound to, if any.
pub fn shortcut(key: char) -> (bound: Option<Shortcut>)
    ensures
        bound == shortcut_of(key),
{
    if key == 'q' {
        Some(Shortcut::Quit)
    } else if key == 'b' {
        Some(Shortcut::Branches)
    } else if key == 's' || key == '/' {
        Some(Shortcut::Search)
    } else {
        None
    }
}

/// The keys that are bound to a shortcut: those, and no others.
pub fn shortcut_keys() -> (keys: Vec<char>)
    ensures
        forall|key: char| keys@.contains(key) <==> shortcut_of(key) is Some,
        keys@.no_duplicates(),
{
    let mut keys: Vec<char> = Vec::new();
    keys.push('q');
    keys.push('b');
    keys.push('s');
    keys.push('/');
    proof {
        assert(keys@ =~= seq!['q', 'b', 's', '/']);
        assert(keys@[0] == 'q' && keys@[1] == 'b' && keys@[2] == 's' && keys@[3] == '/');
    }
    keys
}

/// The kind of search that entry `index` of the search-type selector stands for.
pub open spec fn kind_at(index: nat) -> Option<SearchKind> {
    if index == 0 {
        Some(SearchKind::Message)
    } else if index == 1 {
        Some(SearchKind::Author)
    } else if index == 2 {
        Some(SearchKind::File)
    } else {
        None
    }
}

/// Something that the user did.
#[derive(Debug, PartialEq, Eq)]
pub enum Event {
    /// A key was pressed.
    Key(char),
    /// Entry `i` of the list on the top screen was chosen.
    Select(usize),
    /// A line of text was submitted.
    Submit(String),
    /// The top screen's button to close or cancel was pressed.
    Close,
}

/// The mathematical value of an [`Event`].
pub ghost enum EventView {
    Key(char),
    Select(nat),
    Submit(Seq<char>),
    Close,
}

impl View for Event {
    type V = EventView;

    open spec fn view(&self) -> EventView {
        match self {
            Event::Key(key) => EventView::Key(*key),
            Event::Select(index) => EventView::Select(*index as nat),
            Event::Submit(text) => EventView::Submit(text@),
            Event::Close => EventView::Close,
        }
    }
}

/// Data that the stack needs from the repository before it can change.
#[derive(Debug, PartialEq, Eq)]
pub enum Request {
    /// The branches, to open the branch selector.
    Branches,
    /// The commits of `branch`, to put its list in place of the base.
    SwitchBranch { branch: String },
    /// The commits that match `query`, to show what a search found.
    Search { kind: SearchKind, query: String },
    /// The statistics and changed files of `commit`, to open it.
    CommitDetail { commit: Commit },
    /// The content of `filename` at `commit`, to open the file.
    FileContent { commit: Commit, filename: String },
}

/// The mathematical value of a [`Request`].
pub ghost enum RequestView {
    Branches,
    SwitchBranch { branch: Seq<char> },
    Search { kind: SearchKind, query: Seq<char> },
    CommitDetail { commit: CommitView },
    FileContent { commit: CommitView, filename: Seq<char> },
}

impl View for Request {
    type V = RequestView;

    open spec fn view(&self) -> RequestView {
        match self {
            Request::Branches => RequestView::Branches,
            Request::SwitchBranch { branch } => RequestView::SwitchBranch { branch: branch@ },
            Request::Search { kind, query } => RequestView::Search { kind: *kind, query: query@ },
            Request::CommitDetail { commit } => RequestView::CommitDetail { commit: commit@ },
            Request::FileContent { commit, filename } => RequestView::FileContent {
                commit: commit@,
                filename: filename@,
            },
        }
    }
}

/// What whoever runs the program does after an event was handled.
#[derive(Debug, PartialEq, Eq)]
pub enum Action {
    /// Show the stack as it is now and wait for the next event.
    Continue,
    /// End the program.
    Quit,
    /// Put the request's queries to the repository and deliver the outputs.
    Fetch(Request),
}

/// The mathematical value of an [`Action`].
pub ghost enum ActionView {
    Continue,
    Quit,
    Fetch(RequestView),
}

impl View for Action {
    type V = ActionView;

    open spec fn view(&self) -> ActionView {
        match self {
            Action::Continue => ActionView::Continue,
            Action::Quit => ActionView::Quit,
            Action::Fetch(request) => ActionView::Fetch(request@),
        }
    }
}

/// The query that a search of the given kind puts to the repository.
pub open spec fn search_query(kind: SearchKind, query: Seq<char>) -> QueryView {
    match kind {
        SearchKind::Message => QueryView::SearchCommits {
            query,
            max_results: SEARCH_LENGTH as nat,
        },
        SearchKind::Author => QueryView::SearchCommitsByAuthor {
            author: query,
            max_results: SEARCH_LENGTH as nat,
        },
        SearchKind::File => QueryView::SearchCommitsByFile {
            filename: query,
            max_results: SEARCH_LENGTH as nat,
        },
    }
}

/// The queries that open the program: the working directory, the current
/// branch, and that branch's recent commits.
pub open spec fn opening_queries() -> Seq<QueryView> {
    seq![
        QueryView::CurrentDirectory,
        QueryView::CurrentBranch,
        QueryView::Commits { count: LIST_LENGTH as nat },
    ]
}

impl RequestView {
    /// Whether the request names what it asks about: a branch with a name, a
    /// text that is not blank, a commit that is no sentinel, a file with a
    /// name. Only such a request is what handling an event gives, and only
    /// such a request is put to the repository.
    pub open spec fn is_valid(self) -> bool {
        match self {
            RequestView::Branches => true,
            RequestView::SwitchBranch { branch } => branch.len() > 0,
            RequestView::Search { query, .. } => !is_blank(query),
            RequestView::CommitDetail { commit } => !commit.is_sentinel(),
            RequestView::FileContent { commit, filename } => !commit.is_sentinel()
                && filename.len() > 0,
        }
    }

    /// The queries whose outputs the request is waiting for, in the order in
    /// which the outputs are delivered. A request that is not valid waits for
    /// nothing.
    pub open spec fn queries(self) -> Seq<QueryView> {
        if !self.is_valid() {
            Seq::empty()
        } else {
            self.valid_queries()
        }
    }

    /// The queries of a valid request.
    pub open spec fn valid_queries(self) -> Seq<QueryView> {
        match self {
            RequestView::Branches => seq![QueryView::AllBranches, QueryView::CurrentBranch],
            RequestView::SwitchBranch { branch } => seq![
                QueryView::CurrentDirectory,
                QueryView::BranchCommits { branch, count: LIST_LENGTH as nat },
            ],
            RequestView::Search { kind, query } => seq![search_query(kind, query)],
            RequestView::CommitDetail { commit } => seq![
                QueryView::CommitStats { commit_hash: commit.hash },
                QueryView::ChangedFiles { commit_hash: commit.hash },
            ],
            RequestView::FileContent { commit, filename } => seq![
                QueryView::FileDiff { commit_hash: commit.hash, filename },
            ],
        }
    }
}

/// The queries that open the program, in the order in which
/// [`NavigationStack::new`] takes their outputs.
pub fn opening() -> (queries: Vec<Query>)
    ensures
        queries.deep_view() == opening_queries(),
{
    let mut queries: Vec<Query> = Vec::new();
    queries.push(Query::CurrentDirectory);
    queries.push(Query::CurrentBranch);
    queries.push(Query::Commits { count: LIST_LENGTH });
    assert(queries.deep_view() =~= opening_queries());
    queries
}

impl Request {
    /// Whether the request names what it asks about.
    pub fn is_valid(&self) -> (yes: bool)
        ensures
            yes == self@.is_valid(),
    {
        match self {
            Request::Branches => true,
            Request::SwitchBranch { branch } => !branch.as_str().is_empty(),
            Request::Search { query, .. } => !blank(query.as_str()),
            Request::CommitDetail { commit } => !commit.is_sentinel(),
            Request::FileContent { commit, filename } => !commit.is_sentinel()
                && !filename.as_str().is_empty(),
        }
    }

    /// The queries to put to the repository for this request, in the order in
    /// which [`NavigationStack::deliver`] takes their outputs: none for a
    /// request that is not valid.
    pub fn queries(&self) -> (queries: Vec<Query>)
        ensures
            queries.deep_view() == self@.queries(),
    {
        let mut queries: Vec<Query> = Vec::new();
        if !self.is_valid() {
            assert(queries.deep_view() =~= Seq::<QueryView>::empty());
            return queries;
        }
        match self {
            Request::Branches => {
                queries.push(Query::AllBranches);
                queries.push(Query::CurrentBranch);
            },
            Request::SwitchBranch { branch } => {
                queries.push(Query::CurrentDirectory);
                queries.push(Query::BranchCommits { branch: branch.clone(), count: LIST_LENGTH });
            },
            Request::Search { kind, query } => {
                let text = query.clone();
                queries.push(
                    match kind {
                        SearchKind::Message => Query::SearchCommits {
                            query: text,
                            max_results: SEARCH_LENGTH,
                        },
                        SearchKind::Author => Query::SearchCommitsByAuthor {
                            author: text,
                            max_results: SEARCH_LENGTH,
                        },
                        SearchKind::File => Query::SearchCommitsByFile {
                            filename: text,
                            max_results: SEARCH_LENGTH,
                        },
                    },
                );
            },
            Request::CommitDetail { commit } => {
                queries.push(Query::CommitStats { commit_hash: commit.hash.clone() });
                queries.push(Query::ChangedFiles { commit_hash: commit.hash.clone() });
            },
            Request::FileContent { commit, filename } => {
                queries.push(
                    Query::FileDiff {
                        commit_hash: commit.hash.clone(),
                        filename: filename.clone(),
                    },
                );
            },
        }
        assert(queries.deep_view() =~= self@.queries());
        queries
    }
}

/// The kind of search that entry `index` of the search-type selector stands for.
pub fn search_kind(index: usize) -> (kind: Option<SearchKind>)
    ensures
        kind == kind_at(index as nat),
{
    if index == 0 {
        Some(SearchKind::Message)
    } else if index == 1 {
        Some(SearchKind::Author)
    } else if index == 2 {
        Some(SearchKind::File)
    } else {
        None
    }
}

} // verus!
