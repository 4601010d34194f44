//! The stack of screens.
//!
//! The stack never asks the repository anything itself. Where a change needs
//! data, handling the event yields the request for it; whoever runs the
//! program puts the request's queries to the repository and delivers what came
//! back, and only then does the stack change.

use crate::event::{
    opening, opening_queries, search_kind, shortcut, Action, Event, Request, Shortcut,
};
use crate::gateway::{
    answers_all, branch_from, branches_from, changed_files_from, commits_from, content_from,
    decode_branch, decode_branches, decode_changed_files, decode_commits, decode_directory,
    decode_file_content, decode_stats, directory_from, fetch, stats_from,
};
use crate::model::{
    closed, commit_chosen, delivered, kept_by_delivery, kept_by_event,
    lemma_delivery_keeps_well_formed, lemma_opened_is_well_formed, lemma_step_keeps_well_formed,
    opened, output_at, selected, step, well_formed,
};
use crate::query::{Query, QueryView};
use crate::record::{Commit, FileDiff, FileDiffView};
use crate::screen::{Screen, ScreenView, SearchKind};
use crate::text::blank;
use vstd::prelude::*;

verus! {

/// Output `k` of those delivered, or a failure where fewer were delivered.
fn output(outputs: &Vec<Option<String>>, k: usize) -> (text: Option<&str>)
    ensures
        text.deep_view() == output_at(outputs.deep_view(), k as int),
{
    if k < outputs.len() {
        match &outputs[k] {
            Some(text) => Some(text.as_str()),
            None => None,
        }
    } else {
        None
    }
}

/// The screens that are open, the lowest first. The top one is shown.
///
/// Every stack is well formed: it holds a screen, its lowest screen is a
/// branch's list of commits, and no screen above that one is.
#[derive(Debug, PartialEq, Eq)]
pub struct NavigationStack {
    screens: Vec<Screen>,
}

impl View for NavigationStack {
    type V = Seq<ScreenView>;

    closed spec fn view(&self) -> Seq<ScreenView> {
        self.screens.deep_view()
    }
}

impl NavigationStack {
    #[verifier::type_invariant]
    spec fn valid(self) -> bool {
        well_formed(self.screens.deep_view())
    }

    /// The stack with which the program opens: a branch's list alone, made
    /// from the outputs of the opening queries.
    pub fn new(outputs: &Vec<Option<String>>) -> (stack: NavigationStack)
        ensures
            stack@ == opened(outputs.deep_view()),
            well_formed(stack@),
    {
        let branch = decode_branch(output(outputs, 1));
        let base = build_main_view(output(outputs, 0), branch, output(outputs, 2));
        let mut screens: Vec<Screen> = Vec::new();
        screens.push(base);
        assert(screens.deep_view() =~= opened(outputs.deep_view()));
        NavigationStack { screens }
    }

    /// The number of screens that are open, which is never zero.
    pub fn depth(&self) -> (depth: usize)
        ensures
            depth == self@.len(),
            depth >= 1,
    {
        proof {
            use_type_invariant(self);
        }
        self.screens.len()
    }

    /// The screen that is shown.
    pub fn top(&self) -> (screen: &Screen)
        ensures
            screen@ == self@.last(),
    {
        proof {
            use_type_invariant(self);
        }
        &self.screens[self.screens.len() - 1]
    }

    /// The lowest screen: the list of a branch's commits.
    pub fn base(&self) -> (screen: &Screen)
        ensures
            screen@ == self@[0],
            screen@.is_base(),
    {
        proof {
            use_type_invariant(self);
        }
        &self.screens[0]
    }

    /// How many of the lowest screens `event` will leave as they are. What is
    /// painted of them can stay; what lies above them is to be painted anew
    /// once the event is handled.
    pub fn kept_by_event(&self, event: &Event) -> (kept: usize)
        ensures
            kept == kept_by_event(self@, event@),
            kept <= self@.len(),
    {
        proof {
            use_type_invariant(self);
        }
        let depth = self.screens.len();
        match event {
            Event::Close => if depth > 1 {
                depth - 1
            } else {
                depth
            },
            Event::Select(index) => match (&self.screens[depth - 1], search_kind(*index)) {
                (Screen::SearchTypeSelector, Some(_)) => depth - 1,
                _ => depth,
            },
            _ => depth,
        }
    }

    /// How many of the lowest screens the delivery for `request` will leave
    /// as they are.
    pub fn kept_by_delivery(&self, request: &Request) -> (kept: usize)
        ensures
            kept == kept_by_delivery(self@, request@),
            kept <= self@.len(),
    {
        proof {
            use_type_invariant(self);
        }
        let depth = self.screens.len();
        if !request.is_valid() {
            return depth;
        }
        match request {
            Request::SwitchBranch { .. } => 0,
            Request::Search { .. } => if self.screens[depth - 1].takes_text() {
                depth - 1
            } else {
                depth
            },
            _ => depth,
        }
    }

    /// All screens that are open, the lowest first.
    pub fn screens(&self) -> (screens: &Vec<Screen>)
        ensures
            screens.deep_view() == self@,
            well_formed(self@),
    {
        proof {
            use_type_invariant(self);
        }
        &self.screens
    }
}

/// What choosing entry `index` of `commits` asks for.
fn choose_commit(commits: &Vec<Commit>, index: usize) -> (action: Action)
    ensures
        action@ == commit_chosen(commits.deep_view(), index as nat),
{
    if index < commits.len() && !commits[index].is_sentinel() {
        Action::Fetch(Request::CommitDetail { commit: commits[index].clone() })
    } else {
        Action::Continue
    }
}

/// What choosing entry `index` of the list on `screen` asks for, where the
/// answer leaves the stack as it is.
fn pick(screen: &Screen, index: usize) -> (action: Action)
    requires
        !(screen@ is SearchTypeSelector),
    ensures
        forall|stack: Seq<ScreenView>|
            stack.len() > 0 && stack.last() == screen@ ==> #[trigger] selected(stack, index as nat)
                == (stack, action@),
{
    match screen {
        Screen::MainList { commits, .. } => choose_commit(commits, index),
        Screen::SearchResults { commits, .. } => choose_commit(commits, index),
        Screen::CommitDetail { commit, files, .. } => {
            if index < files.len() && !files[index].as_str().is_empty() && !commit.is_sentinel() {
                Action::Fetch(
                    Request::FileContent { commit: commit.clone(), filename: files[index].clone() },
                )
            } else {
                Action::Continue
            }
        },
        Screen::BranchSelector { branches, .. } => {
            if index < branches.len() && !branches[index].as_str().is_empty() {
                Action::Fetch(Request::SwitchBranch { branch: branches[index].clone() })
            } else {
                Action::Continue
            }
        },
        _ => Action::Continue,
    }
}

/// Closes the top screen, unless it is the base.
fn close(screens: &mut Vec<Screen>)
    ensures
        final(screens).deep_view() == closed(old(screens).deep_view()),
{
    if screens.len() > 1 {
        let ghost before = screens.deep_view();
        screens.pop();
        assert(screens.deep_view() =~= before.drop_last());
    }
}

/// Opens `screen` on top.
fn open(screens: &mut Vec<Screen>, screen: Screen)
    ensures
        final(screens).deep_view() == old(screens).deep_view().push(screen@),
{
    let ghost before = screens.deep_view();
    screens.push(screen);
    assert(screens.deep_view() =~= before.push(screen@));
}

/// The list of the commits of `branch`, made from the outputs of the queries
/// for the working directory and for the branch's commits.
fn build_main_view(directory: Option<&str>, branch: String, commits: Option<&str>) -> (base:
    Screen)
    ensures
        base@ == (ScreenView::MainList {
            directory: directory_from(directory.deep_view()),
            branch: branch@,
            commits: commits_from(commits.deep_view()),
        }),
{
    Screen::MainList {
        directory: decode_directory(directory),
        branch,
        commits: decode_commits(commits),
    }
}

/// Opens the choice of what to search by.
fn show_search_dialog(screens: &mut Vec<Screen>)
    ensures
        final(screens).deep_view() == old(screens).deep_view().push(
            ScreenView::SearchTypeSelector,
        ),
{
    open(screens, Screen::SearchTypeSelector);
}

/// Puts the search input for `kind` in place of the top screen.
fn show_search_input(screens: &mut Vec<Screen>, kind: SearchKind)
    ensures
        final(screens).deep_view() == closed(old(screens).deep_view()).push(
            ScreenView::SearchInput { kind },
        ),
{
    close(screens);
    open(screens, Screen::SearchInput { kind });
}

/// Shows what the search for `query` found, in place of the search input if
/// that is on top.
fn perform_search(screens: &mut Vec<Screen>, query: String, outputs: &Vec<Option<String>>)
    requires
        old(screens).len() > 0,
    ensures
        final(screens).deep_view() == (if old(screens).deep_view().last().takes_text() {
            closed(old(screens).deep_view())
        } else {
            old(screens).deep_view()
        }).push(
            ScreenView::SearchResults {
                query: query@,
                commits: commits_from(output_at(outputs.deep_view(), 0)),
            },
        ),
{
    let results = Screen::SearchResults { query, commits: decode_commits(output(outputs, 0)) };
    if screens[screens.len() - 1].takes_text() {
        close(screens);
    }
    open(screens, results);
}

/// Opens the branch selector.
fn show_branch_selector(screens: &mut Vec<Screen>, outputs: &Vec<Option<String>>)
    ensures
        final(screens).deep_view() == old(screens).deep_view().push(
            ScreenView::BranchSelector {
                branches: branches_from(output_at(outputs.deep_view(), 0)),
                current: branch_from(output_at(outputs.deep_view(), 1)),
            },
        ),
{
    let selector = Screen::BranchSelector {
        branches: decode_branches(output(outputs, 0)),
        current: decode_branch(output(outputs, 1)),
    };
    open(screens, selector);
}

/// The stack after a switch to `branch`: the branch's list alone.
fn switch_to_branch(branch: String, outputs: &Vec<Option<String>>) -> (screens: Vec<Screen>)
    ensures
        screens.deep_view() == seq![
            (ScreenView::MainList {
                directory: directory_from(output_at(outputs.deep_view(), 0)),
                branch: branch@,
                commits: commits_from(output_at(outputs.deep_view(), 1)),
            }),
        ],
{
    let base = build_main_view(output(outputs, 0), branch, output(outputs, 1));
    let mut screens: Vec<Screen> = Vec::new();
    screens.push(base);
    assert(screens.deep_view() =~= seq![base@]);
    screens
}

/// Opens `commit` with its statistics and changed files.
fn show_commit_details(screens: &mut Vec<Screen>, commit: Commit, outputs: &Vec<Option<String>>)
    ensures
        final(screens).deep_view() == old(screens).deep_view().push(
            ScreenView::CommitDetail {
                commit: commit@,
                stats: stats_from(output_at(outputs.deep_view(), 0)),
                files: changed_files_from(output_at(outputs.deep_view(), 1)),
            },
        ),
{
    let detail = Screen::CommitDetail {
        commit,
        stats: decode_stats(output(outputs, 0)),
        files: decode_changed_files(output(outputs, 1)),
    };
    open(screens, detail);
}

/// Opens `filename` as it was at `commit`.
fn show_file_content(
    screens: &mut Vec<Screen>,
    commit: Commit,
    filename: String,
    outputs: &Vec<Option<String>>,
)
    ensures
        final(screens).deep_view() == old(screens).deep_view().push(
            ScreenView::FileContent {
                commit: commit@,
                file: FileDiffView {
                    filename: filename@,
                    diff: content_from(output_at(outputs.deep_view(), 0)),
                },
            },
        ),
{
    let content = Screen::FileContent {
        commit,
        file: FileDiff { filename, diff: decode_file_content(output(outputs, 0)) },
    };
    open(screens, content);
}

impl NavigationStack {
    /// Takes one event and gives the stack after it, with what is to be done
    /// next.
    ///
    /// Closing pops the top screen, but never the base. A shortcut key quits,
    /// asks for the branches or opens the choice of a search, unless the top
    /// screen takes text. Choosing an entry asks for what the entry opens;
    /// choosing a sentinel, or an entry that is not there, changes nothing.
    /// Submitting text on the search input asks for the search, unless the
    /// text is blank.
    pub fn handle(self, event: &Event) -> (next: (NavigationStack, Action))
        ensures
            (next.0@, next.1@) == step(self@, event@),
            well_formed(next.0@),
    {
        proof {
            use_type_invariant(&self);
            lemma_step_keeps_well_formed(self@, event@);
        }
        let mut screens = self.screens;
        let action = match event {
            Event::Close => {
                close(&mut screens);
                Action::Continue
            },
            Event::Key(key) => {
                if screens[screens.len() - 1].takes_text() {
                    Action::Continue
                } else {
                    match shortcut(*key) {
                        Some(Shortcut::Quit) => Action::Quit,
                        Some(Shortcut::Branches) => Action::Fetch(Request::Branches),
                        Some(Shortcut::Search) => {
                            show_search_dialog(&mut screens);
                            Action::Continue
                        },
                        None => Action::Continue,
                    }
                }
            },
            Event::Select(index) => {
                match &screens[screens.len() - 1] {
                    Screen::SearchTypeSelector => {
                        match search_kind(*index) {
                            Some(kind) => show_search_input(&mut screens, kind),
                            None => {},
                        }
                        Action::Continue
                    },
                    screen => pick(screen, *index),
                }
            },
            Event::Submit(text) => {
                match &screens[screens.len() - 1] {
                    Screen::SearchInput { kind } => {
                        if blank(text.as_str()) {
                            Action::Continue
                        } else {
                            Action::Fetch(Request::Search { kind: *kind, query: text.clone() })
                        }
                    },
                    _ => Action::Continue,
                }
            },
        };
        (NavigationStack { screens }, action)
    }

    /// Takes the outputs of `request`'s queries, in the order of
    /// [`Request::queries`], and gives the stack changed as the request
    /// asked. An output that is missing counts as a failure of its query. A
    /// request that is not valid leaves the stack as it is.
    pub fn deliver(self, request: Request, outputs: &Vec<Option<String>>) -> (next: NavigationStack)
        ensures
            next@ == delivered(self@, request@, outputs.deep_view()),
            well_formed(next@),
    {
        proof {
            use_type_invariant(&self);
            lemma_delivery_keeps_well_formed(self@, request@, outputs.deep_view());
        }
        if !request.is_valid() {
            return self;
        }
        let mut screens = self.screens;
        match request {
            Request::Branches => show_branch_selector(&mut screens, outputs),
            Request::SwitchBranch { branch } => {
                screens = switch_to_branch(branch, outputs);
            },
            Request::Search { kind: _, query } => perform_search(&mut screens, query, outputs),
            Request::CommitDetail { commit } => show_commit_details(&mut screens, commit, outputs),
            Request::FileContent { commit, filename } => show_file_content(
                &mut screens,
                commit,
                filename,
                outputs,
            ),
        }
        NavigationStack { screens }
    }
}

/// Whether `outputs` are what `run` gave when it was asked `queries`, one
/// after the other.
pub open spec fn fetched<R: Fn(&Query) -> Option<String>>(
    run: &R,
    queries: Seq<QueryView>,
    outputs: Seq<Option<Seq<char>>>,
) -> bool {
    exists|asked: Vec<Query>, answers: Vec<Option<String>>|
        {
            &&& asked.deep_view() == queries
            &&& answers.deep_view() == outputs
            &&& answers.len() == asked.len()
            &&& forall|k: int|
                0 <= k < asked.len() ==> run.ensures((&asked@[k],), #[trigger] answers@[k])
        }
}

impl NavigationStack {
    /// Opens the program: puts the opening queries to the repository and
    /// makes the first stack from what comes back.
    pub fn start<R: Fn(&Query) -> Option<String>>(run: &R) -> (stack: NavigationStack)
        requires
            answers_all(run),
        ensures
            exists|outputs: Seq<Option<Seq<char>>>|
                #[trigger] fetched(run, opening_queries(), outputs) && stack@ == opened(outputs),
            well_formed(stack@),
    {
        let queries = opening();
        let outputs = fetch(&queries, run);
        let stack = NavigationStack::new(&outputs);
        proof {
            assert(fetched(run, opening_queries(), outputs.deep_view()));
            lemma_opened_is_well_formed(outputs.deep_view());
        }
        stack
    }

    /// Puts the queries of `request` to the repository and delivers what
    /// comes back. Of a request that is not valid nothing is asked, and the
    /// stack stays as it is.
    pub fn perform<R: Fn(&Query) -> Option<String>>(self, request: Request, run: &R) -> (next:
        NavigationStack)
        requires
            answers_all(run),
        ensures
            exists|outputs: Seq<Option<Seq<char>>>|
                #[trigger] fetched(run, request@.queries(), outputs) && next@ == delivered(
                    self@,
                    request@,
                    outputs,
                ),
            well_formed(next@),
    {
        let queries = request.queries();
        let outputs = fetch(&queries, run);
        proof {
            assert(fetched(run, request@.queries(), outputs.deep_view()));
        }
        self.deliver(request, &outputs)
    }
}

} // verus!
