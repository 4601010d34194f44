//! The rules by which the stack of screens changes, stated over the
//! mathematical values of stacks, events and requests, and what follows from
//! the rules.

use crate::event::{
    kind_at, shortcut_of, ActionView, EventView, RequestView, Shortcut, LIST_LENGTH,
};
use crate::gateway::{
    branch_from, branches_from, changed_files_from, commits_from, content_from, directory_from,
    stats_from,
};
use crate::projection::{projection_of, search_kind_labels};
use crate::query::QueryView;
use crate::record::{CommitView, FileDiffView};
use crate::screen::ScreenView;
use crate::text::is_blank;
use vstd::prelude::*;

verus! {

/// Output `k` of those delivered, or a failure where fewer were delivered.
pub open spec fn output_at(outputs: Seq<Option<Seq<char>>>, k: int) -> Option<Seq<char>> {
    if 0 <= k < outputs.len() {
        outputs[k]
    } else {
        None
    }
}

/// A stack is well formed when it holds a screen, its lowest screen is a
/// branch's list of commits, and no screen above that one is.
pub open spec fn well_formed(stack: Seq<ScreenView>) -> bool {
    &&& stack.len() >= 1
    &&& stack[0].is_base()
    &&& forall|i: int| 1 <= i < stack.len() ==> !(#[trigger] stack[i]).is_base()
}

/// The stack with which the program opens, made from the outputs of the
/// opening queries.
pub open spec fn opened(outputs: Seq<Option<Seq<char>>>) -> Seq<ScreenView> {
    seq![
        ScreenView::MainList {
            directory: directory_from(output_at(outputs, 0)),
            branch: branch_from(output_at(outputs, 1)),
            commits: commits_from(output_at(outputs, 2)),
        },
    ]
}

/// The stack after its top screen was closed. The base cannot be closed.
pub open spec fn closed(stack: Seq<ScreenView>) -> Seq<ScreenView> {
    if stack.len() > 1 {
        stack.drop_last()
    } else {
        stack
    }
}

/// What choosing entry `index` of `commits` asks for: the commit's details,
/// unless there is no such entry or the entry is a sentinel.
pub open spec fn commit_chosen(commits: Seq<CommitView>, index: nat) -> ActionView {
    if index < commits.len() && !commits[index as int].is_sentinel() {
        ActionView::Fetch(RequestView::CommitDetail { commit: commits[index as int] })
    } else {
        ActionView::Continue
    }
}

/// The stack and the action after entry `index` of the top screen's list was
/// chosen.
pub open spec fn selected(stack: Seq<ScreenView>, index: nat) -> (Seq<ScreenView>, ActionView) {
    match stack.last() {
        ScreenView::MainList { commits, .. } => (stack, commit_chosen(commits, index)),
        ScreenView::SearchResults { commits, .. } => (stack, commit_chosen(commits, index)),
        ScreenView::CommitDetail { commit, files, .. } => {
            if index < files.len() && files[index as int].len() > 0 && !commit.is_sentinel() {
                (
                    stack,
                    ActionView::Fetch(
                        RequestView::FileContent { commit, filename: files[index as int] },
                    ),
                )
            } else {
                (stack, ActionView::Continue)
            }
        },
        ScreenView::BranchSelector { branches, .. } => {
            if index < branches.len() && branches[index as int].len() > 0 {
                (
                    stack,
                    ActionView::Fetch(RequestView::SwitchBranch { branch: branches[index as int] }),
                )
            } else {
                (stack, ActionView::Continue)
            }
        },
        ScreenView::SearchTypeSelector => {
            match kind_at(index) {
                Some(kind) => (
                    closed(stack).push(ScreenView::SearchInput { kind }),
                    ActionView::Continue,
                ),
                None => (stack, ActionView::Continue),
            }
        },
        ScreenView::SearchInput { .. } => (stack, ActionView::Continue),
        ScreenView::FileContent { .. } => (stack, ActionView::Continue),
    }
}

/// The stack and the action after `key` was pressed. While the top screen
/// takes text, a key is text and no shortcut.
pub open spec fn key_pressed(stack: Seq<ScreenView>, key: char) -> (Seq<ScreenView>, ActionView) {
    if stack.last().takes_text() {
        (stack, ActionView::Continue)
    } else {
        match shortcut_of(key) {
            Some(Shortcut::Quit) => (stack, ActionView::Quit),
            Some(Shortcut::Branches) => (stack, ActionView::Fetch(RequestView::Branches)),
            Some(Shortcut::Search) => (
                stack.push(ScreenView::SearchTypeSelector),
                ActionView::Continue,
            ),
            None => (stack, ActionView::Continue),
        }
    }
}

/// The stack and the action after `text` was submitted. Only the search
/// input takes text, and it takes none that is blank.
pub open spec fn submitted(stack: Seq<ScreenView>, text: Seq<char>) -> (
    Seq<ScreenView>,
    ActionView,
) {
    match stack.last() {
        ScreenView::SearchInput { kind } => {
            if is_blank(text) {
                (stack, ActionView::Continue)
            } else {
                (stack, ActionView::Fetch(RequestView::Search { kind, query: text }))
            }
        },
        _ => (stack, ActionView::Continue),
    }
}

/// The stack and the action after `event`.
pub open spec fn step(stack: Seq<ScreenView>, event: EventView) -> (Seq<ScreenView>, ActionView) {
    match event {
        EventView::Key(key) => key_pressed(stack, key),
        EventView::Select(index) => selected(stack, index),
        EventView::Submit(text) => submitted(stack, text),
        EventView::Close => (closed(stack), ActionView::Continue),
    }
}

/// The stack after the outputs of `request`'s queries were delivered. A
/// request that is not valid changes nothing.
///
/// A commit or a file opens on top. So does the branch selector. What a
/// search found takes the place of the search input, if that is on top. A
/// branch's list takes the place of the whole stack.
pub open spec fn delivered(
    stack: Seq<ScreenView>,
    request: RequestView,
    outputs: Seq<Option<Seq<char>>>,
) -> Seq<ScreenView> {
    if !request.is_valid() {
        stack
    } else {
        carried_out(stack, request, outputs)
    }
}

/// The stack after a valid request was carried out with the outputs of its
/// queries.
pub open spec fn carried_out(
    stack: Seq<ScreenView>,
    request: RequestView,
    outputs: Seq<Option<Seq<char>>>,
) -> Seq<ScreenView> {
    match request {
        RequestView::Branches => stack.push(
            ScreenView::BranchSelector {
                branches: branches_from(output_at(outputs, 0)),
                current: branch_from(output_at(outputs, 1)),
            },
        ),
        RequestView::SwitchBranch { branch } => seq![
            ScreenView::MainList {
                directory: directory_from(output_at(outputs, 0)),
                branch,
                commits: commits_from(output_at(outputs, 1)),
            },
        ],
        RequestView::Search { kind, query } => {
            let below = if stack.last().takes_text() {
                closed(stack)
            } else {
                stack
            };
            below.push(
                ScreenView::SearchResults { query, commits: commits_from(output_at(outputs, 0)) },
            )
        },
        RequestView::CommitDetail { commit } => stack.push(
            ScreenView::CommitDetail {
                commit,
                stats: stats_from(output_at(outputs, 0)),
                files: changed_files_from(output_at(outputs, 1)),
            },
        ),
        RequestView::FileContent { commit, filename } => stack.push(
            ScreenView::FileContent {
                commit,
                file: FileDiffView { filename, diff: content_from(output_at(outputs, 0)) },
            },
        ),
    }
}

/// How many of the lowest screens are after `event` what they were before
/// it. Whoever paints the stack can leave these as they are painted, and has
/// to paint anew what lies above them.
pub open spec fn kept_by_event(stack: Seq<ScreenView>, event: EventView) -> nat {
    match event {
        EventView::Close => closed(stack).len(),
        EventView::Select(index) => {
            if stack.last() is SearchTypeSelector && kind_at(index) is Some {
                closed(stack).len()
            } else {
                stack.len()
            }
        },
        _ => stack.len(),
    }
}

/// How many of the lowest screens are after the delivery for `request` what
/// they were before it.
pub open spec fn kept_by_delivery(stack: Seq<ScreenView>, request: RequestView) -> nat {
    if !request.is_valid() {
        stack.len()
    } else {
        match request {
            RequestView::SwitchBranch { .. } => 0,
            RequestView::Search { .. } => {
                if stack.last().takes_text() {
                    closed(stack).len()
                } else {
                    stack.len()
                }
            },
            _ => stack.len(),
        }
    }
}

/// The screens that an event keeps are there before and after it, and they
/// are the same.
pub proof fn lemma_event_keeps_screens(stack: Seq<ScreenView>, event: EventView)
    requires
        stack.len() >= 1,
    ensures
        kept_by_event(stack, event) <= stack.len(),
        kept_by_event(stack, event) <= step(stack, event).0.len(),
        step(stack, event).0.take(kept_by_event(stack, event) as int) == stack.take(
            kept_by_event(stack, event) as int,
        ),
{
}

/// The screens that a delivery keeps are there before and after it, and they
/// are the same.
pub proof fn lemma_delivery_keeps_screens(
    stack: Seq<ScreenView>,
    request: RequestView,
    outputs: Seq<Option<Seq<char>>>,
)
    requires
        stack.len() >= 1,
    ensures
        kept_by_delivery(stack, request) <= stack.len(),
        kept_by_delivery(stack, request) <= delivered(stack, request, outputs).len(),
        delivered(stack, request, outputs).take(kept_by_delivery(stack, request) as int)
            == stack.take(kept_by_delivery(stack, request) as int),
{
}

/// Handling an event leaves a well-formed stack well formed.
pub proof fn lemma_step_keeps_well_formed(stack: Seq<ScreenView>, event: EventView)
    requires
        well_formed(stack),
    ensures
        well_formed(step(stack, event).0),
{
}

/// Delivering the outputs of a request leaves a well-formed stack well formed.
pub proof fn lemma_delivery_keeps_well_formed(
    stack: Seq<ScreenView>,
    request: RequestView,
    outputs: Seq<Option<Seq<char>>>,
)
    requires
        well_formed(stack),
    ensures
        well_formed(delivered(stack, request, outputs)),
{
}

/// A switch to a branch leaves one screen, the list of that branch, whatever
/// the stack held before; and the commits asked for are those of that branch.
pub proof fn lemma_switch_replaces_the_stack(
    stack: Seq<ScreenView>,
    branch: Seq<char>,
    outputs: Seq<Option<Seq<char>>>,
)
    requires
        branch.len() > 0,
    ensures
        delivered(stack, RequestView::SwitchBranch { branch }, outputs) == seq![
            (ScreenView::MainList {
                directory: directory_from(output_at(outputs, 0)),
                branch,
                commits: commits_from(output_at(outputs, 1)),
            }),
        ],
        (RequestView::SwitchBranch { branch }).queries() == seq![
            QueryView::CurrentDirectory,
            (QueryView::BranchCommits { branch, count: LIST_LENGTH as nat }),
        ],
{
}

/// Handling an event never asks for anything but a valid request: no commit
/// without a hash, no file or branch without a name, no blank text.
pub proof fn lemma_events_ask_for_valid_requests(stack: Seq<ScreenView>, event: EventView)
    ensures
        step(stack, event).1 matches ActionView::Fetch(request) ==> request.is_valid(),
{
}

/// A request that is not valid is not carried out: nothing is asked of the
/// repository for it, and delivering it leaves the stack as it is.
pub proof fn lemma_invalid_request_changes_nothing(
    stack: Seq<ScreenView>,
    request: RequestView,
    outputs: Seq<Option<Seq<char>>>,
)
    requires
        !request.is_valid(),
    ensures
        request.queries() == Seq::<QueryView>::empty(),
        delivered(stack, request, outputs) == stack,
        kept_by_delivery(stack, request) == stack.len(),
{
}

/// A search key, on a screen that takes no text, opens the choice of a
/// search on top of the stack and asks nothing of the repository; the choice
/// lists the three kinds of search; and closing it gives the stack back.
pub proof fn lemma_search_key_opens_the_choice(stack: Seq<ScreenView>, key: char)
    requires
        stack.len() >= 1,
        !stack.last().takes_text(),
        shortcut_of(key) == Some(Shortcut::Search),
    ensures
        step(stack, EventView::Key(key)) == (
            stack.push(ScreenView::SearchTypeSelector),
            ActionView::Continue,
        ),
        projection_of(ScreenView::SearchTypeSelector).items == Some(search_kind_labels()),
        step(stack.push(ScreenView::SearchTypeSelector), EventView::Close) == (
            stack,
            ActionView::Continue,
        ),
{
    assert(stack.push(ScreenView::SearchTypeSelector).drop_last() == stack);
}

/// The stack after its top screen was closed `times` times.
pub open spec fn closed_times(stack: Seq<ScreenView>, times: nat) -> Seq<ScreenView>
    decreases times,
{
    if times == 0 {
        stack
    } else {
        closed_times(closed(stack), (times - 1) as nat)
    }
}

/// Closing never takes the base away, however often it is done, and closing
/// once for each screen above the base leaves the base alone.
pub proof fn lemma_base_is_reached(stack: Seq<ScreenView>, times: nat)
    requires
        well_formed(stack),
    ensures
        well_formed(closed_times(stack, times)),
        closed_times(stack, times)[0] == stack[0],
        times >= stack.len() - 1 ==> closed_times(stack, times) == seq![stack[0]],
    decreases times,
{
    if times > 0 {
        lemma_base_is_reached(closed(stack), (times - 1) as nat);
    }
    if stack.len() == 1 {
        assert(stack == seq![stack[0]]);
    }
}

/// One thing that changes the stack: an event, or the delivery of the outputs
/// that a request was waiting for.
pub ghost enum Input {
    Event(EventView),
    Delivery(RequestView, Seq<Option<Seq<char>>>),
}

/// The stack after `input`.
pub open spec fn after(stack: Seq<ScreenView>, input: Input) -> Seq<ScreenView> {
    match input {
        Input::Event(event) => step(stack, event).0,
        Input::Delivery(request, outputs) => delivered(stack, request, outputs),
    }
}

/// The stack after all of `inputs`, the first one first.
pub open spec fn after_all(stack: Seq<ScreenView>, inputs: Seq<Input>) -> Seq<ScreenView>
    decreases inputs.len(),
{
    if inputs.len() == 0 {
        stack
    } else {
        after(after_all(stack, inputs.drop_last()), inputs.last())
    }
}

/// Whatever is opened, closed, chosen, typed or delivered, in whatever order:
/// the stack stays well formed, so its base stays a branch's list, and closing
/// once for each screen above the base shows that list again.
pub proof fn lemma_base_is_always_reached(stack: Seq<ScreenView>, inputs: Seq<Input>)
    requires
        well_formed(stack),
    ensures
        well_formed(after_all(stack, inputs)),
        closed_times(after_all(stack, inputs), (after_all(stack, inputs).len() - 1) as nat)
            == seq![after_all(stack, inputs)[0]],
    decreases inputs.len(),
{
    if inputs.len() > 0 {
        let before = after_all(stack, inputs.drop_last());
        lemma_base_is_always_reached(stack, inputs.drop_last());
        match inputs.last() {
            Input::Event(event) => lemma_step_keeps_well_formed(before, event),
            Input::Delivery(request, outputs) => lemma_delivery_keeps_well_formed(
                before,
                request,
                outputs,
            ),
        }
    }
    let now = after_all(stack, inputs);
    lemma_base_is_reached(now, (now.len() - 1) as nat);
}

/// The program's first stack is well formed.
pub proof fn lemma_opened_is_well_formed(outputs: Seq<Option<Seq<char>>>)
    ensures
        well_formed(opened(outputs)),
{
}

/// Whether entry `index` of the list on `screen` stands for nothing: it is a
/// sentinel, or the list has no such entry, as when the one entry shown says
/// that the list is empty.
pub open spec fn is_sentinel_entry(screen: ScreenView, index: nat) -> bool {
    match screen {
        ScreenView::MainList { commits, .. } => index >= commits.len()
            || commits[index as int].is_sentinel(),
        ScreenView::SearchResults { commits, .. } => index >= commits.len()
            || commits[index as int].is_sentinel(),
        ScreenView::CommitDetail { files, .. } => index >= files.len() || files[index as int].len()
            == 0,
        ScreenView::BranchSelector { branches, .. } => index >= branches.len()
            || branches[index as int].len() == 0,
        _ => false,
    }
}

/// Choosing a sentinel entry changes nothing and asks for nothing, the first
/// time and every time after it: the stack, and with it what every screen
/// shows, stays as it was.
pub proof fn lemma_sentinel_choice_changes_nothing(stack: Seq<ScreenView>, index: nat)
    requires
        stack.len() >= 1,
        is_sentinel_entry(stack.last(), index),
    ensures
        step(stack, EventView::Select(index)) == (stack, ActionView::Continue),
        step(step(stack, EventView::Select(index)).0, EventView::Select(index)) == (
            stack,
            ActionView::Continue,
        ),
        stack.map_values(|screen: ScreenView| projection_of(screen)) == step(
            stack,
            EventView::Select(index),
        ).0.map_values(|screen: ScreenView| projection_of(screen)),
{
}

/// Submitting blank text changes nothing and asks for nothing.
pub proof fn lemma_blank_submission_changes_nothing(stack: Seq<ScreenView>, text: Seq<char>)
    requires
        is_blank(text),
    ensures
        step(stack, EventView::Submit(text)) == (stack, ActionView::Continue),
{
}

} // verus!
