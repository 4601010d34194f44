//! The list of a screen as the widget of the terminal library that paints it.
//!
//! The widget is filled here, label by label, so that entry `i` on the
//! terminal is entry `i` of the screen: the one that `Event::Select(i)`
//! chooses. What the widget does with its entries is the terminal library's
//! business; of that, this module trusts only that a new widget is empty and
//! that adding an entry puts it last.

use cursive::views::SelectView;
use vstd::prelude::*;

verus! {

/// The list widget of the terminal library. What is inside is not looked at
/// here; [`entries`] names what it holds.
#[verifier::external_type_specification]
#[verifier::external_body]
#[verifier::reject_recursive_types(T)]
pub struct ExSelectView<T>(SelectView<T>);

/// The entries of a list widget, the first one first: each entry's label, as
/// plain text, and the value that is handed back when the entry is chosen.
pub uninterp spec fn entries(list: SelectView<usize>) -> Seq<(Seq<char>, usize)>;

/// Makes a list widget with `SelectView::new`. Trusted, not proved: the new
/// widget holds no entries.
#[verifier::external_body]
fn empty_list() -> (list: SelectView<usize>)
    ensures
        entries(list) == Seq::<(Seq<char>, usize)>::empty(),
{
    SelectView::new()
}

/// Adds an entry with `SelectView::add_item`. Trusted, not proved: the
/// widget then holds the entries that it held, and behind them one with the
/// given label and value.
#[verifier::external_body]
fn add_entry(list: &mut SelectView<usize>, label: String, value: usize)
    ensures
        entries(*final(list)) == entries(*old(list)).push((label@, value)),
{
    list.add_item(label, value);
}

/// The entries that a list of `labels` shows: label `i` with the value `i`.
pub open spec fn numbered(labels: Seq<Seq<char>>) -> Seq<(Seq<char>, usize)> {
    Seq::new(labels.len(), |i: int| (labels[i], i as usize))
}

/// The list widget for `labels`: choosing entry `i` hands back `i`.
pub fn list_view(labels: &Vec<String>) -> (list: SelectView<usize>)
    ensures
        entries(list) == numbered(labels.deep_view()),
{
    let mut list = empty_list();
    let mut i: usize = 0;
    while i < labels.len()
        invariant
            i <= labels.len(),
            entries(list) == numbered(labels.deep_view().take(i as int)),
        decreases labels.len() - i,
    {
        add_entry(&mut list, labels[i].clone(), i);
        assert(numbered(labels.deep_view().take(i + 1)) =~= numbered(
            labels.deep_view().take(i as int),
        ).push((labels@[i as int]@, i)));
        i += 1;
    }
    assert(labels.deep_view().take(i as int) == labels.deep_view());
    list
}

} // verus!
