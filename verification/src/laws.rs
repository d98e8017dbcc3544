//! Properties of the picker state machine that hold in every state.

use vstd::prelude::*;
use crate::picker::{ActionView, EventView, PickerView};
use crate::text::{lemma_matching_empty_is_all, lemma_matching_exact, occurs_in};

verus! {

/// Only category navigation: forward and backward steps.
pub open spec fn is_navigation(ev: EventView) -> bool {
    ev is NextCategory || ev is PrevCategory
}

/// Every event leaves a valid state valid, and none changes the catalog.
pub proof fn lemma_step_keeps_wf(v: PickerView, ev: EventView)
    requires
        v.wf(),
        v.accepts(ev),
    ensures
        v.step(ev).wf(),
        v.step(ev).categories == v.categories,
{
    if !v.closed {
        match ev {
            EventView::NextCategory => {
                let n = v.categories.len() as int;
                assert(0 <= (v.category + 1) % n < n);
            },
            _ => {},
        }
    }
}

/// Every sequence of events leaves a valid state valid, as long as each
/// picked category exists.
pub proof fn lemma_run_keeps_wf(v: PickerView, events: Seq<EventView>)
    requires
        v.wf(),
        forall|k: int| 0 <= k < events.len() ==> v.accepts(#[trigger] events[k]),
    ensures
        v.run(events).wf(),
        v.run(events).categories == v.categories,
    decreases events.len(),
{
    if events.len() > 0 {
        let before = events.drop_last();
        assert forall|k: int| 0 <= k < before.len() implies v.accepts(#[trigger] before[k]) by {
            assert(before[k] == events[k]);
        }
        lemma_run_keeps_wf(v, before);
        assert(v.accepts(events[events.len() - 1]));
        lemma_step_keeps_wf(v.run(before), events.last());
    }
}

/// After any sequence of forward and backward category steps the active
/// category is still one of the catalog.
pub proof fn lemma_navigation_stays_in_range(v: PickerView, events: Seq<EventView>)
    requires
        v.wf(),
        forall|k: int| 0 <= k < events.len() ==> is_navigation(#[trigger] events[k]),
    ensures
        0 <= v.run(events).category < v.categories.len(),
        v.run(events).categories == v.categories,
{
    lemma_run_keeps_wf(v, events);
}

/// A backward step in the first category stays there; it does not wrap.
pub proof fn lemma_prev_at_first_stays(v: PickerView)
    requires
        v.wf(),
        v.category == 0,
    ensures
        v.step(EventView::PrevCategory).category == 0,
{
}

/// A forward step in the last category goes to the first.
pub proof fn lemma_next_at_last_wraps(v: PickerView)
    requires
        v.wf(),
        !v.closed,
        v.category == v.categories.len() - 1,
    ensures
        v.step(EventView::NextCategory).category == 0,
{
    let n = v.categories.len() as int;
    assert((v.category + 1) % n == 0) by {
        vstd::arithmetic::div_mod::lemma_mod_self_0(n);
    }
}

/// The filtered view holds exactly the items of the active category that
/// contain the filter text.
pub proof fn lemma_visible_exact(v: PickerView, s: Seq<char>)
    ensures
        v.visible().contains(s) <==> v.items().contains(s) && occurs_in(v.filter, s),
{
    lemma_matching_exact(v.items(), v.filter, s);
}

/// With an empty filter the filtered view is the whole active category.
pub proof fn lemma_empty_filter_shows_all(v: PickerView)
    requires
        v.filter == Seq::<char>::empty(),
    ensures
        v.visible() == v.items(),
{
    lemma_matching_empty_is_all(v.items());
}

/// Every category event of an open session puts the highlight back to 0.
pub proof fn lemma_category_change_resets_highlight(v: PickerView, ev: EventView)
    requires
        !v.closed,
        ev is NextCategory || ev is PrevCategory || ev is SelectCategory,
    ensures
        v.step(ev).selected == 0,
{
}

/// A commit with an empty filtered view changes nothing: the session stays
/// as open as it was and no symbol is handed out.
pub proof fn lemma_commit_on_empty_view(v: PickerView)
    requires
        v.visible().len() == 0,
    ensures
        v.step(EventView::Commit) == v,
        v.action(EventView::Commit) == ActionView::Stay,
{
}

/// A commit in an open session with a non-empty filtered view hands out
/// the highlighted item, which is one of the view, and ends the session.
pub proof fn lemma_commit_on_shown_item(v: PickerView)
    requires
        v.wf(),
        !v.closed,
        v.visible().len() > 0,
    ensures
        0 <= v.selected < v.visible().len(),
        v.action(EventView::Commit) == (ActionView::Commit {
            symbol: v.visible()[v.selected],
            auto_paste: v.auto_paste,
        }),
        v.step(EventView::Commit).closed,
{
}

/// A session that has ended stays ended, and stays as it is.
pub proof fn lemma_closed_is_terminal(v: PickerView, ev: EventView)
    requires
        v.closed,
    ensures
        v.step(ev) == v,
        v.action(ev) == ActionView::Stay,
{
}

} // verus!
