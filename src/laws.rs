use vstd::prelude::*;

use crate::bridge::{
    bridge_wf, close_step, count_closed, lemma_count_closed_push, manager_step, toplevel_step,
    BridgeView,
};
use crate::details::{empty_details, DetailsView};
use crate::events::{details_after, is_property_event, ManagerEvent, SignalView, ToplevelEvent};

verus! {

/// The bridge after a run of events on one handle, first event first.
pub open spec fn run_toplevel<H, S>(
    b: BridgeView<H, S>,
    id: u32,
    h: H,
    evs: Seq<ToplevelEvent>,
) -> BridgeView<H, S>
    decreases evs.len(),
{
    if evs.len() == 0 {
        b
    } else {
        toplevel_step(run_toplevel(b, id, h, evs.drop_last()), id, h, evs.last())
    }
}

/// The last title that `evs` reports, if any.
pub open spec fn last_title(evs: Seq<ToplevelEvent>) -> Option<Seq<char>>
    decreases evs.len(),
{
    if evs.len() == 0 {
        None
    } else {
        match evs.last() {
            ToplevelEvent::Title(t) => Some(t@),
            _ => last_title(evs.drop_last()),
        }
    }
}

/// The last application id that `evs` reports, if any.
pub open spec fn last_app_id(evs: Seq<ToplevelEvent>) -> Option<Seq<char>>
    decreases evs.len(),
{
    if evs.len() == 0 {
        None
    } else {
        match evs.last() {
            ToplevelEvent::AppId(a) => Some(a@),
            _ => last_app_id(evs.drop_last()),
        }
    }
}

/// The last set of state flags that `evs` reports; empty if none.
pub open spec fn last_state(evs: Seq<ToplevelEvent>) -> Seq<u8>
    decreases evs.len(),
{
    if evs.len() == 0 {
        Seq::empty()
    } else {
        match evs.last() {
            ToplevelEvent::State(s) => s@,
            _ => last_state(evs.drop_last()),
        }
    }
}

/// For each field, the last value that `evs` reports, or unset.
pub open spec fn last_values(evs: Seq<ToplevelEvent>) -> DetailsView {
    DetailsView {
        title: last_title(evs),
        app_id: last_app_id(evs),
        state: last_state(evs),
        parent: None,
    }
}

pub open spec fn all_property_events(evs: Seq<ToplevelEvent>) -> bool {
    forall|i: int| 0 <= i < evs.len() ==> is_property_event(#[trigger] evs[i])
}

proof fn lemma_last_values_step(evs: Seq<ToplevelEvent>)
    requires
        evs.len() > 0,
    ensures
        last_values(evs) == details_after(last_values(evs.drop_last()), evs.last()),
{
}

/// Property events on a tracked handle fold into its details and send nothing.
proof fn lemma_run_properties<H, S>(
    b: BridgeView<H, S>,
    id: u32,
    h: H,
    pre: Seq<ToplevelEvent>,
    evs: Seq<ToplevelEvent>,
)
    requires
        !b.closed,
        b.windows.contains_key(id),
        b.windows[id] == last_values(pre),
        all_property_events(evs),
    ensures
        run_toplevel(b, id, h, evs) == (BridgeView {
            windows: b.windows.insert(id, last_values(pre + evs)),
            ..b
        }),
    decreases evs.len(),
{
    if evs.len() == 0 {
        assert(pre + evs =~= pre);
        assert(b.windows.insert(id, last_values(pre + evs)) =~= b.windows);
    } else {
        let prev = evs.drop_last();
        assert forall|i: int| 0 <= i < prev.len() implies is_property_event(#[trigger] prev[i]) by {
            assert(prev[i] == evs[i]);
        }
        lemma_run_properties(b, id, h, pre, prev);
        let all = pre + evs;
        assert(all.drop_last() =~= pre + prev);
        assert(all.last() == evs.last());
        assert(is_property_event(evs[evs.len() - 1]));
        lemma_last_values_step(all);
        let mid = run_toplevel(b, id, h, prev);
        assert(mid.windows[id] == last_values(pre + prev));
        assert(mid.windows.insert(id, last_values(all)) =~= b.windows.insert(id, last_values(all)));
    }
}

/// After a handle is announced and reports property events and then `Done`,
/// the signal sent carries, for each field, the last value reported, and
/// `None` for each field never reported.
pub proof fn lemma_done_reports_last_values<H, S>(
    b: BridgeView<H, S>,
    id: u32,
    h: H,
    evs: Seq<ToplevelEvent>,
)
    requires
        !b.closed,
        all_property_events(evs),
    ensures
        ({
            let after = toplevel_step(
                run_toplevel(manager_step(b, ManagerEvent::Toplevel(id)), id, h, evs),
                id,
                h,
                ToplevelEvent::Done,
            );
            &&& after.emitted == b.emitted.push(SignalView::AddUpdateToplevel(h, last_values(evs)))
            &&& after.windows == b.windows.insert(id, last_values(evs))
            &&& after.exit == b.exit
            &&& after.closed == b.closed
        }),
{
    let b0 = manager_step(b, ManagerEvent::Toplevel(id));
    let e: Seq<ToplevelEvent> = Seq::empty();
    assert(last_values(e) == empty_details());
    lemma_run_properties(b0, id, h, e, evs);
    assert(e + evs =~= evs);
    assert(b0.windows.insert(id, last_values(evs)) =~= b.windows.insert(id, last_values(evs)));
}

/// Every `Done` sends the details accumulated since the handle was announced,
/// not the changes since the previous `Done`.
pub proof fn lemma_repeated_done_is_cumulative<H, S>(
    b: BridgeView<H, S>,
    id: u32,
    h: H,
    evs1: Seq<ToplevelEvent>,
    evs2: Seq<ToplevelEvent>,
)
    requires
        !b.closed,
        all_property_events(evs1),
        all_property_events(evs2),
    ensures
        ({
            let first = toplevel_step(
                run_toplevel(manager_step(b, ManagerEvent::Toplevel(id)), id, h, evs1),
                id,
                h,
                ToplevelEvent::Done,
            );
            let second = toplevel_step(run_toplevel(first, id, h, evs2), id, h, ToplevelEvent::Done);
            second.emitted == b.emitted.push(
                SignalView::AddUpdateToplevel(h, last_values(evs1)),
            ).push(SignalView::AddUpdateToplevel(h, last_values(evs1 + evs2)))
        }),
{
    lemma_done_reports_last_values(b, id, h, evs1);
    let first = toplevel_step(
        run_toplevel(manager_step(b, ManagerEvent::Toplevel(id)), id, h, evs1),
        id,
        h,
        ToplevelEvent::Done,
    );
    lemma_run_properties(first, id, h, evs1, evs2);
}

/// `Closed` on a tracked handle removes exactly its entry and sends exactly
/// one removal for it; on a handle not tracked it changes and sends nothing.
pub proof fn lemma_closed_removes_one<H, S>(b: BridgeView<H, S>, id: u32, h: H)
    requires
        bridge_wf(b),
        !b.closed,
    ensures
        ({
            let after = toplevel_step(b, id, h, ToplevelEvent::Closed);
            if b.windows.contains_key(id) {
                &&& after.windows == b.windows.remove(id)
                &&& after.windows.len() == b.windows.len() - 1
                &&& after.emitted == b.emitted.push(SignalView::RemoveToplevel(h))
            } else {
                after == b
            }
        }),
{
}

/// `Finished` stops the loop, and closing then adds exactly one closing
/// signal after those already sent; closing again sends nothing.
pub proof fn lemma_finished_closes_once<H, S>(b: BridgeView<H, S>)
    requires
        bridge_wf(b),
        !b.closed,
    ensures
        manager_step(b, ManagerEvent::Finished).exit,
        ({
            let c = close_step(manager_step(b, ManagerEvent::Finished));
            &&& c.emitted == b.emitted.push(SignalView::Closed)
            &&& count_closed(c.emitted) == 1
            &&& bridge_wf(c)
            &&& close_step(c) == c
        }),
{
    lemma_count_closed_push(b.emitted, SignalView::<H, S>::Closed);
}

} // verus!
