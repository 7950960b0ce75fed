use vstd::prelude::*;

use crate::app::{saturating_next, AppState, AppView, Delivery, Event};

verus! {

/// A tick never leads back into `Loading` from a finished state.
proof fn lemma_ticked_leaves_finished(v: AppView, d: Option<Delivery>)
    requires
        !(v.state is Loading),
    ensures
        !(v.ticked(d).state is Loading),
{
}

/// The frame that a run of `n` ticks reaches from `f`, held at the largest value.
pub open spec fn frames_after(f: u64, n: nat) -> u64 {
    if f + n > u64::MAX {
        u64::MAX
    } else {
        (f + n) as u64
    }
}

/// A freshly created session shows `Loading { frame: 0 }`, has not been asked to
/// stop, and awaits exactly one fetch.
pub proof fn lemma_initial_state()
    ensures
        AppView::initial().state == (AppState::Loading { frame: 0 }),
        !AppView::initial().should_quit,
        AppView::initial().pending is Some,
        AppView::initial().wf(),
{
}

/// While the session stays in `Loading`, each tick adds exactly one to the frame
/// counter until it reaches the largest value, where it stays.
pub proof fn lemma_ticks_count_frames(v: AppView, ds: Seq<Option<Delivery>>, f: u64)
    requires
        v.state == (AppState::Loading { frame: f }),
        v.run_ticks(ds).state is Loading,
    ensures
        v.run_ticks(ds).state == (AppState::Loading { frame: frames_after(f, ds.len()) }),
        f <= frames_after(f, ds.len()),
    decreases ds.len(),
{
    if ds.len() > 0 {
        let w = v.ticked(ds[0]);
        let rest = ds.drop_first();
        if !(w.state is Loading) {
            lemma_finished_stays(w, rest);
        } else {
            assert(w.state == (AppState::Loading { frame: saturating_next(f) }));
            lemma_ticks_count_frames(w, rest, saturating_next(f));
        }
    }
}

/// Once nothing is awaited and the state is finished, ticks change nothing.
proof fn lemma_finished_stays(v: AppView, ds: Seq<Option<Delivery>>)
    requires
        !(v.state is Loading),
    ensures
        !(v.run_ticks(ds).state is Loading),
        v.pending is None ==> v.run_ticks(ds) == v,
    decreases ds.len(),
{
    if ds.len() > 0 {
        lemma_ticked_leaves_finished(v, ds[0]);
        lemma_finished_stays(v.ticked(ds[0]), ds.drop_first());
    }
}

/// Once a tick has taken the awaited result, no later tick changes the session,
/// whatever the polls return, until the next reload.
pub proof fn lemma_result_taken_once(v: AppView, d: Delivery, ds: Seq<Option<Delivery>>)
    requires
        v.accepts(d),
    ensures
        v.ticked(Some(d)).run_ticks(ds) == v.ticked(Some(d)),
{
    let w = v.ticked(Some(d));
    assert(!(w.state is Loading));
    lemma_finished_stays(w, ds);
}

/// A reload, from any state, shows `Loading { frame: 0 }` and awaits one new
/// fetch; the outcome of the fetch that was awaited before it is never taken.
pub proof fn lemma_reload_resets(v: AppView, stale: Delivery)
    requires
        v.wf(),
    ensures
        v.keyed('r').state == (AppState::Loading { frame: 0 }),
        v.keyed('r').pending is Some,
        v.keyed('r').wf(),
        v.keyed('r').should_quit == v.should_quit,
        v.pending == Some(stale.ticket) ==> !v.keyed('r').accepts(stale),
        v.pending == Some(stale.ticket)
            ==> v.keyed('r').ticked(Some(stale)) == v.keyed('r').ticked(None),
{
}

/// Once asked to stop, a session stays asked to stop through any run of events.
pub proof fn lemma_quit_sticky(v: AppView, es: Seq<Event>)
    requires
        v.should_quit,
    ensures
        v.run(es).should_quit,
    decreases es.len(),
{
    if es.len() > 0 {
        lemma_quit_sticky(v.stepped(es[0]), es.drop_first());
    }
}

/// A `q` always asks to stop, whatever follows.
pub proof fn lemma_quit_then_anything(v: AppView, es: Seq<Event>)
    ensures
        v.keyed('q').should_quit,
        v.keyed('q').run(es).should_quit,
{
    lemma_quit_sticky(v.keyed('q'), es);
}

/// A key other than `q` and `r` changes nothing.
pub proof fn lemma_other_keys_ignored(v: AppView, key: char)
    requires
        key != 'q',
        key != 'r',
    ensures
        v.keyed(key) == v,
{
}

} // verus!
