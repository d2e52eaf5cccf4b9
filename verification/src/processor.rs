//! The reconciliation state machine: epoch handling, latency-compensated
//! time estimation, and the bounded start-time window.
//!
//! Policy choice: a `Sync` report whose identifier does not match the current
//! session is a pure no-op — it is dropped without touching any field.

use crate::arith::{div_trunc, div_trunc_i128};
use crate::event::{Event, EventModel};
use crate::notifier::Notifier;
use crate::state::{wf_state, SessionState, StateModel, WINDOW_CAP};
use vstd::arithmetic::div_mod::{
    lemma_div_is_ordered, lemma_div_multiples_vanish, lemma_div_pos_is_pos,
};
use vstd::prelude::*;

verus! {

/// How far below the current identifier an incoming one must lie before it is
/// read as a wrapped-around new epoch rather than a stale duplicate.
pub const EPOCH_SKIP: i64 = 100;

/// The epoch acceptance policy for `MediaStart` / `MediaStop`: an incoming
/// identifier is accepted when it is not older than the current one, or when
/// it is so much older that it must belong to a reset counter.
pub open spec fn accept_epoch_spec(current: int, incoming: int) -> bool {
    incoming >= current || current - incoming > EPOCH_SKIP as int
}

/// Decides whether `incoming` opens (or closes) a session at least as new as
/// `current`.
pub fn accept_epoch(current: i32, incoming: i32) -> (r: bool)
    ensures
        r == accept_epoch_spec(current as int, incoming as int),
{
    incoming >= current || (current as i64) - (incoming as i64) > EPOCH_SKIP
}

/// Arithmetic mean of three latency samples, rounded toward zero.
pub open spec fn mean3_spec(a: int, b: int, c: int) -> int {
    div_trunc(a + b + c, 3)
}

/// Mean of the three latency samples of a `Sync` report.  The result always
/// fits in `i64` again: a truncated mean can not leave the range of its
/// inputs.
pub fn mean_latency(latencies: &[i64; 3]) -> (m: i64)
    ensures
        m == mean3_spec(latencies@[0] as int, latencies@[1] as int, latencies@[2] as int),
{
    let sum: i128 = latencies[0] as i128 + latencies[1] as i128 + latencies[2] as i128;
    let q = div_trunc_i128(sum, 3);
    proof {
        if sum >= 0 {
            lemma_div_is_ordered(sum as int, 3 * (i64::MAX as int), 3);
            lemma_div_multiples_vanish(i64::MAX as int, 3);
            lemma_div_pos_is_pos(sum as int, 3);
        } else {
            lemma_div_is_ordered(-(sum as int), 3 * (-(i64::MIN as int)), 3);
            lemma_div_multiples_vanish(-(i64::MIN as int), 3);
            lemma_div_pos_is_pos(-(sum as int), 3);
        }
    }
    q as i64
}

/// The window after pushing `v`: the oldest entry is evicted once the window
/// would exceed [`WINDOW_CAP`].
pub open spec fn push_start(starts: Seq<int>, v: int) -> Seq<int> {
    let grown = starts.push(v);
    if grown.len() > WINDOW_CAP {
        grown.drop_first()
    } else {
        grown
    }
}

/// The reconciled playback position a `Sync` report yields: the reported time
/// plus the mean of its latency samples.
pub open spec fn sync_time(time: int, latencies: Seq<int>) -> int {
    time + mean3_spec(latencies[0], latencies[1], latencies[2])
}

/// Whether `e` passes the guard against state `s`: epoch acceptance for
/// `MediaStart` / `MediaStop`, a strict identifier match for `Sync`.
pub open spec fn event_accepted(s: StateModel, e: EventModel) -> bool {
    match e {
        EventModel::MediaStart { id, .. } => accept_epoch_spec(s.id, id),
        EventModel::MediaStop { id } => accept_epoch_spec(s.id, id),
        EventModel::Sync { id, .. } => id == s.id,
    }
}

/// The state after applying one event at wall-clock instant `now`
/// (milliseconds).  Rejected events leave the state untouched.
pub open spec fn apply_spec(s: StateModel, e: EventModel, now: int) -> StateModel {
    match e {
        EventModel::MediaStart { id, filename } => {
            if accept_epoch_spec(s.id, id) {
                StateModel {
                    id,
                    filename: Option::Some(filename),
                    time: s.time,
                    starts: Seq::empty(),
                }
            } else {
                s
            }
        },
        EventModel::MediaStop { id } => {
            if accept_epoch_spec(s.id, id) {
                StateModel { id, filename: Option::None, time: s.time, starts: s.starts }
            } else {
                s
            }
        },
        EventModel::Sync { id, time, latencies } => {
            if id == s.id {
                let t = sync_time(time, latencies);
                StateModel {
                    id: s.id,
                    filename: s.filename,
                    time: t,
                    starts: push_start(s.starts, now - t),
                }
            } else {
                s
            }
        },
    }
}

/// Law: after any accepted `MediaStart` the start-time window is empty — the
/// smoothing history of the previous session never leaks into the new one.
pub proof fn lemma_media_start_clears_window(s: StateModel, e: EventModel, now: int)
    requires
        e is MediaStart,
        event_accepted(s, e),
    ensures
        apply_spec(s, e, now).starts.len() == 0,
{
}

/// Law: a `Sync` report whose identifier is not the current session's —
/// stale or foreign — is a pure no-op; in particular the reconciled time is
/// unchanged.
pub proof fn lemma_foreign_sync_is_no_op(s: StateModel, e: EventModel, now: int)
    requires
        e matches EventModel::Sync { id, .. } && id != s.id,
    ensures
        apply_spec(s, e, now) == s,
        apply_spec(s, e, now).time == s.time,
{
}

/// Law: no event grows the start-time window beyond its capacity.
pub proof fn lemma_window_bounded(s: StateModel, e: EventModel, now: int)
    requires
        s.starts.len() <= WINDOW_CAP,
    ensures
        apply_spec(s, e, now).starts.len() <= WINDOW_CAP,
{
}

/// Law: an accepted `Sync` against a full window evicts exactly the oldest
/// entry — the survivors keep their order and the new estimate enters at the
/// back.
pub proof fn lemma_window_evicts_oldest(s: StateModel, e: EventModel, now: int)
    requires
        s.starts.len() == WINDOW_CAP,
        e matches EventModel::Sync { id, .. } && id == s.id,
    ensures
        apply_spec(s, e, now).starts.len() == WINDOW_CAP,
        apply_spec(s, e, now).starts == s.starts.drop_first().push(
            now - apply_spec(s, e, now).time,
        ),
{
    assert(apply_spec(s, e, now).starts =~= s.starts.drop_first().push(
        now - apply_spec(s, e, now).time,
    ));
}

/// Law: replaying a `Sync` report that still matches the current session
/// re-derives the same reconciled time, and identifier and filename stay as
/// they were; only the smoothing window records the repetition.
pub proof fn lemma_sync_replay_keeps_time(s: StateModel, e: EventModel, n1: int, n2: int)
    requires
        e matches EventModel::Sync { id, .. } && id == s.id,
    ensures
        apply_spec(apply_spec(s, e, n1), e, n2).time == apply_spec(s, e, n1).time,
        apply_spec(apply_spec(s, e, n1), e, n2).id == s.id,
        apply_spec(apply_spec(s, e, n1), e, n2).filename == s.filename,
{
}

/// Applies one event to the shared state, as of wall-clock instant `now_ms`.
/// Returns whether the event was accepted — exactly the mutations after which
/// subscribers must be woken.
pub fn apply_event(state: &mut SessionState, event: &Event, now_ms: i64) -> (accepted: bool)
    requires
        wf_state(old(state)@),
    ensures
        wf_state(final(state)@),
        final(state)@ == apply_spec(old(state)@, event@, now_ms as int),
        accepted == event_accepted(old(state)@, event@),
{
    let accepted: bool = match event {
        Event::MediaStart { id, filename } => {
            if accept_epoch(state.id, *id) {
                state.id = *id;
                state.filename = Option::Some(filename.clone());
                state.start_times = Vec::new();
                true
            } else {
                false
            }
        },
        Event::MediaStop { id } => {
            if accept_epoch(state.id, *id) {
                state.id = *id;
                state.filename = Option::None;
                true
            } else {
                false
            }
        },
        Event::Sync { id, time, latencies } => {
            if *id == state.id {
                let avg = mean_latency(latencies);
                let t: i128 = (*time as i128) + (avg as i128);
                state.time = t;
                let started: i128 = (now_ms as i128) - t;
                state.start_times.push(started);
                if state.start_times.len() > WINDOW_CAP {
                    state.start_times.remove(0);
                }
                true
            } else {
                false
            }
        },
    };
    proof {
        assert(state@ =~= apply_spec(old(state)@, event@, now_ms as int));
    }
    accepted
}

/// Applies one event at the wall clock's current instant and raises the wake
/// signal exactly once when — and only when — the event was accepted.  The
/// clock reading is outside anyone's control, so the new state is pinned for
/// *some* instant; everything but the newest window entry is independent of
/// it.
pub fn process_event(state: &mut SessionState, event: &Event, notifier: &mut Notifier) -> (accepted:
    bool)
    requires
        wf_state(old(state)@),
    ensures
        wf_state(final(state)@),
        accepted == event_accepted(old(state)@, event@),
        exists|now: int| final(state)@ == apply_spec(old(state)@, event@, now),
        accepted ==> final(notifier).pending,
        !accepted ==> final(state)@ == old(state)@ && *final(notifier) == *old(notifier),
{
    let now_ms = crate::clock::current_time_ms();
    let accepted = apply_event(state, event, now_ms);
    if accepted {
        notifier.signal();
    }
    proof {
        assert(state@ == apply_spec(old(state)@, event@, now_ms as int));
    }
    accepted
}

} // verus!
