//! The shared session record and the start-time estimator.

use crate::arith::{div_trunc, div_trunc_i128};
use vstd::prelude::*;

verus! {

/// Capacity of the start-time window: the oldest entry is evicted once a
/// twenty-first is pushed.
pub const WINDOW_CAP: usize = 20;

/// Bound on `|time|` kept by [`wf_state`]: a reconciled time is the sum of a
/// client `i64` time and an `i64` latency average, so it stays within 2^64.
pub const TIME_ABS: i128 = 18446744073709551616;

/// Bound on every start-time entry kept by [`wf_state`]: an entry is an `i64`
/// clock reading minus a reconciled time, so it stays within 2^65.
pub const START_ABS: i128 = 36893488147419103232;

/// The single shared record of the current media session.
pub struct SessionState {
    /// Server-observed identifier of the current playback session; used only
    /// for epoch comparison.
    pub id: i32,
    /// Present while a session is active, absent when stopped.
    pub filename: Option<String>,
    /// Canonical latency-compensated playback position, in milliseconds.
    pub time: i128,
    /// Rolling history of estimated wall-clock session starts (milliseconds
    /// since the epoch), newest last, at most [`WINDOW_CAP`] entries.
    pub start_times: Vec<i128>,
}

/// The mathematical image of a [`SessionState`].
#[verifier::ext_equal]
pub struct StateModel {
    pub id: int,
    pub filename: Option<Seq<char>>,
    pub time: int,
    pub starts: Seq<int>,
}

impl View for SessionState {
    type V = StateModel;

    open spec fn view(&self) -> StateModel {
        StateModel {
            id: self.id as int,
            filename: match self.filename {
                Option::Some(f) => Option::Some(f@),
                Option::None => Option::None,
            },
            time: self.time as int,
            starts: self.start_times@.map_values(|x: i128| x as int),
        }
    }
}

/// Well-formedness of a session state: the window is bounded and every stored
/// time is small enough for all further arithmetic to stay inside `i128`.
pub open spec fn wf_state(s: StateModel) -> bool {
    &&& s.starts.len() <= WINDOW_CAP
    &&& -(TIME_ABS as int) <= s.time <= TIME_ABS as int
    &&& forall|i: int|
        0 <= i < s.starts.len() ==> -(START_ABS as int) <= #[trigger] s.starts[i] <= START_ABS
            as int
}

/// The state before any event arrived.
pub open spec fn init_state() -> StateModel {
    StateModel { id: 0, filename: Option::None, time: 0, starts: Seq::empty() }
}

/// Sum of a start-time window.
pub open spec fn sum_starts(s: Seq<int>) -> int
    decreases s.len(),
{
    if s.len() == 0 {
        0
    } else {
        sum_starts(s.drop_last()) + s.last()
    }
}

/// Arithmetic mean of a non-empty window, rounded toward zero.
pub open spec fn window_average(starts: Seq<int>) -> int
    recommends
        starts.len() > 0,
{
    div_trunc(sum_starts(starts), starts.len() as int)
}

/// What the estimator reports: the window mean, or the caller's current
/// wall-clock reading while the window is empty.
pub open spec fn average_start_spec(s: StateModel, now: int) -> int {
    if s.starts.len() == 0 {
        now
    } else {
        window_average(s.starts)
    }
}

proof fn lemma_sum_push(s: Seq<int>, x: int)
    ensures
        sum_starts(s.push(x)) == sum_starts(s) + x,
{
    assert(s.push(x).drop_last() =~= s);
    assert(s.push(x).last() == x);
}

impl SessionState {
    /// The state the server boots with: no session, time zero, empty window.
    pub fn new() -> (s: SessionState)
        ensures
            s@ == init_state(),
            wf_state(s@),
    {
        let s = SessionState { id: 0, filename: Option::None, time: 0, start_times: Vec::new() };
        proof {
            assert(s@ =~= init_state());
        }
        s
    }

    /// Estimated wall-clock start of the current session: the mean of the
    /// start-time window, or `now_ms` itself while the window is empty.
    pub fn average_start(&self, now_ms: i64) -> (avg: i128)
        requires
            wf_state(self@),
        ensures
            avg == average_start_spec(self@, now_ms as int),
    {
        let n = self.start_times.len();
        if n == 0 {
            now_ms as i128
        } else {
            let mut acc: i128 = 0;
            let mut i: usize = 0;
            while i < n
                invariant
                    wf_state(self@),
                    n == self.start_times.len(),
                    0 < n <= WINDOW_CAP,
                    0 <= i <= n,
                    acc == sum_starts(self@.starts.subrange(0, i as int)),
                    -(i as int) * (START_ABS as int) <= acc <= (i as int) * (START_ABS as int),
                decreases n - i,
            {
                let v = self.start_times[i];
                proof {
                    assert(self@.starts[i as int] == v as int);
                    assert(self@.starts.subrange(0, i as int).push(self@.starts[i as int])
                        =~= self@.starts.subrange(0, i as int + 1));
                    lemma_sum_push(self@.starts.subrange(0, i as int), self@.starts[i as int]);
                    assert((i as int + 1) * (START_ABS as int) == (i as int) * (START_ABS as int)
                        + (START_ABS as int)) by (nonlinear_arith);
                }
                acc = acc + v;
                i = i + 1;
            }
            proof {
                assert(self@.starts.subrange(0, n as int) =~= self@.starts);
                assert((n as int) * (START_ABS as int) <= 20 * (START_ABS as int))
                    by (nonlinear_arith)
                    requires 0 < n <= 20;
            }
            div_trunc_i128(acc, n as i128)
        }
    }

    /// A read-only copy of what clients may see: identifier, filename and the
    /// estimated session start as of `now_ms`.
    pub fn snapshot(&self, now_ms: i64) -> (snap: Snapshot)
        requires
            wf_state(self@),
        ensures
            snap.id == self.id,
            snap.filename == self.filename,
            snap.start_time == average_start_spec(self@, now_ms as int),
    {
        let filename = match &self.filename {
            Option::Some(f) => Option::Some(f.clone()),
            Option::None => Option::None,
        };
        Snapshot { id: self.id, filename, start_time: self.average_start(now_ms) }
    }

    /// [`Self::snapshot`] as of the wall clock's current instant.  While the
    /// window is non-empty the estimate does not depend on the clock at all.
    pub fn snapshot_now(&self) -> (snap: Snapshot)
        requires
            wf_state(self@),
        ensures
            snap.id == self.id,
            snap.filename == self.filename,
            self@.starts.len() > 0 ==> snap.start_time == window_average(self@.starts),
    {
        let now_ms = crate::clock::current_time_ms();
        self.snapshot(now_ms)
    }
}

impl Default for SessionState {
    /// The state the server boots with, equal to [`SessionState::new`].
    fn default() -> (s: SessionState)
        ensures
            s@ == init_state(),
            wf_state(s@),
    {
        SessionState::new()
    }
}

/// One coherent read of the session state, as handed to clients.
pub struct Snapshot {
    pub id: i32,
    pub filename: Option<String>,
    /// Estimated wall-clock session start, milliseconds since the epoch.
    pub start_time: i128,
}

} // verus!
