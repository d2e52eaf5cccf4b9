//! The three kinds of client report and their mathematical image.

use vstd::prelude::*;

verus! {

/// One client report, consumed once and discarded.  All times are integer
/// milliseconds; `latencies` carries exactly three one-way latency samples.
pub enum Event {
    /// Periodic position report for the session `id`.
    Sync { id: i32, time: i64, latencies: [i64; 3] },
    /// A new session `id` started playing `filename`.
    MediaStart { id: i32, filename: String },
    /// The session `id` stopped.
    MediaStop { id: i32 },
}

/// The mathematical image of an [`Event`]: unbounded integers and character
/// sequences, used by every contract.
pub enum EventModel {
    Sync { id: int, time: int, latencies: Seq<int> },
    MediaStart { id: int, filename: Seq<char> },
    MediaStop { id: int },
}

impl View for Event {
    type V = EventModel;

    open spec fn view(&self) -> EventModel {
        match self {
            Event::Sync { id, time, latencies } => EventModel::Sync {
                id: *id as int,
                time: *time as int,
                latencies: latencies@.map_values(|x: i64| x as int),
            },
            Event::MediaStart { id, filename } => EventModel::MediaStart {
                id: *id as int,
                filename: filename@,
            },
            Event::MediaStop { id } => EventModel::MediaStop { id: *id as int },
        }
    }
}

} // verus!
