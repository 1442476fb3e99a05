//! The poll-based observer.
//!
//! The observer keeps a watermark, the highest creation time it has processed.
//! A round asks the store for the records strictly newer than the watermark,
//! in ascending order of creation time, delivers them as insert events where
//! the interest filter admits inserts, and raises the watermark whether or not
//! anything was delivered. The observer itself performs no I/O: each method
//! takes what happened, moves the state, and names the next action.

use vstd::prelude::*;
use crate::event::{inserts_of, lemma_inserts_of_push, ChangeEvent};
use crate::filter::{admits, should_emit, ChangeEventType, OperationKind};
use crate::record::Record;
use crate::session::{ErrorKind, SessionEnd};

verus! {

/// Where a poll session stands.
#[derive(Clone, Copy, Debug, PartialEq, Eq, Structural)]
pub enum PollPhase {
    /// The watermark has not been set yet.
    Initializing,
    /// A range query is due or in flight.
    Polling,
    /// The observer sleeps between two rounds.
    Waiting,
    /// The session is over.
    Terminated(SessionEnd),
}

/// What the caller has to do next on the observer's behalf.
#[derive(Clone, Copy, Debug, PartialEq, Eq, Structural)]
pub enum PollAction {
    /// Read the wall clock and report it with `start`.
    ReadClock,
    /// Query the records whose creation time is strictly greater than
    /// `after`, in ascending order of creation time, and report the reply
    /// with `on_batch` or `on_query_failed`.
    Query { after: i64 },
    /// Sleep for `millis` milliseconds and report with `on_wake`.
    Sleep { millis: u64 },
    /// Stop: the session has ended as given.
    Stop(SessionEnd),
}

/// The default pause between two rounds, in milliseconds.
pub const DEFAULT_POLL_INTERVAL_MS: u64 = 5000;

/// The mathematical state of a poll session.
pub struct PollState {
    pub phase: PollPhase,
    /// The exclusive lower bound of the next range query.
    pub watermark: i64,
    pub interval_ms: u64,
    pub filter: ChangeEventType,
}

/// The records of `batch` that a range query above `bound` selects, in the
/// order in which `batch` holds them.
pub open spec fn select_new(batch: Seq<Record>, bound: i64) -> Seq<Record> {
    batch.filter(|r: Record| r.newer_than(bound as int))
}

/// The watermark after one record: the record's creation time where that is
/// newer, else the watermark as it was.
pub open spec fn raised_by(watermark: i64, record: Record) -> i64 {
    match record.created_at {
        Some(t) => if t > watermark { t } else { watermark },
        None => watermark,
    }
}

/// The greatest of `watermark` and the creation times found in `batch`.
pub open spec fn high_water(batch: Seq<Record>, watermark: i64) -> i64
    decreases batch.len(),
{
    if batch.len() == 0 {
        watermark
    } else {
        raised_by(high_water(batch.drop_last(), watermark), batch.last())
    }
}

/// The state after the clock was read as `now_millis`.
pub open spec fn after_start(s: PollState, now_millis: i64) -> PollState {
    if s.phase is Initializing {
        PollState { phase: PollPhase::Polling, watermark: now_millis, ..s }
    } else {
        s
    }
}

/// The state after the store answered a range query with `batch`.
pub open spec fn after_batch(s: PollState, batch: Seq<Record>) -> PollState {
    if s.phase is Polling {
        PollState { phase: PollPhase::Waiting, watermark: high_water(batch, s.watermark), ..s }
    } else {
        s
    }
}

/// The events delivered when the store answers a range query with `batch`.
pub open spec fn batch_emits(s: PollState, batch: Seq<Record>) -> Seq<ChangeEvent> {
    if s.phase is Polling && admits(s.filter, OperationKind::Insert) {
        inserts_of(select_new(batch, s.watermark))
    } else {
        Seq::empty()
    }
}

/// The state after the pause between two rounds has passed.
pub open spec fn after_wake(s: PollState) -> PollState {
    if s.phase is Waiting {
        PollState { phase: PollPhase::Polling, ..s }
    } else {
        s
    }
}

/// The state after a range query failed.
pub open spec fn after_query_failure(s: PollState) -> PollState {
    if s.phase is Polling {
        PollState { phase: PollPhase::Terminated(SessionEnd::Failed(ErrorKind::Query)), ..s }
    } else {
        s
    }
}

/// The state after the host asked the session to stop.
pub open spec fn after_cancel(s: PollState) -> PollState {
    if s.phase is Terminated {
        s
    } else {
        PollState { phase: PollPhase::Terminated(SessionEnd::Cancelled), ..s }
    }
}

/// The action a session in state `s` waits for.
pub open spec fn pending_action(s: PollState) -> PollAction {
    match s.phase {
        PollPhase::Initializing => PollAction::ReadClock,
        PollPhase::Polling => PollAction::Query { after: s.watermark },
        PollPhase::Waiting => PollAction::Sleep { millis: s.interval_ms },
        PollPhase::Terminated(end) => PollAction::Stop(end),
    }
}

/// The outcome of one answered range query.
#[derive(Debug, PartialEq, Eq)]
pub struct PollStep {
    /// The events to deliver, oldest first.
    pub emitted: Vec<ChangeEvent>,
    /// What to do once they are delivered.
    pub action: PollAction,
}

/// A poll session. The watermark belongs to the session alone and moves only
/// through the methods below.
#[derive(Debug)]
pub struct PollObserver {
    phase: PollPhase,
    watermark: i64,
    interval_ms: u64,
    filter: ChangeEventType,
}

impl View for PollObserver {
    type V = PollState;

    closed spec fn view(&self) -> PollState {
        PollState {
            phase: self.phase,
            watermark: self.watermark,
            interval_ms: self.interval_ms,
            filter: self.filter,
        }
    }
}

impl PollObserver {
    /// A session that has not started: it waits for the clock to be read.
    pub fn new(interval_ms: u64, filter: ChangeEventType) -> (observer: PollObserver)
        ensures
            observer@.phase is Initializing,
            observer@.watermark == 0,
            observer@.interval_ms == interval_ms,
            observer@.filter == filter,
    {
        PollObserver { phase: PollPhase::Initializing, watermark: 0, interval_ms, filter }
    }

    /// The phase the session is in.
    pub fn phase(&self) -> (phase: PollPhase)
        ensures
            phase == self@.phase,
    {
        self.phase
    }

    /// The highest creation time processed so far.
    pub fn watermark(&self) -> (watermark: i64)
        ensures
            watermark == self@.watermark,
    {
        self.watermark
    }

    /// The pause between two rounds, in milliseconds.
    pub fn interval_ms(&self) -> (millis: u64)
        ensures
            millis == self@.interval_ms,
    {
        self.interval_ms
    }

    /// The interest filter of the session.
    pub fn filter(&self) -> (filter: ChangeEventType)
        ensures
            filter == self@.filter,
    {
        self.filter
    }

    /// The action the session waits for.
    pub fn pending(&self) -> (action: PollAction)
        ensures
            action == pending_action(self@),
    {
        match self.phase {
            PollPhase::Initializing => PollAction::ReadClock,
            PollPhase::Polling => PollAction::Query { after: self.watermark },
            PollPhase::Waiting => PollAction::Sleep { millis: self.interval_ms },
            PollPhase::Terminated(end) => PollAction::Stop(end),
        }
    }

    /// Sets the watermark to the wall-clock time `now_millis` and opens the
    /// first round. Outside the initial phase the call changes nothing.
    pub fn start(&mut self, now_millis: i64) -> (action: PollAction)
        ensures
            final(self)@ == after_start(old(self)@, now_millis),
            action == pending_action(final(self)@),
    {
        if let PollPhase::Initializing = self.phase {
            self.watermark = now_millis;
            self.phase = PollPhase::Polling;
        }
        self.pending()
    }

    /// Processes the store's answer to the range query of this round.
    ///
    /// The records strictly newer than the watermark are delivered as insert
    /// events, in the order of `batch`, where the filter admits inserts. The
    /// watermark rises to the greatest creation time in `batch` whether or
    /// not anything is delivered, and the session goes to sleep. Outside the
    /// polling phase the call delivers nothing and changes nothing.
    pub fn on_batch(&mut self, batch: Vec<Record>) -> (step: PollStep)
        ensures
            final(self)@ == after_batch(old(self)@, batch@),
            step.emitted@ == batch_emits(old(self)@, batch@),
            step.action == pending_action(final(self)@),
    {
        let mut emitted: Vec<ChangeEvent> = Vec::new();
        if let PollPhase::Polling = self.phase {
            let bound = self.watermark;
            let deliver = should_emit(OperationKind::Insert, self.filter);
            let mut high = bound;
            let ghost all = batch@;
            proof {
                assert(all.take(0) =~= Seq::<Record>::empty());
                assert(inserts_of(Seq::<Record>::empty()) =~= Seq::<ChangeEvent>::empty());
            }
            for record in it: batch
                invariant
                    it.seq() == all,
                    high == high_water(all.take(it.index()), bound),
                    deliver ==> emitted@ == inserts_of(select_new(all.take(it.index()), bound)),
                    !deliver ==> emitted@ == Seq::<ChangeEvent>::empty(),
            {
                proof {
                    let taken = all.take(it.index());
                    assert(all.take(it.index() + 1) =~= taken.push(record));
                    lemma_push(taken, record, bound);
                }
                let newer = record.is_newer_than(bound);
                if let Some(t) = record.created_at {
                    if t > high {
                        high = t;
                    }
                }
                if newer && deliver {
                    proof {
                        lemma_inserts_of_push(select_new(all.take(it.index()), bound), record);
                    }
                    emitted.push(ChangeEvent::Insert { full_record: record });
                }
            }
            proof {
                assert(all.take(all.len() as int) =~= all);
            }
            self.watermark = high;
            self.phase = PollPhase::Waiting;
        }
        PollStep { emitted, action: self.pending() }
    }

    /// Ends the session after a failed range query. Outside the polling
    /// phase the call changes nothing.
    pub fn on_query_failed(&mut self) -> (action: PollAction)
        ensures
            final(self)@ == after_query_failure(old(self)@),
            action == pending_action(final(self)@),
    {
        if let PollPhase::Polling = self.phase {
            self.phase = PollPhase::Terminated(SessionEnd::Failed(ErrorKind::Query));
        }
        self.pending()
    }

    /// Opens the next round once the pause has passed. Outside the waiting
    /// phase the call changes nothing.
    pub fn on_wake(&mut self) -> (action: PollAction)
        ensures
            final(self)@ == after_wake(old(self)@),
            action == pending_action(final(self)@),
    {
        if let PollPhase::Waiting = self.phase {
            self.phase = PollPhase::Polling;
        }
        self.pending()
    }

    /// Stops the session at the host's request. The watermark stays as it is;
    /// a session that has already ended keeps its end.
    pub fn cancel(&mut self) -> (action: PollAction)
        ensures
            final(self)@ == after_cancel(old(self)@),
            action == pending_action(final(self)@),
    {
        match self.phase {
            PollPhase::Terminated(_) => {},
            _ => {
                self.phase = PollPhase::Terminated(SessionEnd::Cancelled);
            },
        }
        self.pending()
    }
}

/// Selecting and raising, one record further: the record is selected exactly
/// when it is newer than the bound, and the high-water mark is raised by it.
pub proof fn lemma_push(batch: Seq<Record>, record: Record, bound: i64)
    ensures
        select_new(batch.push(record), bound) == if record.newer_than(bound as int) {
            select_new(batch, bound).push(record)
        } else {
            select_new(batch, bound)
        },
        high_water(batch.push(record), bound) == raised_by(high_water(batch, bound), record),
{
    assert(batch.push(record).drop_last() =~= batch);
    reveal(Seq::filter);
}

} // verus!
