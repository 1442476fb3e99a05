//! The feed-based observer.
//!
//! The observer subscribes to the store's change feed, always from the
//! present, and then handles one native event at a time: it classifies the
//! event by its operation, drops it unless the interest filter admits that
//! operation, and delivers either the full new record of an insert or the
//! changed fields of an update. An error on a single event is the caller's to
//! report and changes nothing; a closed feed ends the session.

use vstd::prelude::*;
use crate::event::{insert_of, ChangeEvent, FieldChange, NativeEvent};
use crate::filter::{admits, should_emit, ChangeEventType, OperationKind};
use crate::session::{ErrorKind, SessionEnd};

verus! {

/// Where a feed session stands.
#[derive(Clone, Copy, Debug, PartialEq, Eq, Structural)]
pub enum FeedPhase {
    /// The subscription has not been opened yet.
    Subscribing,
    /// The subscription is open and events are awaited.
    Listening,
    /// The session is over.
    Terminated(SessionEnd),
}

/// What the caller has to do next on the observer's behalf.
#[derive(Clone, Copy, Debug, PartialEq, Eq, Structural)]
pub enum FeedAction {
    /// Open a subscription on the collection, without a resume token, and
    /// report with `on_subscribed` or `on_subscribe_failed`.
    Subscribe,
    /// Await the next item of the feed and report it with `on_event`,
    /// `on_event_error` or `on_closed`.
    AwaitEvent,
    /// Stop: the session has ended as given.
    Stop(SessionEnd),
}

/// The mathematical state of a feed session.
pub struct FeedState {
    pub phase: FeedPhase,
    pub filter: ChangeEventType,
}

/// What is delivered for `native` under `filter`, if anything.
///
/// An admitted insert delivers its full document where the store sent one;
/// an admitted update delivers the fields it changed where the store
/// described them; everything else delivers nothing.
pub open spec fn emission_of(filter: ChangeEventType, native: NativeEvent) -> Option<ChangeEvent> {
    if !admits(filter, native.operation) {
        None
    } else {
        match native.operation {
            OperationKind::Insert => match native.full_document {
                Some(record) => Some(insert_of(record)),
                None => None,
            },
            OperationKind::Update => match native.updated_fields {
                Some(fields) => Some(ChangeEvent::Update { changed_fields: fields }),
                None => None,
            },
            _ => None,
        }
    }
}

/// The state once the subscription is open.
pub open spec fn after_subscribed(s: FeedState) -> FeedState {
    if s.phase is Subscribing {
        FeedState { phase: FeedPhase::Listening, ..s }
    } else {
        s
    }
}

/// The state once opening the subscription has failed.
pub open spec fn after_subscribe_failure(s: FeedState) -> FeedState {
    if s.phase is Subscribing {
        FeedState {
            phase: FeedPhase::Terminated(SessionEnd::Failed(ErrorKind::SubscriptionClosed)),
            ..s
        }
    } else {
        s
    }
}

/// The events delivered when the feed yields `native`.
pub open spec fn event_emits(s: FeedState, native: NativeEvent) -> Option<ChangeEvent> {
    if s.phase is Listening {
        emission_of(s.filter, native)
    } else {
        None
    }
}

/// The state once the feed has closed.
pub open spec fn after_closed(s: FeedState) -> FeedState {
    if s.phase is Listening {
        FeedState {
            phase: FeedPhase::Terminated(SessionEnd::Failed(ErrorKind::SubscriptionClosed)),
            ..s
        }
    } else {
        s
    }
}

/// The state after the host asked the session to stop.
pub open spec fn after_feed_cancel(s: FeedState) -> FeedState {
    if s.phase is Terminated {
        s
    } else {
        FeedState { phase: FeedPhase::Terminated(SessionEnd::Cancelled), ..s }
    }
}

/// The action a session in state `s` waits for.
pub open spec fn pending_feed_action(s: FeedState) -> FeedAction {
    match s.phase {
        FeedPhase::Subscribing => FeedAction::Subscribe,
        FeedPhase::Listening => FeedAction::AwaitEvent,
        FeedPhase::Terminated(end) => FeedAction::Stop(end),
    }
}

/// Classifies `native`, applies `filter` and extracts what is delivered.
pub fn emit_for(filter: ChangeEventType, native: NativeEvent) -> (emission: Option<ChangeEvent>)
    ensures
        emission == emission_of(filter, native),
{
    if !should_emit(native.operation, filter) {
        return None;
    }
    match native.operation {
        OperationKind::Insert => match native.full_document {
            Some(record) => Some(ChangeEvent::Insert { full_record: record }),
            None => None,
        },
        OperationKind::Update => match native.updated_fields {
            Some(fields) => Some(ChangeEvent::Update { changed_fields: fields }),
            None => None,
        },
        _ => None,
    }
}

/// The outcome of one native event.
#[derive(Debug, PartialEq, Eq)]
pub struct FeedStep {
    /// The event to deliver, if any.
    pub emission: Option<ChangeEvent>,
    /// What to do once it is delivered.
    pub action: FeedAction,
}

/// A feed session.
#[derive(Debug)]
pub struct FeedObserver {
    phase: FeedPhase,
    filter: ChangeEventType,
}

impl View for FeedObserver {
    type V = FeedState;

    closed spec fn view(&self) -> FeedState {
        FeedState { phase: self.phase, filter: self.filter }
    }
}

impl FeedObserver {
    /// A session that has not subscribed yet.
    pub fn new(filter: ChangeEventType) -> (observer: FeedObserver)
        ensures
            observer@ == (FeedState { phase: FeedPhase::Subscribing, filter }),
    {
        FeedObserver { phase: FeedPhase::Subscribing, filter }
    }

    /// The phase the session is in.
    pub fn phase(&self) -> (phase: FeedPhase)
        ensures
            phase == self@.phase,
    {
        self.phase
    }

    /// The interest filter of the session.
    pub fn filter(&self) -> (filter: ChangeEventType)
        ensures
            filter == self@.filter,
    {
        self.filter
    }

    /// The action the session waits for.
    pub fn pending(&self) -> (action: FeedAction)
        ensures
            action == pending_feed_action(self@),
    {
        match self.phase {
            FeedPhase::Subscribing => FeedAction::Subscribe,
            FeedPhase::Listening => FeedAction::AwaitEvent,
            FeedPhase::Terminated(end) => FeedAction::Stop(end),
        }
    }

    /// Starts listening once the subscription is open. Outside the
    /// subscribing phase the call changes nothing.
    pub fn on_subscribed(&mut self) -> (action: FeedAction)
        ensures
            final(self)@ == after_subscribed(old(self)@),
            action == pending_feed_action(final(self)@),
    {
        if let FeedPhase::Subscribing = self.phase {
            self.phase = FeedPhase::Listening;
        }
        self.pending()
    }

    /// Ends the session when the subscription cannot be opened. Outside the
    /// subscribing phase the call changes nothing.
    pub fn on_subscribe_failed(&mut self) -> (action: FeedAction)
        ensures
            final(self)@ == after_subscribe_failure(old(self)@),
            action == pending_feed_action(final(self)@),
    {
        if let FeedPhase::Subscribing = self.phase {
            self.phase = FeedPhase::Terminated(SessionEnd::Failed(ErrorKind::SubscriptionClosed));
        }
        self.pending()
    }

    /// Handles one native event: classify, filter, then deliver or drop. The
    /// session keeps listening either way. Outside the listening phase the
    /// event is dropped.
    pub fn on_event(&mut self, native: NativeEvent) -> (step: FeedStep)
        ensures
            final(self)@ == old(self)@,
            step.emission == event_emits(old(self)@, native),
            step.action == pending_feed_action(final(self)@),
    {
        let emission = match self.phase {
            FeedPhase::Listening => emit_for(self.filter, native),
            _ => None,
        };
        FeedStep { emission, action: self.pending() }
    }

    /// Takes note of an error on a single event. Such an error is not fatal:
    /// the caller reports it and the session goes on as it was.
    pub fn on_event_error(&mut self) -> (action: FeedAction)
        ensures
            final(self)@ == old(self)@,
            action == pending_feed_action(final(self)@),
    {
        self.pending()
    }

    /// Ends the session when the feed has closed. Outside the listening
    /// phase the call changes nothing.
    pub fn on_closed(&mut self) -> (action: FeedAction)
        ensures
            final(self)@ == after_closed(old(self)@),
            action == pending_feed_action(final(self)@),
    {
        if let FeedPhase::Listening = self.phase {
            self.phase = FeedPhase::Terminated(SessionEnd::Failed(ErrorKind::SubscriptionClosed));
        }
        self.pending()
    }

    /// Stops the session at the host's request; a session that has already
    /// ended keeps its end.
    pub fn cancel(&mut self) -> (action: FeedAction)
        ensures
            final(self)@ == after_feed_cancel(old(self)@),
            action == pending_feed_action(final(self)@),
    {
        match self.phase {
            FeedPhase::Terminated(_) => {},
            _ => {
                self.phase = FeedPhase::Terminated(SessionEnd::Cancelled);
            },
        }
        self.pending()
    }
}

/// An admitted update delivers exactly the fields the store reported as
/// changed, whatever else the event carries.
pub proof fn law_update_delivers_changed_fields(
    filter: ChangeEventType,
    native: NativeEvent,
    fields: Vec<FieldChange>,
)
    requires
        native.operation is Update,
        native.updated_fields == Some(fields),
        filter is Update || filter is All,
    ensures
        emission_of(filter, native) == Some(ChangeEvent::Update { changed_fields: fields }),
{
}

/// An insert that comes without its full document delivers nothing and
/// leaves a listening session listening.
pub proof fn law_insert_without_document(s: FeedState, native: NativeEvent)
    requires
        native.operation is Insert,
        native.full_document is None,
    ensures
        emission_of(s.filter, native) is None,
        event_emits(s, native) is None,
        s.phase is Listening ==> pending_feed_action(s) == FeedAction::AwaitEvent,
{
}

/// Nothing is delivered that the filter does not admit, and what is
/// delivered has the kind of the operation that caused it.
pub proof fn law_emission_respects_filter(filter: ChangeEventType, native: NativeEvent)
    ensures
        emission_of(filter, native) is Some ==> admits(filter, native.operation),
        emission_of(filter, native) matches Some(ChangeEvent::Insert { full_record })
            ==> native.operation is Insert && native.full_document == Some(full_record),
        emission_of(filter, native) matches Some(ChangeEvent::Update { changed_fields })
            ==> native.operation is Update && native.updated_fields == Some(changed_fields),
        !(native.operation is Insert || native.operation is Update) ==> emission_of(
            filter,
            native,
        ) is None,
{
}

/// A session never leaves its end: once terminated, no report changes it.
pub proof fn law_feed_end_is_final(s: FeedState)
    requires
        s.phase is Terminated,
    ensures
        after_subscribed(s) == s,
        after_subscribe_failure(s) == s,
        after_closed(s) == s,
        after_feed_cancel(s) == s,
        forall|native: NativeEvent| event_emits(s, native) is None,
{
}

} // verus!
