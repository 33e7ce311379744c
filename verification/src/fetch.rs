//! The fetch controller: at most one request in flight, its outcome handed
//! over through a single slot that is read by polling.
//!
//! The controller performs no I/O. `start` hands out a ticket with the
//! request; whoever performs the request reports back with `complete` or
//! `abort` under that ticket, from wherever the work ran; `poll` reads the
//! slot. A report under any ticket but the current one is dropped, so a
//! request that was superseded can never be observed.

use crate::request::Request;
use crate::response::{FetchOutcome, TransportError};
use vstd::prelude::*;

verus! {

/// The controller as a mathematical value.
pub struct ControllerView {
    /// How many requests were started so far; also the latest ticket.
    pub issued: nat,
    /// The ticket of the outstanding request.
    pub in_flight: Option<nat>,
    /// The slot: the outcome that arrived for the outstanding request and was
    /// not polled yet.
    pub arrived: Option<FetchOutcome>,
}

impl ControllerView {
    /// Only the latest ticket can be outstanding, and only an outstanding
    /// request can have an outcome waiting.
    pub open spec fn wf(self) -> bool {
        &&& self.in_flight matches Some(ticket) ==> ticket == self.issued && ticket >= 1
        &&& self.arrived is Some ==> self.in_flight is Some
    }

    /// A request is outstanding.
    pub open spec fn busy(self) -> bool {
        self.in_flight is Some
    }

    /// After a start: a fresh ticket is outstanding and the slot is empty,
    /// whatever was outstanding or waiting before.
    pub open spec fn started(self) -> ControllerView {
        ControllerView { issued: self.issued + 1, in_flight: Some(self.issued + 1), arrived: None }
    }

    /// A report under `ticket` is taken: the ticket is the outstanding one
    /// and nothing arrived for it yet.
    pub open spec fn accepts(self, ticket: nat) -> bool {
        self.in_flight == Some(ticket) && self.arrived is None
    }

    /// After a report of `outcome` under `ticket`.
    pub open spec fn completed(self, ticket: nat, outcome: FetchOutcome) -> ControllerView {
        if self.accepts(ticket) {
            ControllerView { arrived: Some(outcome), ..self }
        } else {
            self
        }
    }

    /// After a poll, with what the poll returned.
    pub open spec fn polled(self) -> (ControllerView, Option<FetchOutcome>) {
        match self.arrived {
            Some(outcome) => (
                ControllerView { issued: self.issued, in_flight: None, arrived: None },
                Some(outcome),
            ),
            None => (self, None),
        }
    }
}

/// What `start` hands to whoever performs the request.
pub struct Dispatch {
    /// The ticket under which the outcome is to be reported.
    pub ticket: u64,
    /// The request to perform.
    pub request: Request,
}

/// Owner of the at most one outstanding request.
pub struct FetchController {
    issued: u64,
    in_flight: Option<u64>,
    arrived: Option<FetchOutcome>,
}

impl View for FetchController {
    type V = ControllerView;

    closed spec fn view(&self) -> ControllerView {
        ControllerView {
            issued: self.issued as nat,
            in_flight: match self.in_flight {
                Some(ticket) => Some(ticket as nat),
                None => None,
            },
            arrived: self.arrived,
        }
    }
}

impl FetchController {
    /// The controller's view is well formed.
    #[verifier::type_invariant]
    pub open spec fn wf(self) -> bool {
        self@.wf()
    }

    /// A controller with nothing outstanding.
    pub fn new() -> (controller: FetchController)
        ensures
            controller@ == (ControllerView { issued: 0, in_flight: None, arrived: None }),
            controller@.wf(),
    {
        FetchController { issued: 0, in_flight: None, arrived: None }
    }

    /// Whether another request can be started: tickets are 64-bit numbers and
    /// each start uses one.
    pub fn can_start(&self) -> (possible: bool)
        ensures
            possible == (self@.issued < u64::MAX),
    {
        self.issued < u64::MAX
    }

    /// Makes `request` the outstanding one and returns it with its ticket.
    /// A request that was outstanding is abandoned: whatever arrived or will
    /// arrive for it is dropped.
    pub fn start(&mut self, request: Request) -> (dispatch: Dispatch)
        requires
            old(self)@.issued < u64::MAX,
        ensures
            final(self)@ == old(self)@.started(),
            final(self)@.wf(),
            dispatch.ticket == final(self)@.issued,
            dispatch.request == request,
    {
        let ticket: u64 = self.issued + 1;
        *self = FetchController { issued: ticket, in_flight: Some(ticket), arrived: None };
        Dispatch { ticket, request }
    }

    /// Reports that the request started under `ticket` ended in `outcome`.
    /// The report is kept if that request is the outstanding one and nothing
    /// arrived for it before; otherwise it is dropped.
    pub fn complete(&mut self, ticket: u64, outcome: FetchOutcome)
        ensures
            final(self)@ == old(self)@.completed(ticket as nat, outcome),
            final(self)@.wf(),
    {
        proof {
            use_type_invariant(&*self);
        }
        let accepted = match self.in_flight {
            Some(current) => current == ticket && self.arrived.is_none(),
            None => false,
        };
        if accepted {
            self.arrived = Some(outcome);
        }
    }

    /// Reports that the work for `ticket` ended without an outcome. It is
    /// kept as a transport failure, so that a poll never waits for ever.
    pub fn abort(&mut self, ticket: u64)
        ensures
            final(self)@ == old(self)@.completed(
                ticket as nat,
                Err::<crate::response::RawResponse, TransportError>(TransportError::Aborted),
            ),
            final(self)@.wf(),
    {
        self.complete(ticket, Err(TransportError::Aborted))
    }

    /// Takes the outcome of the outstanding request if it has arrived; the
    /// controller is then idle. Otherwise returns nothing and changes nothing.
    pub fn poll(&mut self) -> (outcome: Option<FetchOutcome>)
        ensures
            (final(self)@, outcome) == old(self)@.polled(),
            final(self)@.wf(),
    {
        proof {
            use_type_invariant(&*self);
        }
        if self.arrived.is_some() {
            let mut done = FetchController { issued: self.issued, in_flight: None, arrived: None };
            core::mem::swap(self, &mut done);
            done.arrived
        } else {
            None
        }
    }

    /// Whether a request is outstanding. While none is, no outcome is
    /// waiting either.
    pub fn is_busy(&self) -> (busy: bool)
        ensures
            busy == self@.busy(),
            self@.wf(),
    {
        proof {
            use_type_invariant(self);
        }
        self.in_flight.is_some()
    }
}

/// What can happen to a controller between two polls.
pub enum Event {
    /// A request is started.
    Start,
    /// An outcome is reported under a ticket.
    Complete(nat, FetchOutcome),
    /// The work for a ticket ended without an outcome.
    Abort(nat),
}

/// The state after one event.
pub open spec fn apply(state: ControllerView, event: Event) -> ControllerView {
    match event {
        Event::Start => state.started(),
        Event::Complete(ticket, outcome) => state.completed(ticket, outcome),
        Event::Abort(ticket) => state.completed(ticket, Err(TransportError::Aborted)),
    }
}

/// The state after a sequence of events, none of them a poll.
pub open spec fn run(state: ControllerView, events: Seq<Event>) -> ControllerView
    decreases events.len(),
{
    if events.len() == 0 {
        state
    } else {
        apply(run(state, events.drop_last()), events.last())
    }
}

/// How many of the events are starts.
pub open spec fn starts(events: Seq<Event>) -> nat
    decreases events.len(),
{
    if events.len() == 0 {
        0
    } else {
        starts(events.drop_last()) + if events.last() is Start {
            1nat
        } else {
            0nat
        }
    }
}

/// The event reports `outcome` under `ticket`.
pub open spec fn delivers(event: Event, ticket: nat, outcome: FetchOutcome) -> bool {
    match event {
        Event::Start => false,
        Event::Complete(t, o) => t == ticket && o == outcome,
        Event::Abort(t) => t == ticket && outcome == Err::<
            crate::response::RawResponse,
            TransportError,
        >(TransportError::Aborted),
    }
}

/// Running events keeps a controller well formed, and its count of issued
/// tickets grows by the number of starts.
pub proof fn lemma_run_counts_starts(state: ControllerView, events: Seq<Event>)
    requires
        state.wf(),
    ensures
        run(state, events).wf(),
        run(state, events).issued == state.issued + starts(events),
    decreases events.len(),
{
    if events.len() > 0 {
        lemma_run_counts_starts(state, events.drop_last());
    }
}

/// Last start wins. After any sequence of starts and reports with at least
/// one start in it and no poll, the outstanding ticket is that of the last
/// start, and a poll can only return an outcome that was reported under that
/// ticket after that start. What was reported for any earlier request, before
/// or after, is never observed.
pub proof fn lemma_last_start_wins(state: ControllerView, events: Seq<Event>)
    requires
        state.wf(),
        starts(events) > 0,
    ensures
        run(state, events).in_flight == Some(state.issued + starts(events)),
        run(state, events).polled().1 matches Some(outcome) ==> exists|j: int|
            0 <= j < events.len() && starts(events.take(j)) == starts(events) && delivers(
                #[trigger] events[j],
                state.issued + starts(events),
                outcome,
            ),
    decreases events.len(),
{
    let before = events.drop_last();
    let last = events.last();
    let ticket = state.issued + starts(events);
    let end = run(state, events);
    lemma_run_counts_starts(state, before);
    assert(events.take(events.len() - 1) =~= before);
    if !(last is Start) {
        lemma_last_start_wins(state, before);
        if end.arrived is Some {
            let outcome = end.arrived->0;
            if run(state, before).arrived is Some {
                let j = choose|j: int|
                    0 <= j < before.len() && starts(before.take(j)) == starts(before) && delivers(
                        #[trigger] before[j],
                        ticket,
                        outcome,
                    );
                assert(events.take(j) =~= before.take(j));
                assert(events[j] == before[j]);
            } else {
                assert(delivers(events[events.len() - 1], ticket, outcome));
            }
        }
    }
}

/// A poll that finds nothing changes nothing, and a second poll right after
/// any poll finds nothing.
pub proof fn lemma_poll_idempotent(state: ControllerView)
    ensures
        state.arrived is None ==> state.polled() == (state, None::<FetchOutcome>),
        state.polled().0.polled() == (state.polled().0, None::<FetchOutcome>),
{
}

/// Start, report, poll: the poll returns the reported outcome and leaves the
/// controller idle.
pub proof fn lemma_round_trip(state: ControllerView, outcome: FetchOutcome)
    ensures
        state.started().completed(state.issued + 1, outcome).polled().1 == Some(outcome),
        !state.started().completed(state.issued + 1, outcome).polled().0.busy(),
        state.started().busy(),
{
}

} // verus!
