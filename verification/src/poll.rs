//! The read loop: what a read makes of the events that arrive, one after
//! another, until one of them decides it.

use crate::conn::{
    fetch, read_step, Connection, ConnectionView, Fetch, FetchView, Inbound, InboundView,
};
use crate::event::{views, Event, EventView};
use vstd::prelude::*;

verus! {

/// Whether an event's meaning ends a read: a message, a timeout or a
/// failure does; no data and protocol noise make the read poll again.
pub open spec fn decisive(inbound: InboundView) -> bool {
    !(inbound is Retry) && !(inbound is Ignored)
}

/// What has come of a read.
pub struct Reading {
    /// The state of the connection at the end.
    pub state: ConnectionView,
    /// What the read returns, if an event has decided it.
    pub outcome: Option<InboundView>,
    /// The protocol noise dropped on the way, in order.
    pub dropped: Seq<EventView>,
}

/// A read in state `s`, with `live` the events that the transport is going
/// to deliver, in order. Each round fetches an event, from the lookahead
/// slot if one waits there and else from the transport. The first event
/// that is data, a timeout or an error ends the read; events before it are
/// passed over, and events after it are not touched.
pub open spec fn poll(s: ConnectionView, live: Seq<EventView>) -> Reading
    decreases live.len(), (if s.next_event is Some { 1nat } else { 0nat }),
{
    if s.next_event is None && live.len() == 0 {
        Reading { state: s, outcome: None, dropped: Seq::empty() }
    } else {
        let event = match s.next_event {
            Some(event) => event,
            None => live[0],
        };
        let rest = if s.next_event is Some {
            live
        } else {
            live.skip(1)
        };
        let inbound = read_step(event);
        if decisive(inbound) {
            Reading { state: fetch(s).0, outcome: Some(inbound), dropped: Seq::empty() }
        } else {
            let later = poll(fetch(s).0, rest);
            if inbound is Ignored {
                Reading { dropped: seq![event] + later.dropped, ..later }
            } else {
                later
            }
        }
    }
}

/// The value of what a read returns.
pub open spec fn outcome_view(outcome: Option<Inbound>) -> Option<InboundView> {
    match outcome {
        Some(inbound) => Some(inbound@),
        None => None,
    }
}

impl Connection {
    /// Reads from a recorded transport, as a driver does from a live one:
    /// `events` is what the transport delivers, in order. Returns what the
    /// read comes to (a message, no message or a failure), or `None` if the
    /// events ran out first, together with the protocol noise that was
    /// dropped on the way.
    pub fn read_from(&mut self, events: Vec<Event>) -> (reading: (Option<Inbound>, Vec<Event>))
        ensures
            final(self)@ == poll(old(self)@, views(events@)).state,
            outcome_view(reading.0) == poll(old(self)@, views(events@)).outcome,
            views(reading.1@) == poll(old(self)@, views(events@)).dropped,
    {
        let mut dropped: Vec<Event> = Vec::new();
        let mut rest = events;
        let ghost whole = poll(self@, views(events@));
        loop
            invariant
                whole == poll(old(self)@, views(events@)),
                poll(self@, views(rest@)).state == whole.state,
                poll(self@, views(rest@)).outcome == whole.outcome,
                views(dropped@) + poll(self@, views(rest@)).dropped == whole.dropped,
            decreases rest@.len(), (if self@.next_event is Some { 1nat } else { 0nat }),
        {
            let ghost before = views(rest@);
            let event = match self.get_event() {
                Fetch::Buffered(event) => event,
                Fetch::Live(_) => {
                    if rest.len() == 0 {
                        return (None, dropped);
                    }
                    let event = rest.remove(0);
                    assert(views(rest@) =~= before.skip(1));
                    event
                },
            };
            match self.read(event) {
                Inbound::Retry => {},
                Inbound::Ignored(noise) => {
                    dropped.push(noise);
                },
                inbound => {
                    return (Some(inbound), dropped);
                },
            }
        }
    }
}

/// A read returns the meaning of the first event that decides it, whatever
/// no-data events and protocol noise come before: with an empty lookahead
/// slot, if the event at `at` is the first that is data, a timeout or an
/// error, then the read returns what that event means. In particular
/// well-formed data gives its text, malformed data a failure, and a timeout
/// no message.
pub proof fn read_returns_first_decisive_event(s: ConnectionView, live: Seq<EventView>, at: int)
    requires
        s.next_event is None,
        0 <= at < live.len(),
        decisive(read_step(live[at])),
        forall|i: int| 0 <= i < at ==> !decisive(read_step(#[trigger] live[i])),
    ensures
        poll(s, live).outcome == Some(read_step(live[at])),
        poll(s, live).state == s,
    decreases live.len(),
{
    if at > 0 {
        let rest = live.skip(1);
        read_returns_first_decisive_event(s, rest, at - 1);
    }
}

/// With a timeout set, a read during which no data arrives in time returns
/// "no message": it neither fails nor waits for ever. Each of its live reads
/// is bounded by the timeout, and when the first event that is neither
/// no-data nor noise is the timeout, the read returns no message and leaves
/// the connection as it was.
pub proof fn timed_out_read_is_no_message(s: ConnectionView, live: Seq<EventView>, at: int)
    requires
        s.timeout is Some,
        s.next_event is None,
        0 <= at < live.len(),
        live[at] == EventView::TimedOut,
        forall|i: int| 0 <= i < at ==> !decisive(read_step(#[trigger] live[i])),
    ensures
        fetch(s).1 == FetchView::Live(s.timeout),
        poll(s, live).outcome == Some(InboundView::Nothing),
        poll(s, live).state == s,
{
    read_returns_first_decisive_event(s, live, at);
}

/// A read takes the event in the lookahead slot before anything that the
/// transport delivers.
pub proof fn read_takes_buffered_event_first(
    s: ConnectionView,
    event: EventView,
    live: Seq<EventView>,
)
    requires
        s.next_event == Some(event),
    ensures
        poll(s, live) == poll(ConnectionView { next_event: None, ..s }, seq![event] + live),
{
    assert((seq![event] + live).skip(1) =~= live);
}

} // verus!
