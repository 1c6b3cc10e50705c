//! Whole exchanges: what a negotiator makes of the events that a client
//! sends, from the opening request to the settling reply, and the laws that
//! hold of every exchange.

use crate::conn::{
    ansi_step, cbreak_step, fetch, fresh, is_ttype_answer, noecho_step, offered_name,
    winsize_step, Capabilities, Connection, ConnectionView, Fetch, FetchView, Step, StepView,
};
use crate::event::{
    command_views, views, Action, Command, CommandView, Event, EventView, TelnetOption,
};
use vstd::prelude::*;
use vstd::set_lib::lemma_len_subset;

verus! {

/// The exchanges that a connection can run.
#[derive(Debug, Clone, Copy, PartialEq, Eq, Structural)]
pub enum Exchange {
    /// Character-at-a-time input.
    Cbreak,
    /// No local echo.
    NoEcho,
    /// Terminal type, to find out about ANSI escapes.
    Ansi,
    /// Window size.
    Winsize,
}

/// The request that opens an exchange.
pub open spec fn opening(x: Exchange) -> CommandView {
    match x {
        Exchange::Cbreak => CommandView::Negotiate(Action::Will, TelnetOption::SuppressGoAhead),
        Exchange::NoEcho => CommandView::Negotiate(Action::Will, TelnetOption::Echo),
        Exchange::Ansi => CommandView::Negotiate(Action::Do, TelnetOption::TTYPE),
        Exchange::Winsize => CommandView::Negotiate(Action::Do, TelnetOption::NAWS),
    }
}

/// The state in which an exchange starts: the terminal-type exchange starts
/// with no name seen.
pub open spec fn opened(x: Exchange, s: ConnectionView) -> ConnectionView {
    match x {
        Exchange::Ansi => ConnectionView { seen: Set::empty(), ..s },
        _ => s,
    }
}

/// The outcome of one round of an exchange.
pub open spec fn exchange_step(x: Exchange, s: ConnectionView, event: EventView) -> (
    ConnectionView,
    StepView,
) {
    match x {
        Exchange::Cbreak => (cbreak_step(s, event).0, StepView::Done(cbreak_step(s, event).1)),
        Exchange::NoEcho => (noecho_step(s, event).0, StepView::Done(noecho_step(s, event).1)),
        Exchange::Ansi => ansi_step(s, event),
        Exchange::Winsize => winsize_step(s, event),
    }
}

/// What has come of an exchange.
pub struct Trace {
    /// The state of the connection at the end.
    pub state: ConnectionView,
    /// The result, if the exchange was settled.
    pub result: Option<bool>,
    /// The number of rounds made: each event taken counts.
    pub rounds: nat,
    /// The commands sent after the opening request.
    pub sent: Seq<CommandView>,
}

/// An exchange under way in state `s`, with `live` the events that the client
/// is going to send, in order. Each round fetches an event, from the
/// lookahead slot if one waits there and else from the client, and hands it
/// to the negotiator, until a round settles the exchange or there is no
/// event left. Events after the settling one are not touched.
pub open spec fn run(x: Exchange, s: ConnectionView, live: Seq<EventView>) -> Trace
    decreases live.len(), (if s.next_event is Some { 1nat } else { 0nat }),
{
    if s.next_event is None && live.len() == 0 {
        Trace { state: s, result: None, rounds: 0, sent: Seq::empty() }
    } else {
        let event = match s.next_event {
            Some(event) => event,
            None => live[0],
        };
        let rest = if s.next_event is Some {
            live
        } else {
            live.skip(1)
        };
        let (next, step) = exchange_step(x, fetch(s).0, event);
        match step {
            StepView::Done(established) => Trace {
                state: next,
                result: Some(established),
                rounds: 1,
                sent: Seq::empty(),
            },
            StepView::Continue(command) => {
                let later = run(x, next, rest);
                Trace { rounds: later.rounds + 1, sent: seq![command] + later.sent, ..later }
            },
        }
    }
}

/// The terminal names that a sequence of terminal-type answers offers.
pub open spec fn offered_names(events: Seq<EventView>) -> Set<Seq<char>> {
    events.map_values(|event: EventView| offered_name(event)).to_set()
}

impl Connection {
    /// Starts an exchange and returns the request to send.
    pub fn open(&mut self, exchange: Exchange) -> (request: Command)
        ensures
            final(self)@ == opened(exchange, old(self)@),
            request@ == opening(exchange),
    {
        match exchange {
            Exchange::Cbreak => self.offer_cbreak(),
            Exchange::NoEcho => self.offer_noecho(),
            Exchange::Ansi => self.request_ansi(),
            Exchange::Winsize => self.request_winsize(),
        }
    }

    /// Hands one event to the negotiator of the given exchange.
    pub fn step(&mut self, exchange: Exchange, event: Event) -> (step: Step)
        ensures
            (final(self)@, step@) == exchange_step(exchange, old(self)@, event@),
    {
        match exchange {
            Exchange::Cbreak => Step::Done(self.negotiate_cbreak(event)),
            Exchange::NoEcho => Step::Done(self.negotiate_noecho(event)),
            Exchange::Ansi => self.negotiate_ansi(event),
            Exchange::Winsize => self.negotiate_winsize(event),
        }
    }

    /// Runs a whole exchange against a recorded client, as a driver does
    /// against a live one: `events` is what the client sends, in order.
    /// Returns the result of the exchange, or `None` if the events ran out
    /// before it was settled, together with all commands sent, the opening
    /// request first.
    pub fn replay(&mut self, exchange: Exchange, events: Vec<Event>) -> (outcome: (
        Option<bool>,
        Vec<Command>,
    ))
        ensures
            final(self)@ == run(exchange, opened(exchange, old(self)@), views(events@)).state,
            outcome.0 == run(exchange, opened(exchange, old(self)@), views(events@)).result,
            command_views(outcome.1@) == seq![opening(exchange)] + run(
                exchange,
                opened(exchange, old(self)@),
                views(events@),
            ).sent,
    {
        let mut sent: Vec<Command> = Vec::new();
        sent.push(self.open(exchange));
        let ghost whole = run(exchange, self@, views(events@));
        let mut rest = events;
        loop
            invariant
                whole == run(exchange, opened(exchange, old(self)@), views(events@)),
                run(exchange, self@, views(rest@)).state == whole.state,
                run(exchange, self@, views(rest@)).result == whole.result,
                command_views(sent@) + run(exchange, self@, views(rest@)).sent == seq![
                    opening(exchange),
                ] + whole.sent,
            decreases rest@.len(), (if self@.next_event is Some { 1nat } else { 0nat }),
        {
            let ghost before = views(rest@);
            let event = match self.get_event() {
                Fetch::Buffered(event) => event,
                Fetch::Live(_) => {
                    if rest.len() == 0 {
                        return (None, sent);
                    }
                    let event = rest.remove(0);
                    assert(views(rest@) =~= before.skip(1));
                    event
                },
            };
            match self.step(exchange, event) {
                Step::Done(established) => {
                    return (Some(established), sent);
                },
                Step::Continue(command) => {
                    sent.push(command);
                },
            }
        }
    }
}

/// An event in the lookahead slot is delivered before any live event, and
/// only once: the fetch after it asks for a live read.
pub proof fn buffered_event_comes_first(s: ConnectionView, event: EventView)
    requires
        s.next_event == Some(event),
    ensures
        fetch(s).1 == FetchView::Buffered(event),
        fetch(s).0.next_event is None,
        fetch(fetch(s).0).1 == FetchView::Live(s.timeout),
{
}

/// With an empty lookahead slot a fetch asks for a live read, bounded by the
/// timeout if one is set, and changes nothing.
pub proof fn empty_slot_reads_live(s: ConnectionView)
    requires
        s.next_event is None,
    ensures
        fetch(s) == (s, FetchView::Live(s.timeout)),
{
}

/// An exchange takes the event in the lookahead slot before anything that
/// the client sends: it goes as if the slot were empty and the client had
/// sent that event first.
pub proof fn buffered_event_runs_first(
    x: Exchange,
    s: ConnectionView,
    event: EventView,
    live: Seq<EventView>,
)
    requires
        s.next_event == Some(event),
    ensures
        run(x, s, live) == run(x, ConnectionView { next_event: None, ..s }, seq![event] + live),
{
    assert((seq![event] + live).skip(1) =~= live);
}

/// Whether an exchange reacts to an event: the exchange's option is agreed
/// to or refused, or the event is the answer that the exchange waits for.
pub open spec fn related(x: Exchange, event: EventView) -> bool {
    match x {
        Exchange::Cbreak => event == EventView::Negotiation(
            Action::Do,
            TelnetOption::SuppressGoAhead,
        ) || event == EventView::Negotiation(Action::Dont, TelnetOption::SuppressGoAhead),
        Exchange::NoEcho => event == EventView::Negotiation(Action::Do, TelnetOption::Echo)
            || event == EventView::Negotiation(Action::Dont, TelnetOption::Echo),
        Exchange::Ansi => event == EventView::Negotiation(Action::Will, TelnetOption::TTYPE)
            || event == EventView::Negotiation(Action::Wont, TelnetOption::TTYPE)
            || is_ttype_answer(event),
        Exchange::Winsize => event == EventView::Negotiation(Action::Will, TelnetOption::NAWS)
            || event == EventView::Negotiation(Action::Wont, TelnetOption::NAWS)
            || crate::conn::is_naws_answer(event),
    }
}

/// An event that an exchange does not react to is not lost: it ends the
/// exchange without success and waits in the lookahead slot, where the next
/// fetch finds it; no capability changes. An event that the exchange reacts
/// to leaves the slot alone.
pub proof fn unwanted_event_is_kept(x: Exchange, s: ConnectionView, event: EventView)
    ensures
        !related(x, event) ==> {
            &&& exchange_step(x, s, event).1 == StepView::Done(false)
            &&& exchange_step(x, s, event).0.next_event == Some(event)
            &&& exchange_step(x, s, event).0.caps == s.caps
            &&& fetch(exchange_step(x, s, event).0).1 == FetchView::Buffered(event)
        },
        related(x, event) ==> exchange_step(x, s, event).0.next_event == s.next_event,
{
}

/// Two connections in the same state that meet the same client end in the
/// same state with the same result, after the same rounds and commands. In
/// particular every newly made connection treats a given client alike.
pub proof fn exchange_is_deterministic(
    x: Exchange,
    a: ConnectionView,
    b: ConnectionView,
    live: Seq<EventView>,
)
    requires
        a == b,
    ensures
        run(x, opened(x, a), live) == run(x, opened(x, b), live),
        a == fresh() ==> run(x, opened(x, a), live) == run(x, opened(x, fresh()), live),
{
}

/// A settled exchange that left the lookahead slot empty, met again by the
/// state that it ended in (with the names seen as they were): it is settled
/// in the same way and ends in the same state.
proof fn settled_by_reply_again(x: Exchange, s: ConnectionView, live: Seq<EventView>)
    requires
        s.next_event is None,
        run(x, s, live).result is Some,
        run(x, s, live).state.next_event is None,
    ensures
        run(x, ConnectionView { seen: s.seen, ..run(x, s, live).state }, live).state == run(
            x,
            s,
            live,
        ).state,
        run(x, ConnectionView { seen: s.seen, ..run(x, s, live).state }, live).result == run(
            x,
            s,
            live,
        ).result,
    decreases live.len(),
{
    let (next, step) = exchange_step(x, s, live[0]);
    if step is Continue {
        settled_by_reply_again(x, next, live.skip(1));
    }
}

/// A settled exchange that left an event in the lookahead slot: the event
/// is one that the exchange does not react to, the result is failure, and
/// the terminal-type exchange has dropped the names seen.
proof fn settled_by_unwanted_event(x: Exchange, s: ConnectionView, live: Seq<EventView>)
    requires
        s.next_event is None,
        run(x, s, live).result is Some,
        run(x, s, live).state.next_event is Some,
    ensures
        !related(x, run(x, s, live).state.next_event->Some_0),
        run(x, s, live).result == Some(false),
        x == Exchange::Ansi ==> run(x, s, live).state.seen == Set::<Seq<char>>::empty(),
    decreases live.len(),
{
    let (next, step) = exchange_step(x, s, live[0]);
    if step is Continue {
        settled_by_unwanted_event(x, next, live.skip(1));
    }
}

/// Running a settled exchange once more changes nothing. If an exchange
/// that starts with an empty lookahead slot is settled, then the same
/// exchange, run again from the state it ended in against the same client,
/// ends in that state again, with the same result.
pub proof fn settled_exchange_is_idempotent(x: Exchange, s: ConnectionView, live: Seq<EventView>)
    requires
        s.next_event is None,
        run(x, opened(x, s), live).result is Some,
    ensures
        run(x, opened(x, run(x, opened(x, s), live).state), live).state == run(
            x,
            opened(x, s),
            live,
        ).state,
        run(x, opened(x, run(x, opened(x, s), live).state), live).result == run(
            x,
            opened(x, s),
            live,
        ).result,
{
    let start = opened(x, s);
    settled_drops_names(x, start, live);
    if run(x, start, live).state.next_event is None {
        settled_by_reply_again(x, start, live);
    } else {
        settled_by_unwanted_event(x, start, live);
    }
}

/// A settled terminal-type exchange has dropped the names seen; the other
/// exchanges never touch them.
proof fn settled_drops_names(x: Exchange, s: ConnectionView, live: Seq<EventView>)
    requires
        s.next_event is None,
        run(x, s, live).result is Some,
    ensures
        x == Exchange::Ansi ==> run(x, s, live).state.seen == Set::<Seq<char>>::empty(),
        x != Exchange::Ansi ==> run(x, s, live).state.seen == s.seen,
    decreases live.len(),
{
    let (next, step) = exchange_step(x, s, live[0]);
    if step is Continue {
        settled_drops_names(x, next, live.skip(1));
    }
}

/// The terminal-type exchange on answers whose names all lie in a finite
/// set: each round that does not settle the exchange adds a name to those
/// seen, so the rounds still to come are bounded by the names not yet seen.
proof fn ansi_rounds_within(s: ConnectionView, live: Seq<EventView>, names: Set<Seq<char>>)
    requires
        names.finite(),
        s.seen.subset_of(names),
        s.next_event is None,
        forall|i: int|
            0 <= i < live.len() ==> is_ttype_answer(#[trigger] live[i]) && names.contains(
                offered_name(live[i]),
            ),
    ensures
        run(Exchange::Ansi, s, live).rounds + s.seen.len() <= names.len() + 1,
        live.len() + s.seen.len() > names.len() ==> run(Exchange::Ansi, s, live).result is Some,
    decreases live.len(),
{
    lemma_len_subset(s.seen, names);
    if live.len() > 0 {
        let (next, step) = exchange_step(Exchange::Ansi, s, live[0]);
        if step is Continue {
            ansi_rounds_within(next, live.skip(1), names);
        }
    }
}

/// The terminal-type exchange ends within one round more than the client
/// has distinct names to offer. When the client sends terminal-type answers
/// only, the number of rounds is at most the number of distinct names among
/// them plus one; and the exchange is settled as soon as the answers are
/// more than the distinct names among them, that is, as soon as one name has
/// come a second time.
pub proof fn ansi_exchange_terminates(s: ConnectionView, live: Seq<EventView>)
    requires
        s.next_event is None,
        forall|i: int| 0 <= i < live.len() ==> is_ttype_answer(#[trigger] live[i]),
    ensures
        offered_names(live).finite(),
        run(Exchange::Ansi, opened(Exchange::Ansi, s), live).rounds <= offered_names(live).len()
            + 1,
        live.len() > offered_names(live).len() ==> run(
            Exchange::Ansi,
            opened(Exchange::Ansi, s),
            live,
        ).result is Some,
{
    let names = offered_names(live);
    let offered = live.map_values(|event: EventView| offered_name(event));
    vstd::seq_lib::seq_to_set_is_finite(offered);
    assert forall|i: int| 0 <= i < live.len() implies is_ttype_answer(#[trigger] live[i])
        && names.contains(offered_name(live[i])) by {
        assert(offered[i] == offered_name(live[i]));
    }
    ansi_rounds_within(opened(Exchange::Ansi, s), live, names);
}

/// Whether each known window dimension is positive.
pub open spec fn dimensions_positive(s: ConnectionView) -> bool {
    &&& s.caps.width matches Some(width) ==> width > 0
    &&& s.caps.height matches Some(height) ==> height > 0
}

/// A window dimension is only ever replaced by a positive value: what holds
/// of a new connection holds after every round of every exchange.
pub proof fn dimensions_stay_positive(x: Exchange, s: ConnectionView, event: EventView)
    requires
        dimensions_positive(s),
    ensures
        dimensions_positive(fresh()),
        dimensions_positive(exchange_step(x, s, event).0),
{
}

/// Each negotiator changes no flag but its own, and none touches the
/// timeout.
pub proof fn negotiators_keep_to_their_flags(x: Exchange, s: ConnectionView, event: EventView)
    ensures
        exchange_step(x, s, event).0.timeout == s.timeout,
        x == Exchange::Cbreak ==> exchange_step(x, s, event).0.caps == (Capabilities {
            cbreak: exchange_step(x, s, event).0.caps.cbreak,
            ..s.caps
        }),
        x == Exchange::NoEcho ==> exchange_step(x, s, event).0.caps == (Capabilities {
            echo: exchange_step(x, s, event).0.caps.echo,
            ..s.caps
        }),
        x == Exchange::Ansi ==> exchange_step(x, s, event).0.caps == (Capabilities {
            ansi: exchange_step(x, s, event).0.caps.ansi,
            ..s.caps
        }),
        x == Exchange::Winsize ==> exchange_step(x, s, event).0.caps == (Capabilities {
            width: exchange_step(x, s, event).0.caps.width,
            height: exchange_step(x, s, event).0.caps.height,
            ..s.caps
        }),
{
}

} // verus!
