//! The state of one player connection: the negotiated capabilities, the
//! lookahead slot and the poll timeout.
//!
//! Nothing here performs I/O. A driver owns the transport; it sends the
//! [`Command`]s that the connection hands out and feeds the connection one
//! [`Event`] at a time, each obtained as [`Connection::get_event`] directs.

use crate::event::{Action, Command, CommandView, Event, EventView, TelnetOption};
use crate::text::{
    decode_lossy, decode_text, is_ansi_name, known_ansi, lossy_text, lowercase, to_lowercase,
};
use crate::wire::{be16, read_be_u16, IS, SEND};
use vstd::prelude::*;
use vstd::slice::slice_subrange;
use vstd::utf8::{decode_utf8, valid_utf8};

verus! {

/// What a connection has learned about the client's terminal.
#[derive(Debug, Clone, Copy, PartialEq, Eq)]
pub struct Capabilities {
    /// The client sends each character as it is typed.
    pub cbreak: bool,
    /// The client echoes typed characters itself.
    pub echo: bool,
    /// The terminal understands ANSI escapes.
    pub ansi: bool,
    /// Terminal width in characters, once known.
    pub width: Option<u16>,
    /// Terminal height in characters, once known.
    pub height: Option<u16>,
}

/// Connection state.
pub struct Connection {
    /// Lookahead slot: an event that a negotiator received and did not want.
    next_event: Option<Event>,
    /// How long a live read may wait, in milliseconds.
    timeout: Option<u64>,
    /// Terminal names offered so far in the running terminal-type exchange.
    seen: Vec<String>,
    /// Negotiated capabilities.
    caps: Capabilities,
}

/// The mathematical value of a [`Connection`].
pub struct ConnectionView {
    /// The event in the lookahead slot, if any.
    pub next_event: Option<EventView>,
    /// The poll timeout in milliseconds, if any.
    pub timeout: Option<u64>,
    /// The terminal names offered so far in the running terminal-type
    /// exchange.
    pub seen: Set<Seq<char>>,
    /// The negotiated capabilities.
    pub caps: Capabilities,
}

/// Where the next event comes from.
#[derive(Debug, Clone, PartialEq, Eq)]
pub enum Fetch {
    /// The event that was waiting in the lookahead slot.
    Buffered(Event),
    /// The slot was empty: read the transport, without a bound on the wait
    /// if `None`, else for at most that many milliseconds.
    Live(Option<u64>),
}

/// The mathematical value of a [`Fetch`].
pub enum FetchView {
    Buffered(EventView),
    Live(Option<u64>),
}

impl View for Fetch {
    type V = FetchView;

    open spec fn view(&self) -> FetchView {
        match self {
            Fetch::Buffered(event) => FetchView::Buffered(event@),
            Fetch::Live(timeout) => FetchView::Live(*timeout),
        }
    }
}

/// How an exchange that may take several rounds goes on.
#[derive(Debug, Clone, PartialEq, Eq)]
pub enum Step {
    /// Send the command, fetch the next event and hand it to the same
    /// negotiator.
    Continue(Command),
    /// The exchange is over; the flag tells whether the capability was
    /// established.
    Done(bool),
}

/// The mathematical value of a [`Step`].
pub enum StepView {
    Continue(CommandView),
    Done(bool),
}

impl View for Step {
    type V = StepView;

    open spec fn view(&self) -> StepView {
        match self {
            Step::Continue(command) => StepView::Continue(command@),
            Step::Done(established) => StepView::Done(*established),
        }
    }
}

/// The capabilities assumed before any negotiation: line-buffered input,
/// client-side echo, no ANSI, window size unknown.
pub open spec fn initial_capabilities() -> Capabilities {
    Capabilities { cbreak: false, echo: true, ansi: false, width: None, height: None }
}

/// The state of a connection on which nothing has happened yet.
pub open spec fn fresh() -> ConnectionView {
    ConnectionView {
        next_event: None,
        timeout: None,
        seen: Set::empty(),
        caps: initial_capabilities(),
    }
}

/// What fetching an event does to the state, and where the event comes from:
/// a buffered event is always delivered first, and delivering it empties the
/// slot.
pub open spec fn fetch(s: ConnectionView) -> (ConnectionView, FetchView) {
    match s.next_event {
        Some(event) => (ConnectionView { next_event: None, ..s }, FetchView::Buffered(event)),
        None => (s, FetchView::Live(s.timeout)),
    }
}

/// The state after an event that a negotiator has no use for was put back:
/// the event waits in the lookahead slot, where the next fetch finds it.
pub open spec fn put_back(s: ConnectionView, event: EventView) -> ConnectionView {
    ConnectionView { next_event: Some(event), ..s }
}

/// The outcome of the character-at-a-time exchange on one event.
pub open spec fn cbreak_step(s: ConnectionView, event: EventView) -> (ConnectionView, bool) {
    match event {
        EventView::Negotiation(Action::Do, TelnetOption::SuppressGoAhead) => (
            ConnectionView { caps: Capabilities { cbreak: true, ..s.caps }, ..s },
            true,
        ),
        EventView::Negotiation(Action::Dont, TelnetOption::SuppressGoAhead) => (
            ConnectionView { caps: Capabilities { cbreak: false, ..s.caps }, ..s },
            false,
        ),
        _ => (put_back(s, event), false),
    }
}

/// The outcome of the no-local-echo exchange on one event. The server offers
/// to echo, so the capability is established when the client's echo is off.
pub open spec fn noecho_step(s: ConnectionView, event: EventView) -> (ConnectionView, bool) {
    match event {
        EventView::Negotiation(Action::Do, TelnetOption::Echo) => (
            ConnectionView { caps: Capabilities { echo: false, ..s.caps }, ..s },
            true,
        ),
        EventView::Negotiation(Action::Dont, TelnetOption::Echo) => (
            ConnectionView { caps: Capabilities { echo: true, ..s.caps }, ..s },
            false,
        ),
        _ => (put_back(s, event), false),
    }
}

/// The query that asks the client for its next terminal name.
pub open spec fn ttype_query() -> CommandView {
    CommandView::Subnegotiate(TelnetOption::TTYPE, seq![SEND])
}

/// The query that asks the client for its window size.
pub open spec fn naws_query() -> CommandView {
    CommandView::Subnegotiate(TelnetOption::NAWS, Seq::empty())
}

/// Whether an event is a terminal-type answer: a terminal-type
/// subnegotiation whose payload starts with the `IS` command.
pub open spec fn is_ttype_answer(event: EventView) -> bool {
    event matches EventView::Subnegotiation(TelnetOption::TTYPE, payload) && payload.len() >= 1
        && payload[0] == IS
}

/// Whether an event is a window-size answer: a window-size subnegotiation
/// with exactly four payload bytes.
pub open spec fn is_naws_answer(event: EventView) -> bool {
    event matches EventView::Subnegotiation(TelnetOption::NAWS, payload) && payload.len() == 4
}

/// The terminal name that a terminal-type answer carries.
pub open spec fn offered_name(event: EventView) -> Seq<char> {
    match event {
        EventView::Subnegotiation(_, payload) => lossy_text(payload.skip(1)),
        _ => Seq::empty(),
    }
}

/// The state after the terminal-type exchange has ended with the given
/// finding: the set of offered names is dropped.
pub open spec fn ansi_settled(s: ConnectionView, ansi: bool) -> ConnectionView {
    ConnectionView { caps: Capabilities { ansi, ..s.caps }, seen: Set::empty(), ..s }
}

/// The outcome of the terminal-type exchange when the client offers `name`,
/// whose lower-case form is `lowered`. A known ANSI terminal settles the
/// matter; so does a name offered before, since the client has then cycled
/// through its list. A new name is remembered and the next one asked for.
pub open spec fn terminal_offered(s: ConnectionView, name: Seq<char>, lowered: Seq<char>) -> (
    ConnectionView,
    StepView,
) {
    if is_ansi_name(lowered) {
        (ansi_settled(s, true), StepView::Done(true))
    } else if s.seen.contains(name) {
        (ansi_settled(s, false), StepView::Done(false))
    } else {
        (ConnectionView { seen: s.seen.insert(name), ..s }, StepView::Continue(ttype_query()))
    }
}

/// The outcome of the terminal-type exchange on one event.
pub open spec fn ansi_step(s: ConnectionView, event: EventView) -> (ConnectionView, StepView) {
    if event == EventView::Negotiation(Action::Will, TelnetOption::TTYPE) {
        (s, StepView::Continue(ttype_query()))
    } else if event == EventView::Negotiation(Action::Wont, TelnetOption::TTYPE) {
        (ansi_settled(s, false), StepView::Done(false))
    } else if is_ttype_answer(event) {
        terminal_offered(s, offered_name(event), lowercase(offered_name(event)))
    } else {
        (ConnectionView { seen: Set::empty(), ..put_back(s, event) }, StepView::Done(false))
    }
}

/// A window dimension after a report of `value`: zero means that the client
/// does not know, and leaves what was there.
pub open spec fn dimension(value: u16, known: Option<u16>) -> Option<u16> {
    if value > 0 {
        Some(value)
    } else {
        known
    }
}

/// The outcome of the window-size exchange on one event.
pub open spec fn winsize_step(s: ConnectionView, event: EventView) -> (ConnectionView, StepView) {
    if event == EventView::Negotiation(Action::Will, TelnetOption::NAWS) {
        (s, StepView::Continue(naws_query()))
    } else if event == EventView::Negotiation(Action::Wont, TelnetOption::NAWS) {
        (
            ConnectionView { caps: Capabilities { width: None, height: None, ..s.caps }, ..s },
            StepView::Done(false),
        )
    } else if is_naws_answer(event) {
        let payload = event->Subnegotiation_1;
        let width = be16(payload[0], payload[1]);
        let height = be16(payload[2], payload[3]);
        (
            ConnectionView {
                caps: Capabilities {
                    width: dimension(width, s.caps.width),
                    height: dimension(height, s.caps.height),
                    ..s.caps
                },
                ..s
            },
            StepView::Done(width > 0 || height > 0),
        )
    } else {
        (put_back(s, event), StepView::Done(false))
    }
}

/// Why a read failed for good.
#[derive(Debug, Clone, PartialEq, Eq)]
pub enum ReadError {
    /// A data event did not hold well-formed UTF-8.
    InvalidText,
    /// The transport reported an error, with its message.
    Transport(String),
}

/// The mathematical value of a [`ReadError`].
pub enum ReadErrorView {
    InvalidText,
    Transport(Seq<char>),
}

impl View for ReadError {
    type V = ReadErrorView;

    open spec fn view(&self) -> ReadErrorView {
        match self {
            ReadError::InvalidText => ReadErrorView::InvalidText,
            ReadError::Transport(message) => ReadErrorView::Transport(message@),
        }
    }
}

/// What one event means to the read loop.
#[derive(Debug, Clone, PartialEq, Eq)]
pub enum Inbound {
    /// One inbound message.
    Message(String),
    /// The poll ran out of time: no message this time, and no error.
    Nothing,
    /// There was nothing to read: poll again at once.
    Retry,
    /// A negotiation or subnegotiation outside any exchange: to be logged
    /// and dropped, then poll again.
    Ignored(Event),
    /// The session cannot go on.
    Failed(ReadError),
}

/// The mathematical value of an [`Inbound`].
pub enum InboundView {
    Message(Seq<char>),
    Nothing,
    Retry,
    Ignored(EventView),
    Failed(ReadErrorView),
}

impl View for Inbound {
    type V = InboundView;

    open spec fn view(&self) -> InboundView {
        match self {
            Inbound::Message(text) => InboundView::Message(text@),
            Inbound::Nothing => InboundView::Nothing,
            Inbound::Retry => InboundView::Retry,
            Inbound::Ignored(event) => InboundView::Ignored(event@),
            Inbound::Failed(error) => InboundView::Failed(error@),
        }
    }
}

/// What one event means to the read loop.
pub open spec fn read_step(event: EventView) -> InboundView {
    match event {
        EventView::Data(bytes) => if valid_utf8(bytes) {
            InboundView::Message(decode_utf8(bytes))
        } else {
            InboundView::Failed(ReadErrorView::InvalidText)
        },
        EventView::TimedOut => InboundView::Nothing,
        EventView::NoData => InboundView::Retry,
        EventView::Error(message) => InboundView::Failed(ReadErrorView::Transport(message)),
        _ => InboundView::Ignored(event),
    }
}

/// How an event answers a request about an option.
enum Reply {
    Agreed,
    Refused,
    Other,
}

/// Reads an event as the reply to a request about `option`, to which the
/// client agrees with the verb `yes` and which it refuses with `no`.
fn reply_about(event: &Event, option: TelnetOption, yes: Action, no: Action) -> (reply: Reply)
    requires
        yes != no,
    ensures
        reply is Agreed <==> event@ == EventView::Negotiation(yes, option),
        reply is Refused <==> event@ == EventView::Negotiation(no, option),
{
    match event {
        Event::Negotiation(verb, o) => if *o == option && *verb == yes {
            Reply::Agreed
        } else if *o == option && *verb == no {
            Reply::Refused
        } else {
            Reply::Other
        },
        _ => Reply::Other,
    }
}

/// The payload of a subnegotiation for `option`, if the event is one.
fn payload_for(event: &Event, option: TelnetOption) -> (payload: Option<&Vec<u8>>)
    ensures
        match payload {
            Some(bytes) => event@ == EventView::Subnegotiation(option, bytes@),
            None => !(event@ matches EventView::Subnegotiation(o, _) && o == option),
        },
{
    match event {
        Event::Subnegotiation(o, bytes) => if *o == option {
            Some(bytes)
        } else {
            None
        },
        _ => None,
    }
}

impl View for Connection {
    type V = ConnectionView;

    closed spec fn view(&self) -> ConnectionView {
        ConnectionView {
            next_event: match self.next_event {
                Some(event) => Some(event@),
                None => None,
            },
            timeout: self.timeout,
            seen: self.seen@.map_values(|name: String| name@).to_set(),
            caps: self.caps,
        }
    }
}

impl Connection {
    /// Makes the state for a newly accepted connection.
    pub fn new() -> (conn: Connection)
        ensures
            conn@ == fresh(),
    {
        let conn = Connection {
            next_event: None,
            timeout: None,
            seen: Vec::new(),
            caps: Capabilities { cbreak: false, echo: true, ansi: false, width: None, height: None },
        };
        assert(conn.seen@.map_values(|name: String| name@).to_set() =~= Set::empty());
        conn
    }

    /// The negotiated capabilities.
    pub fn capabilities(&self) -> (caps: Capabilities)
        ensures
            caps == self@.caps,
    {
        self.caps
    }

    /// The poll timeout in milliseconds, if one is set.
    pub fn timeout(&self) -> (ms: Option<u64>)
        ensures
            ms == self@.timeout,
    {
        self.timeout
    }

    /// Sets the read timeout in milliseconds (if `Some`) or clears it (if
    /// `None`).
    pub fn set_timeout(&mut self, ms: Option<u64>)
        ensures
            final(self)@ == (ConnectionView { timeout: ms, ..old(self)@ }),
    {
        self.timeout = ms;
    }

    /// Gets the next event from the lookahead slot, or tells the driver to
    /// read one from the transport. The slot is checked first and is empty
    /// afterwards.
    pub fn get_event(&mut self) -> (from: Fetch)
        ensures
            (final(self)@, from@) == fetch(old(self)@),
            final(self)@.next_event is None,
    {
        match self.next_event.take() {
            Some(event) => Fetch::Buffered(event),
            None => Fetch::Live(self.timeout),
        }
    }

    /// Puts an event that a negotiator has no use for in the lookahead
    /// slot.
    fn put_back(&mut self, event: Event)
        ensures
            final(self)@ == put_back(old(self)@, event@),
    {
        self.next_event = Some(event);
    }

    /// The command that opens the character-at-a-time exchange.
    pub fn offer_cbreak(&self) -> (command: Command)
        ensures
            command@ == CommandView::Negotiate(Action::Will, TelnetOption::SuppressGoAhead),
    {
        Command::Negotiate(Action::Will, TelnetOption::SuppressGoAhead)
    }

    /// Takes the event that followed [`Connection::offer_cbreak`]. On the
    /// client's `DO` the client is in character-at-a-time mode and the
    /// result is `true`; on its `DONT` it is not. Any other event is put in
    /// the lookahead slot and leaves the flag as it was.
    pub fn negotiate_cbreak(&mut self, event: Event) -> (established: bool)
        ensures
            (final(self)@, established) == cbreak_step(old(self)@, event@),
    {
        match reply_about(&event, TelnetOption::SuppressGoAhead, Action::Do, Action::Dont) {
            Reply::Agreed => {
                self.caps.cbreak = true;
                true
            },
            Reply::Refused => {
                self.caps.cbreak = false;
                false
            },
            Reply::Other => {
                self.put_back(event);
                false
            },
        }
    }

    /// The command that opens the no-local-echo exchange.
    pub fn offer_noecho(&self) -> (command: Command)
        ensures
            command@ == CommandView::Negotiate(Action::Will, TelnetOption::Echo),
    {
        Command::Negotiate(Action::Will, TelnetOption::Echo)
    }

    /// Takes the event that followed [`Connection::offer_noecho`]. On the
    /// client's `DO` the client no longer echoes and the result is `true`;
    /// on its `DONT` it still does. Any other event is put in the lookahead
    /// slot and leaves the flag as it was.
    pub fn negotiate_noecho(&mut self, event: Event) -> (established: bool)
        ensures
            (final(self)@, established) == noecho_step(old(self)@, event@),
    {
        match reply_about(&event, TelnetOption::Echo, Action::Do, Action::Dont) {
            Reply::Agreed => {
                self.caps.echo = false;
                true
            },
            Reply::Refused => {
                self.caps.echo = true;
                false
            },
            Reply::Other => {
                self.put_back(event);
                false
            },
        }
    }
}

impl Connection {
    /// Whether `name` was offered before in the running terminal-type
    /// exchange.
    fn has_seen(&self, name: &String) -> (found: bool)
        ensures
            found == self@.seen.contains(name@),
    {
        let ghost names = self.seen@.map_values(|n: String| n@);
        let mut i: usize = 0;
        while i < self.seen.len()
            invariant
                i <= self.seen@.len(),
                names == self.seen@.map_values(|n: String| n@),
                forall|j: int| 0 <= j < i ==> names[j] != name@,
            decreases self.seen@.len() - i,
        {
            if self.seen[i] == *name {
                assert(names[i as int] == name@);
                return true;
            }
            i += 1;
        }
        false
    }

    /// Drops the names offered in a terminal-type exchange.
    fn forget_names(&mut self)
        ensures
            final(self)@ == (ConnectionView { seen: Set::empty(), ..old(self)@ }),
    {
        self.seen = Vec::new();
        assert(self.seen@.map_values(|n: String| n@).to_set() =~= Set::empty());
    }

    /// The command that opens the terminal-type exchange. No name counts as
    /// offered yet.
    pub fn request_ansi(&mut self) -> (command: Command)
        ensures
            final(self)@ == (ConnectionView { seen: Set::empty(), ..old(self)@ }),
            command@ == CommandView::Negotiate(Action::Do, TelnetOption::TTYPE),
    {
        self.forget_names();
        Command::Negotiate(Action::Do, TelnetOption::TTYPE)
    }

    /// Takes a terminal name that the client offered, together with its
    /// lower-case form, and decides how the terminal-type exchange goes on.
    pub fn terminal_offered(&mut self, name: String, lowered: &str) -> (step: Step)
        ensures
            (final(self)@, step@) == terminal_offered(old(self)@, name@, lowered@),
    {
        if known_ansi(lowered) {
            self.caps.ansi = true;
            self.forget_names();
            Step::Done(true)
        } else if self.has_seen(&name) {
            self.caps.ansi = false;
            self.forget_names();
            Step::Done(false)
        } else {
            proof {
                let names = self.seen@.map_values(|n: String| n@);
                assert(self.seen@.push(name).map_values(|n: String| n@) =~= names.push(name@));
                names.lemma_push_to_set_commute(name@);
            }
            self.seen.push(name);
            Step::Continue(query_ttype())
        }
    }

    /// Takes the next event of the terminal-type exchange that
    /// [`Connection::request_ansi`] opened.
    ///
    /// When the client agrees to the exchange it is asked for a name. Each
    /// terminal-type answer is decoded and judged as
    /// [`Connection::terminal_offered`] says. A refusal means no ANSI. Any
    /// other event is put in the lookahead slot and ends the exchange
    /// undecided.
    pub fn negotiate_ansi(&mut self, event: Event) -> (step: Step)
        ensures
            (final(self)@, step@) == ansi_step(old(self)@, event@),
    {
        match reply_about(&event, TelnetOption::TTYPE, Action::Will, Action::Wont) {
            Reply::Agreed => Step::Continue(query_ttype()),
            Reply::Refused => {
                self.caps.ansi = false;
                self.forget_names();
                Step::Done(false)
            },
            Reply::Other => {
                match payload_for(&event, TelnetOption::TTYPE) {
                    Some(payload) => {
                        if payload.len() >= 1 && payload[0] == IS {
                            let name = decode_lossy(
                                slice_subrange(payload.as_slice(), 1, payload.len()),
                            );
                            let lowered = to_lowercase(name.as_str());
                            return self.terminal_offered(name, lowered.as_str());
                        }
                    },
                    None => {},
                }
                self.forget_names();
                self.put_back(event);
                Step::Done(false)
            },
        }
    }

    /// The command that opens the window-size exchange.
    pub fn request_winsize(&self) -> (command: Command)
        ensures
            command@ == CommandView::Negotiate(Action::Do, TelnetOption::NAWS),
    {
        Command::Negotiate(Action::Do, TelnetOption::NAWS)
    }

    /// Takes the next event of the window-size exchange that
    /// [`Connection::request_winsize`] opened.
    ///
    /// When the client agrees to report it is asked for its size. A refusal
    /// clears width and height. A window-size answer gives the width and the
    /// height as big-endian 16-bit integers; a zero leaves that dimension as
    /// it was, and the exchange has succeeded if either is positive. Any
    /// other event is put in the lookahead slot and ends the exchange
    /// without success.
    pub fn negotiate_winsize(&mut self, event: Event) -> (step: Step)
        ensures
            (final(self)@, step@) == winsize_step(old(self)@, event@),
    {
        match reply_about(&event, TelnetOption::NAWS, Action::Will, Action::Wont) {
            Reply::Agreed => Step::Continue(Command::Subnegotiate(TelnetOption::NAWS, Vec::new())),
            Reply::Refused => {
                self.caps.width = None;
                self.caps.height = None;
                Step::Done(false)
            },
            Reply::Other => {
                match payload_for(&event, TelnetOption::NAWS) {
                    Some(payload) => {
                        if payload.len() == 4 {
                            let width = read_be_u16(slice_subrange(payload.as_slice(), 0, 2));
                            let height = read_be_u16(slice_subrange(payload.as_slice(), 2, 4));
                            if width > 0 {
                                self.caps.width = Some(width);
                            }
                            if height > 0 {
                                self.caps.height = Some(height);
                            }
                            return Step::Done(width > 0 || height > 0);
                        }
                    },
                    None => {},
                }
                self.put_back(event);
                Step::Done(false)
            },
        }
    }

    /// Says what an event means once the session is set up: a data event is
    /// one message if it is well-formed UTF-8 and a fatal error if not; a
    /// timeout is no message; no data means poll again; a transport error is
    /// fatal; negotiations and subnegotiations are noise to drop.
    pub fn read(&self, event: Event) -> (inbound: Inbound)
        ensures
            inbound@ == read_step(event@),
    {
        match event {
            Event::Data(bytes) => match decode_text(bytes) {
                Some(text) => Inbound::Message(text),
                None => Inbound::Failed(ReadError::InvalidText),
            },
            Event::TimedOut => Inbound::Nothing,
            Event::NoData => Inbound::Retry,
            Event::Error(message) => Inbound::Failed(ReadError::Transport(message)),
            other => Inbound::Ignored(other),
        }
    }
}

/// Builds the query for the client's next terminal name.
fn query_ttype() -> (command: Command)
    ensures
        command@ == ttype_query(),
{
    let mut payload: Vec<u8> = Vec::new();
    payload.push(SEND);
    Command::Subnegotiate(TelnetOption::TTYPE, payload)
}

} // verus!
