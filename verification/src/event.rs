//! Telnet events as the connection layer sees them, and the commands it asks
//! the transport to send.

use vstd::prelude::*;

verus! {

/// A negotiation verb.
#[derive(Debug, Clone, Copy, PartialEq, Eq, Structural)]
pub enum Action {
    Will,
    Wont,
    Do,
    Dont,
}

/// A telnet option. The four options that the connection layer negotiates
/// have a variant each; every other option is carried by its wire code.
#[derive(Debug, Clone, Copy, PartialEq, Eq, Structural)]
pub enum TelnetOption {
    /// ECHO (RFC 857).
    Echo,
    /// SUPPRESS-GO-AHEAD (RFC 858).
    SuppressGoAhead,
    /// TERMINAL-TYPE (RFC 1091).
    TTYPE,
    /// Negotiate About Window Size (RFC 1073).
    NAWS,
    /// Any other option, by its code.
    Other(u8),
}

/// One event delivered by the transport.
#[derive(Debug, Clone, PartialEq, Eq)]
pub enum Event {
    /// Data received, telnet commands excluded.
    Data(Vec<u8>),
    /// A negotiation received.
    Negotiation(Action, TelnetOption),
    /// A subnegotiation received, with its payload.
    Subnegotiation(TelnetOption, Vec<u8>),
    /// A bounded read ran out of time.
    TimedOut,
    /// Nothing to read.
    NoData,
    /// The transport failed while processing its read buffer.
    Error(String),
}

/// The mathematical value of an [`Event`].
pub enum EventView {
    Data(Seq<u8>),
    Negotiation(Action, TelnetOption),
    Subnegotiation(TelnetOption, Seq<u8>),
    TimedOut,
    NoData,
    Error(Seq<char>),
}

impl View for Event {
    type V = EventView;

    open spec fn view(&self) -> EventView {
        match self {
            Event::Data(bytes) => EventView::Data(bytes@),
            Event::Negotiation(action, option) => EventView::Negotiation(*action, *option),
            Event::Subnegotiation(option, payload) => EventView::Subnegotiation(*option, payload@),
            Event::TimedOut => EventView::TimedOut,
            Event::NoData => EventView::NoData,
            Event::Error(message) => EventView::Error(message@),
        }
    }
}

/// Something for the transport to send.
#[derive(Debug, Clone, PartialEq, Eq)]
pub enum Command {
    /// Send a negotiation.
    Negotiate(Action, TelnetOption),
    /// Send a subnegotiation with the given payload.
    Subnegotiate(TelnetOption, Vec<u8>),
}

/// The mathematical value of a [`Command`].
pub enum CommandView {
    Negotiate(Action, TelnetOption),
    Subnegotiate(TelnetOption, Seq<u8>),
}

impl View for Command {
    type V = CommandView;

    open spec fn view(&self) -> CommandView {
        match self {
            Command::Negotiate(action, option) => CommandView::Negotiate(*action, *option),
            Command::Subnegotiate(option, payload) => CommandView::Subnegotiate(*option, payload@),
        }
    }
}

/// The values of a sequence of events.
pub open spec fn views(events: Seq<Event>) -> Seq<EventView> {
    events.map_values(|event: Event| event@)
}

/// The values of a sequence of commands.
pub open spec fn command_views(commands: Seq<Command>) -> Seq<CommandView> {
    commands.map_values(|command: Command| command@)
}

} // verus!
