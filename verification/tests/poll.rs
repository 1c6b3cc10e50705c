use owo::conn::{Connection, Fetch, Inbound, ReadError};
use owo::event::{Action, Event, TelnetOption};

fn noise() -> Event {
    Event::Negotiation(Action::Will, TelnetOption::Other(24))
}

#[test]
fn read_from_returns_the_first_message() {
    let mut conn = Connection::new();
    let (outcome, dropped) = conn.read_from(vec![
        Event::NoData,
        noise(),
        Event::NoData,
        Event::Data(b"hi".to_vec()),
        Event::Data(b"there".to_vec()),
    ]);
    assert_eq!(outcome, Some(Inbound::Message("hi".to_string())));
    assert_eq!(dropped, vec![noise()]);
}

#[test]
fn read_from_times_out_with_no_message() {
    let mut conn = Connection::new();
    conn.set_timeout(Some(100));
    let (outcome, dropped) =
        conn.read_from(vec![Event::NoData, Event::TimedOut, Event::Data(b"late".to_vec())]);
    assert_eq!(outcome, Some(Inbound::Nothing));
    assert!(dropped.is_empty());
    assert_eq!(conn.timeout(), Some(100));
}

#[test]
fn read_from_fails_on_malformed_text_and_transport_errors() {
    let mut conn = Connection::new();
    let (outcome, _) = conn.read_from(vec![Event::Data(vec![0xe2, 0x82]), Event::NoData]);
    assert_eq!(outcome, Some(Inbound::Failed(ReadError::InvalidText)));
    let (outcome, dropped) = conn.read_from(vec![
        Event::Subnegotiation(TelnetOption::TTYPE, vec![0, b'x']),
        Event::Error("Internal Queue Error".to_string()),
    ]);
    assert_eq!(
        outcome,
        Some(Inbound::Failed(ReadError::Transport("Internal Queue Error".to_string())))
    );
    assert_eq!(dropped, vec![Event::Subnegotiation(TelnetOption::TTYPE, vec![0, b'x'])]);
}

#[test]
fn read_from_runs_out_of_events() {
    let mut conn = Connection::new();
    assert_eq!(conn.read_from(vec![]), (None, vec![]));
    assert_eq!(
        conn.read_from(vec![Event::NoData, noise(), noise()]),
        (None, vec![noise(), noise()])
    );
}

#[test]
fn read_from_takes_the_buffered_event_first() {
    let mut conn = Connection::new();
    assert!(!conn.negotiate_noecho(Event::Data(b"first".to_vec())));
    let (outcome, _) = conn.read_from(vec![Event::Data(b"second".to_vec())]);
    assert_eq!(outcome, Some(Inbound::Message("first".to_string())));
    assert_eq!(conn.get_event(), Fetch::Live(None));

    // Buffered noise is dropped like any other.
    assert!(!conn.negotiate_noecho(noise()));
    let (outcome, dropped) = conn.read_from(vec![Event::TimedOut]);
    assert_eq!(outcome, Some(Inbound::Nothing));
    assert_eq!(dropped, vec![noise()]);
}
