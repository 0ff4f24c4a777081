//! Transport client: one GET exchange under a single deadline, and how its
//! failures are classified.
use vstd::prelude::*;

verus! {

/// The deadline, in seconds, that covers connect, send and receive together.
pub const REQUEST_TIMEOUT_SECS: u64 = 45;

/// How one exchange failed.
#[derive(Debug, Clone, Copy, PartialEq, Eq, Structural)]
pub enum Error {
    /// The underlying transport failed.
    ConnectionReset,
    /// The deadline passed before a response came.
    RequestTimedOut,
    /// The HTTP layer reported a protocol failure.
    Http,
    /// A response came whole, with a status outside 2xx.
    StatusCode(u16),
}

/// The character of one decimal digit.
pub open spec fn digit_char(d: nat) -> char {
    if d == 0 { '0' }
    else if d == 1 { '1' }
    else if d == 2 { '2' }
    else if d == 3 { '3' }
    else if d == 4 { '4' }
    else if d == 5 { '5' }
    else if d == 6 { '6' }
    else if d == 7 { '7' }
    else if d == 8 { '8' }
    else { '9' }
}

/// The decimal digits of `n`, most significant first, without leading zeros.
pub open spec fn decimal(n: nat) -> Seq<char>
    decreases n,
{
    if n < 10 {
        seq![digit_char(n)]
    } else {
        decimal(n / 10).push(digit_char(n % 10))
    }
}

/// Relies on String::push: the character is appended at the end.
#[verifier::external_body]
fn push_char(s: &mut String, c: char)
    ensures
        final(s)@ == old(s)@.push(c),
{
    s.push(c)
}

fn digit(d: u16) -> (c: char)
    requires
        d < 10,
    ensures
        c == digit_char(d as nat),
{
    match d {
        0 => '0',
        1 => '1',
        2 => '2',
        3 => '3',
        4 => '4',
        5 => '5',
        6 => '6',
        7 => '7',
        8 => '8',
        _ => '9',
    }
}

/// Appends the decimal digits of `n`.
fn push_decimal(s: &mut String, n: u16)
    ensures
        final(s)@ == old(s)@ + decimal(n as nat),
    decreases n,
{
    if n >= 10 {
        push_decimal(s, n / 10);
    }
    push_char(s, digit(n % 10));
    assert(s@ =~= old(s)@ + decimal(n as nat));
}

/// The description of an error.
pub open spec fn message_of(e: Error) -> Seq<char> {
    match e {
        Error::ConnectionReset => "connection was reset"@,
        Error::Http => "http request failed"@,
        Error::RequestTimedOut => "endpoint took to long to respond"@,
        Error::StatusCode(code) => "http request has status code of: "@ + decimal(code as nat),
    }
}

impl Error {
    /// A short human-readable description; a status code is given in decimal.
    pub fn message(&self) -> (r: String)
        ensures
            r@ == message_of(*self),
    {
        match self {
            Error::ConnectionReset => "connection was reset".to_owned(),
            Error::Http => "http request failed".to_owned(),
            Error::RequestTimedOut => "endpoint took to long to respond".to_owned(),
            Error::StatusCode(code) => {
                let mut s = "http request has status code of: ".to_owned();
                push_decimal(&mut s, *code);
                s
            },
        }
    }
}

/// A status code in the 2xx range.
pub open spec fn is_success(code: u16) -> bool {
    200 <= code && code <= 299
}

/// Whether `code` reports success.
pub fn is_successful(code: u16) -> (r: bool)
    ensures
        r == is_success(code),
{
    200 <= code && code <= 299
}

/// A failure reported by a layer below the exchange.
#[derive(Debug, Clone, Copy, PartialEq, Eq, Structural)]
pub enum Fault {
    /// The connection itself failed.
    Transport,
    /// The HTTP layer rejected what was sent or received.
    Protocol,
}

pub open spec fn fault_error(f: Fault) -> Error {
    match f {
        Fault::Transport => Error::ConnectionReset,
        Fault::Protocol => Error::Http,
    }
}

/// The error that a lower-layer fault becomes.
pub fn classify_fault(f: Fault) -> (e: Error)
    ensures
        e == fault_error(f),
{
    match f {
        Fault::Transport => Error::ConnectionReset,
        Fault::Protocol => Error::Http,
    }
}

/// Where an exchange stands.
#[derive(Debug, Clone, Copy, PartialEq, Eq, Structural)]
pub enum Stage {
    /// The connection is being opened and the request prepared.
    Opening,
    /// The request is out; waiting for the status line and headers.
    Sending,
    /// The status was 2xx; the body is being read into the caller's buffer.
    Reading,
    /// The exchange is over.
    Done,
}

/// What the layers below report back.
#[derive(Debug, Clone, Copy, PartialEq, Eq, Structural)]
pub enum Event {
    /// The connection is open and the request prepared.
    Opened,
    /// A lower layer failed.
    Failed(Fault),
    /// The deadline passed.
    TimedOut,
    /// A response arrived with this status code.
    Responded(u16),
    /// The whole body, of this many bytes, is in the buffer.
    BodyRead(usize),
}

/// What the caller does next.
#[derive(Debug, Clone, Copy, PartialEq, Eq, Structural)]
pub enum Action {
    /// Send the request, bounded by the deadline.
    Send,
    /// Read the whole body into the buffer.
    ReadBody,
    /// Stop: the body, of this many bytes, is the exchange's result.
    Deliver(usize),
    /// Stop: the exchange failed with this error.
    Fail(Error),
}

/// The transition of an exchange on one event. An event that cannot come in
/// the current stage counts as a protocol failure. The deadline covers the
/// whole exchange: it ends any stage that is not over with `RequestTimedOut`.
pub open spec fn next(stage: Stage, event: Event) -> (Stage, Action) {
    match (stage, event) {
        (Stage::Opening, Event::Opened) => (Stage::Sending, Action::Send),
        (Stage::Done, _) => (Stage::Done, Action::Fail(Error::Http)),
        (_, Event::TimedOut) => (Stage::Done, Action::Fail(Error::RequestTimedOut)),
        (Stage::Sending, Event::Responded(code)) => if is_success(code) {
            (Stage::Reading, Action::ReadBody)
        } else {
            (Stage::Done, Action::Fail(Error::StatusCode(code)))
        },
        (Stage::Reading, Event::BodyRead(n)) => (Stage::Done, Action::Deliver(n)),
        (_, Event::Failed(f)) => (Stage::Done, Action::Fail(fault_error(f))),
        (_, _) => (Stage::Done, Action::Fail(Error::Http)),
    }
}

/// One GET exchange, driven by the events its caller reports.
pub struct Exchange {
    stage: Stage,
}

impl Exchange {
    pub closed spec fn stage_of(&self) -> Stage {
        self.stage
    }

    /// A fresh exchange: the caller opens the connection first.
    pub fn new() -> (x: Exchange)
        ensures
            x.stage_of() == Stage::Opening,
    {
        Exchange { stage: Stage::Opening }
    }

    pub fn stage(&self) -> (s: Stage)
        ensures
            s == self.stage_of(),
    {
        self.stage
    }

    /// Takes in one event and says what to do next.
    pub fn step(&mut self, event: Event) -> (a: Action)
        ensures
            (final(self).stage_of(), a) == next(old(self).stage_of(), event),
    {
        let (s, a) = match (self.stage, event) {
            (Stage::Opening, Event::Opened) => (Stage::Sending, Action::Send),
            (Stage::Done, _) => (Stage::Done, Action::Fail(Error::Http)),
            (_, Event::TimedOut) => (Stage::Done, Action::Fail(Error::RequestTimedOut)),
            (Stage::Sending, Event::Responded(code)) => if is_successful(code) {
                (Stage::Reading, Action::ReadBody)
            } else {
                (Stage::Done, Action::Fail(Error::StatusCode(code)))
            },
            (Stage::Reading, Event::BodyRead(n)) => (Stage::Done, Action::Deliver(n)),
            (_, Event::Failed(f)) => (Stage::Done, Action::Fail(classify_fault(f))),
            (_, _) => (Stage::Done, Action::Fail(Error::Http)),
        };
        self.stage = s;
        a
    }
}

/// A response whose status is outside 2xx ends the exchange with exactly
/// that status, and the body is never read.
pub proof fn lemma_error_status_ends_exchange(code: u16)
    requires
        !is_success(code),
    ensures
        next(Stage::Sending, Event::Responded(code)) == (
            Stage::Done,
            Action::Fail(Error::StatusCode(code)),
        ),
{
}

/// One deadline covers connect, send and receive: when it passes in any
/// stage that is not over, the exchange ends with `RequestTimedOut`; it never
/// keeps waiting, and it never classes the deadline as another failure.
pub proof fn lemma_deadline_ends_exchange(stage: Stage)
    requires
        stage != Stage::Done,
    ensures
        next(stage, Event::TimedOut) == (Stage::Done, Action::Fail(Error::RequestTimedOut)),
{
}

/// The body is read only after a 2xx status: every transition that asks for
/// the body comes from a successful response.
pub proof fn lemma_body_only_after_success(stage: Stage, event: Event)
    requires
        next(stage, event).1 == Action::ReadBody,
    ensures
        stage == Stage::Sending,
        exists|code: u16| event == Event::Responded(code) && is_success(code),
{
    match event {
        Event::Responded(code) => {
            assert(is_success(code));
        },
        _ => {},
    }
}

/// A finished exchange stays finished.
pub proof fn lemma_done_is_final(event: Event)
    ensures
        next(Stage::Done, event).0 == Stage::Done,
        next(Stage::Done, event).1 != Action::ReadBody,
{
}

} // verus!
