use rudo::http::{classify_fault, is_successful, Action, Error, Event, Exchange, Fault, Stage};

#[test]
fn status_404_is_error_without_body() {
    let mut x = Exchange::new();
    assert_eq!(x.step(Event::Opened), Action::Send);
    assert_eq!(x.step(Event::Responded(404)), Action::Fail(Error::StatusCode(404)));
    assert_eq!(x.stage(), Stage::Done);
}

#[test]
fn deadline_gives_timeout() {
    let mut x = Exchange::new();
    assert_eq!(x.step(Event::Opened), Action::Send);
    assert_eq!(x.step(Event::TimedOut), Action::Fail(Error::RequestTimedOut));
}

#[test]
fn deadline_while_opening_or_reading_gives_timeout() {
    let mut x = Exchange::new();
    assert_eq!(x.step(Event::TimedOut), Action::Fail(Error::RequestTimedOut));
    let mut y = Exchange::new();
    y.step(Event::Opened);
    assert_eq!(y.step(Event::Responded(200)), Action::ReadBody);
    assert_eq!(y.step(Event::TimedOut), Action::Fail(Error::RequestTimedOut));
    assert_eq!(y.stage(), Stage::Done);
}

#[test]
fn success_reads_body() {
    let mut x = Exchange::new();
    assert_eq!(x.step(Event::Opened), Action::Send);
    assert_eq!(x.step(Event::Responded(200)), Action::ReadBody);
    assert_eq!(x.stage(), Stage::Reading);
    assert_eq!(x.step(Event::BodyRead(1234)), Action::Deliver(1234));
}

#[test]
fn faults_are_classified() {
    assert_eq!(classify_fault(Fault::Transport), Error::ConnectionReset);
    assert_eq!(classify_fault(Fault::Protocol), Error::Http);
    let mut x = Exchange::new();
    assert_eq!(x.step(Event::Failed(Fault::Transport)), Action::Fail(Error::ConnectionReset));
    let mut y = Exchange::new();
    y.step(Event::Opened);
    y.step(Event::Responded(204));
    assert_eq!(y.step(Event::Failed(Fault::Protocol)), Action::Fail(Error::Http));
}

#[test]
fn success_range() {
    assert!(!is_successful(199));
    assert!(is_successful(200));
    assert!(is_successful(299));
    assert!(!is_successful(300));
    assert!(!is_successful(404));
}

#[test]
fn error_messages() {
    assert_eq!(Error::RequestTimedOut.message(), "endpoint took to long to respond");
    assert_eq!(Error::ConnectionReset.message(), "connection was reset");
    assert_eq!(Error::Http.message(), "http request failed");
    assert_eq!(Error::StatusCode(404).message(), "http request has status code of: 404");
    assert_eq!(Error::StatusCode(0).message(), "http request has status code of: 0");
    assert_eq!(Error::StatusCode(65535).message(), "http request has status code of: 65535");
}
