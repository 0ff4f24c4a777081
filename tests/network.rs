use rudo::wifi::{ConnectStage, ConnectWait, Link, LinkAction, LinkEvent, LinkPhase};

#[test]
fn waits_for_link_then_address() {
    let mut w = ConnectWait::new();
    assert_eq!(w.poll(false, true), Some(500));
    assert_eq!(w.poll(true, false), Some(500));
    assert_eq!(w.stage(), ConnectStage::WaitAddress);
    assert_eq!(w.poll(false, true), None);
    assert_eq!(w.stage(), ConnectStage::Ready);
}

#[test]
fn link_up_with_address_is_ready_at_once() {
    let mut w = ConnectWait::new();
    assert_eq!(w.poll(true, true), None);
}

#[test]
fn failed_association_retries_after_backoff() {
    let mut l = Link::new();
    assert_eq!(l.step(LinkEvent::Associated(false)), LinkAction::CheckStarted);
    assert_eq!(l.step(LinkEvent::Started(false)), LinkAction::Start);
    assert_eq!(l.step(LinkEvent::StartDone(true)), LinkAction::Connect);
    assert_eq!(l.step(LinkEvent::ConnectDone(false)), LinkAction::Pause(5000));
    assert_eq!(l.step(LinkEvent::PauseOver), LinkAction::CheckAssociation);
    assert_eq!(l.phase(), LinkPhase::Top);
}

#[test]
fn disconnect_waits_then_reconnects() {
    let mut l = Link::new();
    assert_eq!(l.step(LinkEvent::Associated(true)), LinkAction::WaitDisconnect);
    assert_eq!(l.step(LinkEvent::Disconnected), LinkAction::Pause(5000));
    assert_eq!(l.step(LinkEvent::PauseOver), LinkAction::CheckStarted);
    assert_eq!(l.step(LinkEvent::Started(true)), LinkAction::Connect);
    assert_eq!(l.step(LinkEvent::ConnectDone(true)), LinkAction::WaitDisconnect);
    assert!(l.accepts(LinkEvent::Disconnected));
    assert_eq!(l.step(LinkEvent::Disconnected), LinkAction::Pause(5000));
    assert_eq!(l.step(LinkEvent::PauseOver), LinkAction::CheckStarted);
    assert_eq!(l.step(LinkEvent::Started(true)), LinkAction::Connect);
    assert_eq!(l.phase(), LinkPhase::Connecting);
}

#[test]
fn start_failure_is_operation_error() {
    let mut l = Link::new();
    l.step(LinkEvent::Associated(false));
    l.step(LinkEvent::Started(false));
    assert_eq!(l.step(LinkEvent::StartDone(false)), LinkAction::Abort(rudo::wifi::Error::Operation));
}
