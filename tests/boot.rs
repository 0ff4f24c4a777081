use rudo::boot::{Boot, BootAction, BootError, BootEvent, BootStep, Error};
use rudo::status::Status;

const FAIL: BootStep = BootStep { status: Some(Status::BootFailure), action: BootAction::Reboot(3) };

#[test]
fn wifi_timeout_is_timeout_error() {
    let mut b = Boot::new();
    let s = b.step(BootEvent::Begin);
    assert_eq!(s, BootStep { status: Some(Status::Booting), action: BootAction::ConnectWifi(20) });
    assert_eq!(b.step(BootEvent::WifiTimedOut), FAIL);
    assert_eq!(b.result(), Some(Err(BootError::WifiConnectionTimeout)));
}

#[test]
fn wifi_failure_is_connection_error() {
    let mut b = Boot::new();
    b.step(BootEvent::Begin);
    assert_eq!(b.step(BootEvent::WifiFailed), FAIL);
    assert_eq!(b.result(), Some(Err(BootError::WifiConnection)));
    assert!(!b.network_ready());
}

#[test]
fn later_failure_keeps_network() {
    let mut b = Boot::new();
    b.step(BootEvent::Begin);
    assert_eq!(b.step(BootEvent::WifiConnected).action, BootAction::InitSpi);
    assert_eq!(b.step(BootEvent::Spi(false)), FAIL);
    assert!(b.network_ready());
    assert_eq!(b.result(), Some(Err(BootError::SpiInit)));

    let mut c = Boot::new();
    c.step(BootEvent::Begin);
    c.step(BootEvent::WifiConnected);
    assert_eq!(c.step(BootEvent::Spi(true)).action, BootAction::InitScreen);
    assert_eq!(c.step(BootEvent::Screen(false)), FAIL);
    assert!(c.network_ready());
    assert_eq!(c.result(), Some(Err(BootError::ScreenInit)));
}

#[test]
fn full_boot_runs() {
    let mut b = Boot::new();
    assert!(b.accepts(BootEvent::Begin));
    b.step(BootEvent::Begin);
    b.step(BootEvent::WifiConnected);
    b.step(BootEvent::Spi(true));
    assert_eq!(b.step(BootEvent::Screen(true)).action, BootAction::Run);
    assert_eq!(b.result(), Some(Ok(())));
    assert_eq!(Error::from(BootError::ScreenInit), Error::Boot);
}
