//! Boot sequencer: status light, network (bounded by a timeout), transport
//! bus, then the panel; any failure is fatal for this run.
use vstd::prelude::*;
use crate::status::Status;

verus! {

/// Seconds that bringing up the network may take.
pub const WIFI_TIMEOUT_SECS: u64 = 20;

/// Seconds to wait after a fatal failure before the hardware reset.
pub const REBOOT_DELAY_SECS: u64 = 3;

/// Why boot failed.
#[derive(Debug, Clone, Copy, PartialEq, Eq, Structural)]
pub enum BootError {
    /// The wireless link or the network stack could not be set up.
    WifiConnection,
    /// The network was not ready within the timeout.
    WifiConnectionTimeout,
    SpiInit,
    ScreenInit,
}

/// A fault that ends the run.
#[derive(Debug, Clone, Copy, PartialEq, Eq, Structural)]
pub enum Error {
    Boot,
}

impl From<BootError> for Error {
    fn from(_e: BootError) -> (r: Self)
        ensures
            r == Error::Boot,
    {
        Error::Boot
    }
}

impl vstd::std_specs::convert::FromSpecImpl<BootError> for Error {
    open spec fn obeys_from_spec() -> bool {
        true
    }

    open spec fn from_spec(e: BootError) -> Error {
        Error::Boot
    }
}

/// Where boot stands.
#[derive(Debug, Clone, Copy, PartialEq, Eq, Structural)]
pub enum BootPhase {
    Starting,
    ConnectingWifi,
    InitializingSpi,
    InitializingScreen,
    /// Every peripheral is up; the device handle is complete.
    Ready,
    Failed(BootError),
}

/// What the peripherals report back.
#[derive(Debug, Clone, Copy, PartialEq, Eq, Structural)]
pub enum BootEvent {
    /// The status light runs; boot may begin.
    Begin,
    /// The link is up and an address is assigned.
    WifiConnected,
    /// The radio or the stack could not be set up.
    WifiFailed,
    /// The timeout passed before the network was ready.
    WifiTimedOut,
    /// The transport bus came up, or not.
    Spi(bool),
    /// The panel came up, or not.
    Screen(bool),
}

/// What boot does next.
#[derive(Debug, Clone, Copy, PartialEq, Eq, Structural)]
pub enum BootAction {
    /// Bring up the network, bounded by this many seconds.
    ConnectWifi(u64),
    InitSpi,
    InitScreen,
    /// Hand the device to the main control loop.
    Run,
    /// Wait this many seconds, then reset the hardware.
    Reboot(u64),
}

#[derive(Debug, Clone, Copy, PartialEq, Eq, Structural)]
pub struct BootStep {
    pub status: Option<Status>,
    pub action: BootAction,
}

/// The sequencer's state: the phase, and whether the network stack is up.
pub struct BootState {
    pub phase: BootPhase,
    pub network_ready: bool,
}

/// Whether `event` is the one that the phase waits for.
pub open spec fn fits(phase: BootPhase, event: BootEvent) -> bool {
    match event {
        BootEvent::Begin => phase == BootPhase::Starting,
        BootEvent::WifiConnected | BootEvent::WifiFailed | BootEvent::WifiTimedOut => phase
            == BootPhase::ConnectingWifi,
        BootEvent::Spi(_) => phase == BootPhase::InitializingSpi,
        BootEvent::Screen(_) => phase == BootPhase::InitializingScreen,
    }
}

pub open spec fn abort(e: BootError, network_ready: bool) -> (BootState, BootStep) {
    (
        BootState { phase: BootPhase::Failed(e), network_ready },
        BootStep { status: Some(Status::BootFailure), action: BootAction::Reboot(REBOOT_DELAY_SECS) },
    )
}

/// The sequencer's transition on one event that fits its phase.
pub open spec fn next(s: BootState, event: BootEvent) -> (BootState, BootStep) {
    match event {
        BootEvent::Begin => (
            BootState { phase: BootPhase::ConnectingWifi, network_ready: s.network_ready },
            BootStep {
                status: Some(Status::Booting),
                action: BootAction::ConnectWifi(WIFI_TIMEOUT_SECS),
            },
        ),
        BootEvent::WifiConnected => (
            BootState { phase: BootPhase::InitializingSpi, network_ready: true },
            BootStep { status: None, action: BootAction::InitSpi },
        ),
        BootEvent::WifiFailed => abort(BootError::WifiConnection, s.network_ready),
        BootEvent::WifiTimedOut => abort(BootError::WifiConnectionTimeout, s.network_ready),
        BootEvent::Spi(true) => (
            BootState { phase: BootPhase::InitializingScreen, network_ready: s.network_ready },
            BootStep { status: None, action: BootAction::InitScreen },
        ),
        BootEvent::Spi(false) => abort(BootError::SpiInit, s.network_ready),
        BootEvent::Screen(true) => (
            BootState { phase: BootPhase::Ready, network_ready: s.network_ready },
            BootStep { status: None, action: BootAction::Run },
        ),
        BootEvent::Screen(false) => abort(BootError::ScreenInit, s.network_ready),
    }
}

/// The states that boot passes through from its start.
pub open spec fn reachable(s: BootState) -> bool {
    match s.phase {
        BootPhase::Starting | BootPhase::ConnectingWifi => !s.network_ready,
        BootPhase::Failed(BootError::WifiConnection)
        | BootPhase::Failed(BootError::WifiConnectionTimeout) => !s.network_ready,
        _ => s.network_ready,
    }
}

/// The boot sequencer's decisions.
pub struct Boot {
    phase: BootPhase,
    network_ready: bool,
}

impl View for Boot {
    type V = BootState;

    closed spec fn view(&self) -> BootState {
        BootState { phase: self.phase, network_ready: self.network_ready }
    }
}

impl Boot {
    pub fn new() -> (b: Boot)
        ensures
            b@ == (BootState { phase: BootPhase::Starting, network_ready: false }),
            reachable(b@),
    {
        Boot { phase: BootPhase::Starting, network_ready: false }
    }

    pub fn phase(&self) -> (p: BootPhase)
        ensures
            p == self@.phase,
    {
        self.phase
    }

    /// Whether the network stack is up.
    pub fn network_ready(&self) -> (r: bool)
        ensures
            r == self@.network_ready,
    {
        self.network_ready
    }

    /// Whether `event` is the one the sequencer waits for.
    pub fn accepts(&self, event: BootEvent) -> (r: bool)
        ensures
            r == fits(self@.phase, event),
    {
        match event {
            BootEvent::Begin => self.phase == BootPhase::Starting,
            BootEvent::WifiConnected | BootEvent::WifiFailed | BootEvent::WifiTimedOut => {
                self.phase == BootPhase::ConnectingWifi
            },
            BootEvent::Spi(_) => self.phase == BootPhase::InitializingSpi,
            BootEvent::Screen(_) => self.phase == BootPhase::InitializingScreen,
        }
    }

    /// Takes in the event the sequencer waits for and says what to publish and do.
    pub fn step(&mut self, event: BootEvent) -> (r: BootStep)
        requires
            fits(old(self)@.phase, event),
            reachable(old(self)@),
        ensures
            (final(self)@, r) == next(old(self)@, event),
            reachable(final(self)@),
    {
        let fail = BootStep {
            status: Some(Status::BootFailure),
            action: BootAction::Reboot(REBOOT_DELAY_SECS),
        };
        match event {
            BootEvent::Begin => {
                self.phase = BootPhase::ConnectingWifi;
                BootStep {
                    status: Some(Status::Booting),
                    action: BootAction::ConnectWifi(WIFI_TIMEOUT_SECS),
                }
            },
            BootEvent::WifiConnected => {
                self.phase = BootPhase::InitializingSpi;
                self.network_ready = true;
                BootStep { status: None, action: BootAction::InitSpi }
            },
            BootEvent::WifiFailed => {
                self.phase = BootPhase::Failed(BootError::WifiConnection);
                fail
            },
            BootEvent::WifiTimedOut => {
                self.phase = BootPhase::Failed(BootError::WifiConnectionTimeout);
                fail
            },
            BootEvent::Spi(true) => {
                self.phase = BootPhase::InitializingScreen;
                BootStep { status: None, action: BootAction::InitScreen }
            },
            BootEvent::Spi(false) => {
                self.phase = BootPhase::Failed(BootError::SpiInit);
                fail
            },
            BootEvent::Screen(true) => {
                self.phase = BootPhase::Ready;
                BootStep { status: None, action: BootAction::Run }
            },
            BootEvent::Screen(false) => {
                self.phase = BootPhase::Failed(BootError::ScreenInit);
                fail
            },
        }
    }

    /// The outcome of boot, once it is over: the device is ready, or the error.
    pub fn result(&self) -> (r: Option<Result<(), BootError>>)
        ensures
            r == match self@.phase {
                BootPhase::Ready => Some(Ok::<(), BootError>(())),
                BootPhase::Failed(e) => Some(Err::<(), BootError>(e)),
                _ => None::<Result<(), BootError>>,
            },
    {
        match self.phase {
            BootPhase::Ready => Some(Ok(())),
            BootPhase::Failed(e) => Some(Err(e)),
            _ => None,
        }
    }
}

/// When bringing up the network exceeds its bound, boot fails with exactly
/// `WifiConnectionTimeout`, never `WifiConnection`, publishes BootFailure and
/// reboots after the grace delay.
pub proof fn lemma_wifi_timeout_classified(s: BootState)
    requires
        fits(s.phase, BootEvent::WifiTimedOut),
    ensures
        next(s, BootEvent::WifiTimedOut).0.phase == BootPhase::Failed(
            BootError::WifiConnectionTimeout,
        ),
        next(s, BootEvent::WifiTimedOut).0.phase != BootPhase::Failed(BootError::WifiConnection),
        next(s, BootEvent::WifiTimedOut).1 == (BootStep {
            status: Some(Status::BootFailure),
            action: BootAction::Reboot(3),
        }),
{
}

/// Every state boot reaches from its start is `reachable`: once the network
/// is associated, the stack is up in every later state, also when the bus or
/// the panel then fails; and no failure leaves a ready device.
pub proof fn lemma_network_ready_after_association(s: BootState, event: BootEvent)
    requires
        reachable(s),
        fits(s.phase, event),
    ensures
        reachable(next(s, event).0),
        s.network_ready ==> next(s, event).0.network_ready,
        event == BootEvent::WifiConnected ==> next(s, event).0.network_ready,
        next(s, event).0.phase == BootPhase::Failed(BootError::SpiInit) ==> next(s, event).0.network_ready,
        next(s, event).0.phase == BootPhase::Failed(BootError::ScreenInit) ==> next(s, event).0.network_ready,
        next(s, event).0.phase == BootPhase::Ready ==> next(s, event).0.network_ready,
{
}

} // verus!
