//! Network connectivity: waiting for a usable stack at boot, and the
//! reconnect loop that keeps the wireless link associated.
use vstd::prelude::*;

verus! {

/// Milliseconds between two looks at the stack while waiting for it.
pub const POLL_INTERVAL_MS: u64 = 500;

/// Milliseconds to wait before trying to associate again.
pub const RECONNECT_BACKOFF_MS: u64 = 5000;

/// How the radio failed.
#[derive(Debug, Clone, Copy, PartialEq, Eq, Structural)]
pub enum Error {
    /// The radio could not be initialized.
    Setup,
    /// The controller failed at run time, e.g. on a bad configuration.
    Operation,
}

/// What waiting for the stack has seen so far.
#[derive(Debug, Clone, Copy, PartialEq, Eq, Structural)]
pub enum ConnectStage {
    WaitLink,
    WaitAddress,
    Ready,
}

/// The stage after one look at the stack: first the link must be up, then
/// an address must be assigned.
pub open spec fn polled(stage: ConnectStage, link_up: bool, has_address: bool) -> ConnectStage {
    match stage {
        ConnectStage::WaitLink => if !link_up {
            ConnectStage::WaitLink
        } else if has_address {
            ConnectStage::Ready
        } else {
            ConnectStage::WaitAddress
        },
        ConnectStage::WaitAddress => if has_address {
            ConnectStage::Ready
        } else {
            ConnectStage::WaitAddress
        },
        ConnectStage::Ready => ConnectStage::Ready,
    }
}

/// Waiting at boot for the stack to be usable: link up, then an address.
pub struct ConnectWait {
    stage: ConnectStage,
}

impl ConnectWait {
    pub closed spec fn stage_of(&self) -> ConnectStage {
        self.stage
    }

    pub fn new() -> (w: ConnectWait)
        ensures
            w.stage_of() == ConnectStage::WaitLink,
    {
        ConnectWait { stage: ConnectStage::WaitLink }
    }

    pub fn stage(&self) -> (s: ConnectStage)
        ensures
            s == self.stage_of(),
    {
        self.stage
    }

    /// One look at the stack. Returns `None` once the stack is ready, else
    /// the milliseconds to wait before the next look.
    pub fn poll(&mut self, link_up: bool, has_address: bool) -> (r: Option<u64>)
        ensures
            final(self).stage_of() == polled(old(self).stage_of(), link_up, has_address),
            r.is_none() == (final(self).stage_of() == ConnectStage::Ready),
            r.is_some() ==> r == Some(POLL_INTERVAL_MS),
    {
        let s = match self.stage {
            ConnectStage::WaitLink => if !link_up {
                ConnectStage::WaitLink
            } else if has_address {
                ConnectStage::Ready
            } else {
                ConnectStage::WaitAddress
            },
            ConnectStage::WaitAddress => if has_address {
                ConnectStage::Ready
            } else {
                ConnectStage::WaitAddress
            },
            ConnectStage::Ready => ConnectStage::Ready,
        };
        self.stage = s;
        match s {
            ConnectStage::Ready => None,
            _ => Some(POLL_INTERVAL_MS),
        }
    }
}

/// The stack is declared ready only after the link was seen up and an
/// address was seen assigned.
pub proof fn lemma_ready_needs_link_and_address(stage: ConnectStage, link_up: bool, has_address: bool)
    requires
        stage != ConnectStage::Ready,
        polled(stage, link_up, has_address) == ConnectStage::Ready,
    ensures
        has_address,
        stage == ConnectStage::WaitLink ==> link_up,
{
}

/// Where the reconnect loop stands.
#[derive(Debug, Clone, Copy, PartialEq, Eq, Structural)]
pub enum LinkPhase {
    /// About to look whether the link is associated.
    Top,
    WaitingDisconnect,
    PausingAfterDisconnect,
    CheckingStarted,
    Starting,
    Connecting,
    PausingAfterFailure,
    Failed(Error),
}

/// What the controller reports back.
#[derive(Debug, Clone, Copy, PartialEq, Eq, Structural)]
pub enum LinkEvent {
    /// Whether the station is associated.
    Associated(bool),
    Disconnected,
    PauseOver,
    /// Whether the controller is started.
    Started(bool),
    /// Whether configuring and starting the controller succeeded.
    StartDone(bool),
    /// Whether association succeeded.
    ConnectDone(bool),
}

/// What the reconnect loop does next.
#[derive(Debug, Clone, Copy, PartialEq, Eq, Structural)]
pub enum LinkAction {
    CheckAssociation,
    WaitDisconnect,
    /// Sleep this many milliseconds.
    Pause(u64),
    CheckStarted,
    /// Apply the credentials and start the controller.
    Start,
    Connect,
    /// The loop ends with this error.
    Abort(Error),
}

/// Whether `event` is the one that the phase waits for.
pub open spec fn link_fits(phase: LinkPhase, event: LinkEvent) -> bool {
    match event {
        LinkEvent::Associated(_) => phase == LinkPhase::Top,
        LinkEvent::Disconnected => phase == LinkPhase::WaitingDisconnect,
        LinkEvent::PauseOver => phase == LinkPhase::PausingAfterDisconnect || phase
            == LinkPhase::PausingAfterFailure,
        LinkEvent::Started(_) => phase == LinkPhase::CheckingStarted,
        LinkEvent::StartDone(_) => phase == LinkPhase::Starting,
        LinkEvent::ConnectDone(_) => phase == LinkPhase::Connecting,
        }
}

/// The reconnect loop's transition on one event that fits its phase.
pub open spec fn link_next(phase: LinkPhase, event: LinkEvent) -> (LinkPhase, LinkAction) {
    match event {
        LinkEvent::Associated(true) => (LinkPhase::WaitingDisconnect, LinkAction::WaitDisconnect),
        LinkEvent::Associated(false) => (LinkPhase::CheckingStarted, LinkAction::CheckStarted),
        LinkEvent::Disconnected => (
            LinkPhase::PausingAfterDisconnect,
            LinkAction::Pause(RECONNECT_BACKOFF_MS),
        ),
        LinkEvent::PauseOver => if phase == LinkPhase::PausingAfterDisconnect {
            (LinkPhase::CheckingStarted, LinkAction::CheckStarted)
        } else {
            (LinkPhase::Top, LinkAction::CheckAssociation)
        },
        LinkEvent::Started(true) => (LinkPhase::Connecting, LinkAction::Connect),
        LinkEvent::Started(false) => (LinkPhase::Starting, LinkAction::Start),
        LinkEvent::StartDone(true) => (LinkPhase::Connecting, LinkAction::Connect),
        LinkEvent::StartDone(false) => (
            LinkPhase::Failed(Error::Operation),
            LinkAction::Abort(Error::Operation),
        ),
        LinkEvent::ConnectDone(true) => (LinkPhase::WaitingDisconnect, LinkAction::WaitDisconnect),
        LinkEvent::ConnectDone(false) => (
            LinkPhase::PausingAfterFailure,
            LinkAction::Pause(RECONNECT_BACKOFF_MS),
        ),
    }
}

/// The reconnect loop's decisions.
pub struct Link {
    phase: LinkPhase,
}

impl Link {
    pub closed spec fn phase_of(&self) -> LinkPhase {
        self.phase
    }

    /// A loop about to look at the link; its first action is `CheckAssociation`.
    pub fn new() -> (l: Link)
        ensures
            l.phase_of() == LinkPhase::Top,
    {
        Link { phase: LinkPhase::Top }
    }

    pub fn phase(&self) -> (p: LinkPhase)
        ensures
            p == self.phase_of(),
    {
        self.phase
    }

    /// Whether `event` is the one the loop waits for.
    pub fn accepts(&self, event: LinkEvent) -> (r: bool)
        ensures
            r == link_fits(self.phase_of(), event),
    {
        match event {
            LinkEvent::Associated(_) => self.phase == LinkPhase::Top,
            LinkEvent::Disconnected => self.phase == LinkPhase::WaitingDisconnect,
            LinkEvent::PauseOver => self.phase == LinkPhase::PausingAfterDisconnect || self.phase
                == LinkPhase::PausingAfterFailure,
            LinkEvent::Started(_) => self.phase == LinkPhase::CheckingStarted,
            LinkEvent::StartDone(_) => self.phase == LinkPhase::Starting,
            LinkEvent::ConnectDone(_) => self.phase == LinkPhase::Connecting,
        }
    }

    /// Takes in the event the loop waits for and says what to do.
    pub fn step(&mut self, event: LinkEvent) -> (a: LinkAction)
        requires
            link_fits(old(self).phase_of(), event),
        ensures
            (final(self).phase_of(), a) == link_next(old(self).phase_of(), event),
    {
        let (p, a) = match event {
            LinkEvent::Associated(true) => (LinkPhase::WaitingDisconnect, LinkAction::WaitDisconnect),
            LinkEvent::Associated(false) => (LinkPhase::CheckingStarted, LinkAction::CheckStarted),
            LinkEvent::Disconnected => (
                LinkPhase::PausingAfterDisconnect,
                LinkAction::Pause(RECONNECT_BACKOFF_MS),
            ),
            LinkEvent::PauseOver => if self.phase == LinkPhase::PausingAfterDisconnect {
                (LinkPhase::CheckingStarted, LinkAction::CheckStarted)
            } else {
                (LinkPhase::Top, LinkAction::CheckAssociation)
            },
            LinkEvent::Started(true) => (LinkPhase::Connecting, LinkAction::Connect),
            LinkEvent::Started(false) => (LinkPhase::Starting, LinkAction::Start),
            LinkEvent::StartDone(true) => (LinkPhase::Connecting, LinkAction::Connect),
            LinkEvent::StartDone(false) => (
                LinkPhase::Failed(Error::Operation),
                LinkAction::Abort(Error::Operation),
            ),
            LinkEvent::ConnectDone(true) => (LinkPhase::WaitingDisconnect, LinkAction::WaitDisconnect),
            LinkEvent::ConnectDone(false) => (
                LinkPhase::PausingAfterFailure,
                LinkAction::Pause(RECONNECT_BACKOFF_MS),
            ),
        };
        self.phase = p;
        a
    }
}

/// The loop never gives up on the link: a failed association waits the
/// backoff and looks at the link again, without limit; a successful one
/// waits for the disconnect, waits the backoff, and associates again.
pub proof fn lemma_link_always_reassociates()
    ensures
        link_next(LinkPhase::Connecting, LinkEvent::ConnectDone(true)) == (
            LinkPhase::WaitingDisconnect,
            LinkAction::WaitDisconnect,
        ),
        link_next(LinkPhase::WaitingDisconnect, LinkEvent::Disconnected) == (
            LinkPhase::PausingAfterDisconnect,
            LinkAction::Pause(5000),
        ),
        link_next(LinkPhase::PausingAfterDisconnect, LinkEvent::PauseOver) == (
            LinkPhase::CheckingStarted,
            LinkAction::CheckStarted,
        ),
        link_next(LinkPhase::CheckingStarted, LinkEvent::Started(true)) == (
            LinkPhase::Connecting,
            LinkAction::Connect,
        ),
        link_next(LinkPhase::Connecting, LinkEvent::ConnectDone(false)) == (
            LinkPhase::PausingAfterFailure,
            LinkAction::Pause(5000),
        ),
        link_next(LinkPhase::PausingAfterFailure, LinkEvent::PauseOver) == (
            LinkPhase::Top,
            LinkAction::CheckAssociation,
        ),
{
}

} // verus!
