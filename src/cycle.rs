//! The main control loop: fetch the descriptor, fetch the image, render and
//! commit it, then wait; on any failure, wait a stage-specific backoff and
//! start over. It never ends and never counts failures.
use vstd::prelude::*;
use crate::epaper;
use crate::status::Status;
use crate::trmnl;

verus! {

/// Seconds to wait after the descriptor fetch failed.
pub const DESCRIPTOR_BACKOFF_SECS: u64 = 30;

/// Seconds to wait after the image fetch failed.
pub const IMAGE_BACKOFF_SECS: u64 = 25;

/// Seconds to wait after the panel commit failed.
pub const DISPLAY_BACKOFF_SECS: u64 = 2;

/// Where the loop stands.
#[derive(Debug, Clone, Copy, PartialEq, Eq, Structural)]
pub enum Phase {
    /// Waiting, either before the first cycle or between two cycles.
    Waiting,
    FetchingDescriptor,
    FetchingImage,
    Committing,
}

/// What the loop's collaborators report back.
pub enum Event {
    /// The wait is over.
    Resume,
    /// The outcome of the descriptor fetch.
    DescriptorFetched(Result<trmnl::ApiResponse, trmnl::Error>),
    /// The outcome of the image fetch.
    ImageFetched(Result<trmnl::ImageInfo, trmnl::Error>),
    /// The outcome of committing the frame to the panel.
    Committed(Result<(), epaper::Error>),
}

/// What the loop does next.
pub enum Action {
    FetchDescriptor,
    /// Fetch the image at this address.
    FetchImage(String),
    /// Clear the frame buffer, draw the decoded image at the origin, and
    /// commit the frame to the panel.
    RenderAndCommit,
    /// Sleep for this many seconds.
    Wait(u64),
}

/// One step of the loop: the status to publish first, if any, then the
/// action to perform.
pub struct Step {
    pub status: Option<Status>,
    pub action: Action,
}

/// The loop's state: the phase, and the refresh interval of the descriptor
/// of the current cycle.
pub struct CycleState {
    pub phase: Phase,
    pub refresh_rate: u64,
}

/// Whether `event` is the one that the phase waits for.
pub open spec fn fits(phase: Phase, event: Event) -> bool {
    match event {
        Event::Resume => phase == Phase::Waiting,
        Event::DescriptorFetched(_) => phase == Phase::FetchingDescriptor,
        Event::ImageFetched(_) => phase == Phase::FetchingImage,
        Event::Committed(_) => phase == Phase::Committing,
    }
}

pub open spec fn failed(backoff: u64, refresh_rate: u64) -> (CycleState, Step) {
    (
        CycleState { phase: Phase::Waiting, refresh_rate },
        Step { status: Some(Status::Failure), action: Action::Wait(backoff) },
    )
}

/// The loop's transition on one event that fits its phase.
pub open spec fn next(s: CycleState, event: Event) -> (CycleState, Step) {
    match event {
        Event::Resume => (
            CycleState { phase: Phase::FetchingDescriptor, refresh_rate: s.refresh_rate },
            Step { status: Some(Status::Working), action: Action::FetchDescriptor },
        ),
        Event::DescriptorFetched(Err(_)) => failed(DESCRIPTOR_BACKOFF_SECS, s.refresh_rate),
        Event::DescriptorFetched(Ok(d)) => (
            CycleState { phase: Phase::FetchingImage, refresh_rate: d.refresh_rate },
            Step { status: None, action: Action::FetchImage(d.image_url) },
        ),
        Event::ImageFetched(Err(_)) => failed(IMAGE_BACKOFF_SECS, s.refresh_rate),
        Event::ImageFetched(Ok(_)) => (
            CycleState { phase: Phase::Committing, refresh_rate: s.refresh_rate },
            Step { status: None, action: Action::RenderAndCommit },
        ),
        Event::Committed(Err(_)) => failed(DISPLAY_BACKOFF_SECS, s.refresh_rate),
        Event::Committed(Ok(())) => (
            CycleState { phase: Phase::Waiting, refresh_rate: s.refresh_rate },
            Step { status: Some(Status::Sleeping), action: Action::Wait(s.refresh_rate) },
        ),
    }
}

/// The main control loop's decisions.
pub struct Cycle {
    phase: Phase,
    refresh_rate: u64,
}

impl View for Cycle {
    type V = CycleState;

    closed spec fn view(&self) -> CycleState {
        CycleState { phase: self.phase, refresh_rate: self.refresh_rate }
    }
}

impl Cycle {
    /// A loop about to start its first cycle.
    pub fn new() -> (c: Cycle)
        ensures
            c@.phase == Phase::Waiting,
    {
        Cycle { phase: Phase::Waiting, refresh_rate: 0 }
    }

    pub fn phase(&self) -> (p: Phase)
        ensures
            p == self@.phase,
    {
        self.phase
    }

    /// Whether `event` is the one the loop waits for.
    pub fn accepts(&self, event: &Event) -> (r: bool)
        ensures
            r == fits(self@.phase, *event),
    {
        match event {
            Event::Resume => self.phase == Phase::Waiting,
            Event::DescriptorFetched(_) => self.phase == Phase::FetchingDescriptor,
            Event::ImageFetched(_) => self.phase == Phase::FetchingImage,
            Event::Committed(_) => self.phase == Phase::Committing,
        }
    }

    /// Takes in the event the loop waits for and says what to publish and do.
    pub fn step(&mut self, event: Event) -> (r: Step)
        requires
            fits(old(self)@.phase, event),
        ensures
            (final(self)@, r) == next(old(self)@, event),
    {
        match event {
            Event::Resume => {
                self.phase = Phase::FetchingDescriptor;
                Step { status: Some(Status::Working), action: Action::FetchDescriptor }
            },
            Event::DescriptorFetched(Err(_)) => {
                self.phase = Phase::Waiting;
                Step { status: Some(Status::Failure), action: Action::Wait(DESCRIPTOR_BACKOFF_SECS) }
            },
            Event::DescriptorFetched(Ok(d)) => {
                self.phase = Phase::FetchingImage;
                self.refresh_rate = d.refresh_rate;
                Step { status: None, action: Action::FetchImage(d.image_url) }
            },
            Event::ImageFetched(Err(_)) => {
                self.phase = Phase::Waiting;
                Step { status: Some(Status::Failure), action: Action::Wait(IMAGE_BACKOFF_SECS) }
            },
            Event::ImageFetched(Ok(_)) => {
                self.phase = Phase::Committing;
                Step { status: None, action: Action::RenderAndCommit }
            },
            Event::Committed(Err(_)) => {
                self.phase = Phase::Waiting;
                Step { status: Some(Status::Failure), action: Action::Wait(DISPLAY_BACKOFF_SECS) }
            },
            Event::Committed(Ok(())) => {
                self.phase = Phase::Waiting;
                Step { status: Some(Status::Sleeping), action: Action::Wait(self.refresh_rate) }
            },
        }
    }
}

/// When the descriptor fetch fails, the statuses published are Working, then
/// Failure with a 30-second wait, then Working again as the cycle retries;
/// the loop never goes to Sleeping on that path.
pub proof fn lemma_descriptor_failure_retries(s: CycleState, e: trmnl::Error)
    requires
        s.phase == Phase::Waiting,
    ensures
        ({
            let (s1, a1) = next(s, Event::Resume);
            let (s2, a2) = next(s1, Event::DescriptorFetched(Err(e)));
            let (s3, a3) = next(s2, Event::Resume);
            &&& fits(s1.phase, Event::DescriptorFetched(Err(e)))
            &&& fits(s2.phase, Event::Resume)
            &&& a1.status == Some(Status::Working) && a1.action == Action::FetchDescriptor
            &&& a2.status == Some(Status::Failure) && a2.action == Action::Wait(30)
            &&& a3.status == Some(Status::Working) && a3.action == Action::FetchDescriptor
        }),
{
}

/// When the descriptor and the image arrive and the commit succeeds, the
/// statuses published are Working then Sleeping, the image fetched is the one
/// the descriptor names, and the wait that follows is exactly the
/// descriptor's refresh interval.
pub proof fn lemma_success_sleeps_refresh_rate(
    s: CycleState,
    d: trmnl::ApiResponse,
    img: trmnl::ImageInfo,
)
    requires
        s.phase == Phase::Waiting,
    ensures
        ({
            let (s1, a1) = next(s, Event::Resume);
            let (s2, a2) = next(s1, Event::DescriptorFetched(Ok(d)));
            let (s3, a3) = next(s2, Event::ImageFetched(Ok(img)));
            let (s4, a4) = next(s3, Event::Committed(Ok(())));
            &&& fits(s1.phase, Event::DescriptorFetched(Ok(d)))
            &&& fits(s2.phase, Event::ImageFetched(Ok(img)))
            &&& fits(s3.phase, Event::Committed(Ok(())))
            &&& a1.status == Some(Status::Working) && a1.action == Action::FetchDescriptor
            &&& a2.status.is_none() && a2.action == Action::FetchImage(d.image_url)
            &&& a3.status.is_none() && a3.action == Action::RenderAndCommit
            &&& a4.status == Some(Status::Sleeping) && a4.action == Action::Wait(d.refresh_rate)
            &&& s4.phase == Phase::Waiting
        }),
{
}

/// Every failure, at any stage, publishes Failure, waits the stage's backoff
/// and returns to waiting, from where the next step retries from the start:
/// there is no retry ceiling and no escalation.
pub proof fn lemma_failure_always_retries(s: CycleState, event: Event)
    requires
        fits(s.phase, event),
        next(s, event).1.status == Some(Status::Failure),
    ensures
        next(s, event).0.phase == Phase::Waiting,
        next(s, event).1.action == Action::Wait(DESCRIPTOR_BACKOFF_SECS) || next(s, event).1.action
            == Action::Wait(IMAGE_BACKOFF_SECS) || next(s, event).1.action == Action::Wait(
            DISPLAY_BACKOFF_SECS,
        ),
        next(next(s, event).0, Event::Resume).1.status == Some(Status::Working),
        next(next(s, event).0, Event::Resume).1.action == Action::FetchDescriptor,
{
}

/// The loop's decisions depend only on its phase and the events: from two
/// waiting states, the same events give the same steps, so two cycles with
/// identical fetch results render and commit identically.
pub proof fn lemma_cycle_deterministic(
    s: CycleState,
    t: CycleState,
    d: trmnl::ApiResponse,
    img: trmnl::ImageInfo,
)
    requires
        s.phase == Phase::Waiting,
        t.phase == Phase::Waiting,
    ensures
        ({
            let (s1, a1) = next(s, Event::Resume);
            let (s2, a2) = next(s1, Event::DescriptorFetched(Ok(d)));
            let (s3, a3) = next(s2, Event::ImageFetched(Ok(img)));
            let (s4, a4) = next(s3, Event::Committed(Ok(())));
            let (t1, b1) = next(t, Event::Resume);
            let (t2, b2) = next(t1, Event::DescriptorFetched(Ok(d)));
            let (t3, b3) = next(t2, Event::ImageFetched(Ok(img)));
            let (t4, b4) = next(t3, Event::Committed(Ok(())));
            a1 == b1 && a2 == b2 && a3 == b3 && a4 == b4 && s4 == t4
        }),
{
}

} // verus!
