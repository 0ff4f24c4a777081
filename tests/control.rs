use rudo::cycle::{Action, Cycle, Event, Phase, Step};
use rudo::epaper;
use rudo::status::Status;
use rudo::trmnl::{ApiResponse, Error, ImageInfo};

fn is_wait(s: &Step, secs: u64) -> bool {
    matches!(s.action, Action::Wait(n) if n == secs)
}

#[test]
fn descriptor_timeout_retries_after_30s() {
    let mut c = Cycle::new();
    let s1 = c.step(Event::Resume);
    assert_eq!(s1.status, Some(Status::Working));
    assert!(matches!(s1.action, Action::FetchDescriptor));
    let s2 = c.step(Event::DescriptorFetched(Err(Error::Fetch)));
    assert_eq!(s2.status, Some(Status::Failure));
    assert!(is_wait(&s2, 30));
    assert_eq!(c.phase(), Phase::Waiting);
    let s3 = c.step(Event::Resume);
    assert_eq!(s3.status, Some(Status::Working));
    assert!(matches!(s3.action, Action::FetchDescriptor));
}

#[test]
fn success_sleeps_for_refresh_rate() {
    let mut c = Cycle::new();
    let s1 = c.step(Event::Resume);
    assert_eq!(s1.status, Some(Status::Working));
    let d = ApiResponse { image_url: "http://x/y.qoi".to_string(), refresh_rate: 900 };
    let s2 = c.step(Event::DescriptorFetched(Ok(d)));
    assert_eq!(s2.status, None);
    assert!(matches!(&s2.action, Action::FetchImage(u) if u == "http://x/y.qoi"));
    let s3 = c.step(Event::ImageFetched(Ok(ImageInfo { width: 800, height: 480 })));
    assert!(matches!(s3.action, Action::RenderAndCommit));
    let s4 = c.step(Event::Committed(Ok(())));
    assert_eq!(s4.status, Some(Status::Sleeping));
    assert!(is_wait(&s4, 900));
}

#[test]
fn image_and_display_backoffs() {
    let mut c = Cycle::new();
    c.step(Event::Resume);
    let d = ApiResponse { image_url: "u".to_string(), refresh_rate: 60 };
    c.step(Event::DescriptorFetched(Ok(d)));
    let s = c.step(Event::ImageFetched(Err(Error::Image)));
    assert_eq!(s.status, Some(Status::Failure));
    assert!(is_wait(&s, 25));

    c.step(Event::Resume);
    let d = ApiResponse { image_url: "u".to_string(), refresh_rate: 60 };
    c.step(Event::DescriptorFetched(Ok(d)));
    c.step(Event::ImageFetched(Ok(ImageInfo { width: 1, height: 1 })));
    let s = c.step(Event::Committed(Err(epaper::Error::BecomingReady)));
    assert_eq!(s.status, Some(Status::Failure));
    assert!(is_wait(&s, 2));
}

#[test]
fn cycle_accepts_only_expected_event() {
    let c = Cycle::new();
    assert!(c.accepts(&Event::Resume));
    assert!(!c.accepts(&Event::Committed(Ok(()))));
}
