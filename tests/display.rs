use rudo::epaper::{init_outcome, Error, FrameBuffer, PanelOp, Screen};

fn run_update(screen: &Screen, fail_at: Option<PanelOp>) -> (Vec<PanelOp>, Result<(), Error>) {
    let mut u = screen.update();
    let mut ops = Vec::new();
    while let Some(op) = u.next_op() {
        ops.push(op);
        u.report(Some(op) != fail_at);
    }
    (ops, u.result().unwrap())
}

#[test]
fn update_runs_in_order() {
    let screen = Screen::init(true, true, 4, 2).ok().unwrap();
    let (ops, r) = run_update(&screen, None);
    assert_eq!(
        ops,
        vec![
            PanelOp::PowerOn,
            PanelOp::WakeUp,
            PanelOp::WaitReady,
            PanelOp::Transmit,
            PanelOp::Sleep,
            PanelOp::PowerOff
        ]
    );
    assert_eq!(r, Ok(()));
}

#[test]
fn never_ready_stops_before_transmit() {
    let screen = Screen::init(true, true, 4, 2).ok().unwrap();
    let (ops, r) = run_update(&screen, Some(PanelOp::WaitReady));
    assert_eq!(ops, vec![PanelOp::PowerOn, PanelOp::WakeUp, PanelOp::WaitReady]);
    assert_eq!(r, Err(Error::BecomingReady));
}

#[test]
fn step_errors() {
    let screen = Screen::init(true, true, 1, 1).ok().unwrap();
    assert_eq!(run_update(&screen, Some(PanelOp::PowerOn)).1, Err(Error::Pin));
    assert_eq!(run_update(&screen, Some(PanelOp::WakeUp)).1, Err(Error::WakeUp));
    assert_eq!(run_update(&screen, Some(PanelOp::Transmit)).1, Err(Error::UpdateScreen));
    assert_eq!(run_update(&screen, Some(PanelOp::Sleep)).1, Err(Error::Sleep));
    assert_eq!(run_update(&screen, Some(PanelOp::PowerOff)).1, Err(Error::Pin));
}

#[test]
fn init_errors() {
    assert_eq!(init_outcome(false, true), Err(Error::Pin));
    assert_eq!(init_outcome(true, false), Err(Error::InitScreen));
    assert_eq!(init_outcome(true, true), Ok(()));
    assert!(Screen::init(false, false, 1, 1).is_err());
    assert_eq!(Error::BecomingReady.message(), "error waiting for screen to become ready");
}

#[test]
fn draw_clips_at_origin() {
    let mut f = FrameBuffer::new(3, 2);
    assert_eq!(f.rows(), &vec![vec![true; 3]; 2]);
    let img = vec![vec![false, false, false, false], vec![false], vec![false, false]];
    f.draw(&img);
    assert_eq!(f.rows(), &vec![vec![false, false, false], vec![false, true, true]]);
}

#[test]
fn render_twice_identical() {
    let img = vec![vec![false, true], vec![true, false]];
    let mut a = FrameBuffer::new(3, 3);
    let mut b = FrameBuffer::new(3, 3);
    b.draw(&vec![vec![false; 3]; 3]);
    a.render(&img);
    b.render(&img);
    assert_eq!(a.rows(), b.rows());
    let first = a.rows().clone();
    a.render(&img);
    assert_eq!(a.rows(), &first);
    assert_eq!(
        first,
        vec![vec![false, true, true], vec![true, false, true], vec![true, true, true]]
    );
}

#[test]
fn screen_clear_and_display() {
    let mut s = Screen::init(true, true, 2, 1).ok().unwrap();
    s.display().draw(&vec![vec![false, false]]);
    assert_eq!(s.display().rows(), &vec![vec![false, false]]);
    s.clear();
    assert_eq!(s.display().rows(), &vec![vec![true, true]]);
}
