//! Display adapter: the frame buffer and the panel's power sequencing.
use vstd::prelude::*;

verus! {

/// How a panel operation failed.
#[derive(Debug, Clone, Copy, PartialEq, Eq, Structural)]
pub enum Error {
    /// Driving the chip-select or power pin failed.
    Pin,
    /// The panel did not answer the identification and reset handshake.
    InitScreen,
    WakeUp,
    Sleep,
    /// The busy line never cleared.
    BecomingReady,
    UpdateScreen,
}

impl Error {
    /// A short human-readable description.
    pub fn message(&self) -> (r: &'static str)
        ensures
            r == match self {
                Error::Pin => "error setting cs/pwr pin",
                Error::InitScreen => "could not initialize screen",
                Error::WakeUp => "error waking up screen",
                Error::Sleep => "error putting screen to sleep",
                Error::BecomingReady => "error waiting for screen to become ready",
                Error::UpdateScreen => "error updating the screen",
            },
    {
        match self {
            Error::Pin => "error setting cs/pwr pin",
            Error::InitScreen => "could not initialize screen",
            Error::WakeUp => "error waking up screen",
            Error::Sleep => "error putting screen to sleep",
            Error::BecomingReady => "error waiting for screen to become ready",
            Error::UpdateScreen => "error updating the screen",
        }
    }
}

/// Bringing the panel up: the bus device first, then the panel handshake.
pub open spec fn init_result(bus_ok: bool, panel_ok: bool) -> Result<(), Error> {
    if !bus_ok {
        Err(Error::Pin)
    } else if !panel_ok {
        Err(Error::InitScreen)
    } else {
        Ok(())
    }
}

/// The outcome of bringing the panel up, from whether the bus device and the
/// panel handshake succeeded; the handshake is only tried on a working bus.
pub fn init_outcome(bus_ok: bool, panel_ok: bool) -> (r: Result<(), Error>)
    ensures
        r == init_result(bus_ok, panel_ok),
{
    if !bus_ok {
        Err(Error::Pin)
    } else if !panel_ok {
        Err(Error::InitScreen)
    } else {
        Ok(())
    }
}

/// One hardware step of a panel commit.
#[derive(Debug, Clone, Copy, PartialEq, Eq, Structural)]
pub enum PanelOp {
    PowerOn,
    WakeUp,
    WaitReady,
    Transmit,
    Sleep,
    PowerOff,
}

/// The order of the steps of a commit.
pub open spec fn update_order() -> Seq<PanelOp> {
    seq![
        PanelOp::PowerOn,
        PanelOp::WakeUp,
        PanelOp::WaitReady,
        PanelOp::Transmit,
        PanelOp::Sleep,
        PanelOp::PowerOff,
    ]
}

/// The error a failed step yields.
pub open spec fn op_error(op: PanelOp) -> Error {
    match op {
        PanelOp::PowerOn => Error::Pin,
        PanelOp::WakeUp => Error::WakeUp,
        PanelOp::WaitReady => Error::BecomingReady,
        PanelOp::Transmit => Error::UpdateScreen,
        PanelOp::Sleep => Error::Sleep,
        PanelOp::PowerOff => Error::Pin,
    }
}

/// Where a commit stands: how many steps succeeded, and the error of the
/// step that failed, if one did.
pub struct UpdateState {
    pub completed: nat,
    pub failure: Option<Error>,
}

/// The states a commit can reach from its start.
pub open spec fn reachable(s: UpdateState) -> bool {
    &&& s.completed <= 6
    &&& s.failure.is_some() ==> s.completed < 6 && s.failure == Some(
        op_error(update_order()[s.completed as int]),
    )
}

/// The step to perform next, if any.
pub open spec fn pending(s: UpdateState) -> Option<PanelOp> {
    if s.failure.is_none() && s.completed < 6 {
        Some(update_order()[s.completed as int])
    } else {
        None
    }
}

/// The state after the pending step reports success or failure.
pub open spec fn reported(s: UpdateState, ok: bool) -> UpdateState {
    if ok {
        UpdateState { completed: s.completed + 1, failure: None }
    } else {
        UpdateState { completed: s.completed, failure: Some(op_error(update_order()[s.completed as int])) }
    }
}

/// The steps performed so far, the failed one included.
pub open spec fn issued(s: UpdateState) -> Seq<PanelOp> {
    update_order().take(s.completed + if s.failure.is_some() { 1int } else { 0int })
}

/// The commit's result once it is over.
pub open spec fn outcome(s: UpdateState) -> Option<Result<(), Error>> {
    match s.failure {
        Some(e) => Some(Err(e)),
        None => if s.completed == 6 {
            Some(Ok(()))
        } else {
            None
        },
    }
}

fn op_at(i: usize) -> (op: PanelOp)
    requires
        i < 6,
    ensures
        op == update_order()[i as int],
{
    match i {
        0 => PanelOp::PowerOn,
        1 => PanelOp::WakeUp,
        2 => PanelOp::WaitReady,
        3 => PanelOp::Transmit,
        4 => PanelOp::Sleep,
        _ => PanelOp::PowerOff,
    }
}

/// The error that a failed step yields.
fn error_of(op: PanelOp) -> (e: Error)
    ensures
        e == op_error(op),
{
    match op {
        PanelOp::PowerOn => Error::Pin,
        PanelOp::WakeUp => Error::WakeUp,
        PanelOp::WaitReady => Error::BecomingReady,
        PanelOp::Transmit => Error::UpdateScreen,
        PanelOp::Sleep => Error::Sleep,
        PanelOp::PowerOff => Error::Pin,
    }
}

/// One commit of the frame to the panel, step by step: the caller performs
/// each step that `next_op` names and reports whether it succeeded.
pub struct Update {
    completed: usize,
    failure: Option<Error>,
}

impl View for Update {
    type V = UpdateState;

    closed spec fn view(&self) -> UpdateState {
        UpdateState { completed: self.completed as nat, failure: self.failure }
    }
}

impl Update {
    pub fn new() -> (u: Update)
        ensures
            u@ == (UpdateState { completed: 0, failure: None }),
            reachable(u@),
    {
        Update { completed: 0, failure: None }
    }

    pub fn next_op(&self) -> (r: Option<PanelOp>)
        requires
            reachable(self@),
        ensures
            r == pending(self@),
    {
        if self.failure.is_none() && self.completed < 6 {
            Some(op_at(self.completed))
        } else {
            None
        }
    }

    /// Records how the pending step went.
    pub fn report(&mut self, ok: bool)
        requires
            reachable(old(self)@),
            pending(old(self)@).is_some(),
        ensures
            final(self)@ == reported(old(self)@, ok),
            reachable(final(self)@),
    {
        if ok {
            self.completed = self.completed + 1;
        } else {
            self.failure = Some(error_of(op_at(self.completed)));
        }
    }

    /// The result, once no step is pending.
    pub fn result(&self) -> (r: Option<Result<(), Error>>)
        requires
            reachable(self@),
        ensures
            r == outcome(self@),
    {
        match self.failure {
            Some(e) => Some(Err(e)),
            None => if self.completed == 6 {
                Some(Ok(()))
            } else {
                None
            },
        }
    }
}

/// A commit performs wake, wait-ready, transmit, sleep and power-down in that
/// order, each only after the one before it succeeded; it succeeds only when
/// all of them ran; and when the panel never becomes ready it fails with
/// `BecomingReady` without transmitting anything.
pub proof fn lemma_update_sequence(s: UpdateState)
    requires
        reachable(s),
    ensures
        issued(s).len() <= 6,
        issued(s) == update_order().take(issued(s).len() as int),
        pending(s).is_some() ==> issued(s).push(pending(s).unwrap()) == update_order().take(
            issued(s).len() + 1int,
        ),
        outcome(s) == Some(Ok::<(), Error>(())) ==> issued(s) == update_order(),
        s.failure == Some(Error::BecomingReady) ==> {
            &&& outcome(s) == Some(Err::<(), Error>(Error::BecomingReady))
            &&& pending(s).is_none()
            &&& !issued(s).contains(PanelOp::Transmit)
        },
{
    if pending(s).is_some() {
        assert(issued(s).push(pending(s).unwrap()) =~= update_order().take(issued(s).len() + 1int));
    }
    if outcome(s) == Some(Ok::<(), Error>(())) {
        assert(issued(s) =~= update_order());
    }
    if s.failure == Some(Error::BecomingReady) {
        assert(s.completed == 2);
        assert(issued(s) =~= seq![PanelOp::PowerOn, PanelOp::WakeUp, PanelOp::WaitReady]);
        assert(!issued(s).contains(PanelOp::Transmit)) by {
            if issued(s).contains(PanelOp::Transmit) {
                let i = choose|i: int| 0 <= i < issued(s).len() && issued(s)[i] == PanelOp::Transmit;
            }
        }
    }
}


/// Pixel rows as plain sequences.
pub open spec fn deep(rows: Seq<Vec<bool>>) -> Seq<Seq<bool>> {
    rows.map_values(|r: Vec<bool>| r@)
}

proof fn lemma_deep_push(rows: Seq<Vec<bool>>, r: Vec<bool>)
    ensures
        deep(rows.push(r)) == deep(rows).push(r@),
{
    assert(deep(rows.push(r)) =~= deep(rows).push(r@));
}

/// A frame of `height` rows of `width` pixels, every pixel on: what a clear
/// leaves.
pub open spec fn blank(width: nat, height: nat) -> Seq<Seq<bool>> {
    Seq::new(height, |y: int| Seq::new(width, |x: int| true))
}

/// `img` drawn at the origin over `base`: each pixel that the image covers
/// takes the image's value; the rest of `base` stays, and what of the image
/// falls outside `base` is clipped.
pub open spec fn overlay(base: Seq<Seq<bool>>, img: Seq<Seq<bool>>) -> Seq<Seq<bool>> {
    Seq::new(
        base.len(),
        |y: int|
            Seq::new(
                base[y].len(),
                |x: int|
                    if y < img.len() && x < img[y].len() {
                        img[y][x]
                    } else {
                        base[y][x]
                    },
            ),
    )
}

/// The frame that a clear followed by drawing `img` produces.
pub open spec fn rendered(width: nat, height: nat, img: Seq<Seq<bool>>) -> Seq<Seq<bool>> {
    overlay(blank(width, height), img)
}

/// The one frame buffer: `height` rows of `width` binary pixels.
pub struct FrameBuffer {
    width: usize,
    height: usize,
    rows: Vec<Vec<bool>>,
}

fn filled_row(width: usize) -> (r: Vec<bool>)
    ensures
        r@ == Seq::new(width as nat, |x: int| true),
{
    let mut r: Vec<bool> = Vec::new();
    let mut i: usize = 0;
    while i < width
        invariant
            i <= width,
            r@ == Seq::new(i as nat, |x: int| true),
        decreases width - i,
    {
        r.push(true);
        i = i + 1;
        assert(r@ =~= Seq::new(i as nat, |x: int| true));
    }
    r
}

fn blank_rows(width: usize, height: usize) -> (rows: Vec<Vec<bool>>)
    ensures
        deep(rows@) == blank(width as nat, height as nat),
{
    let mut rows: Vec<Vec<bool>> = Vec::new();
    let mut y: usize = 0;
    while y < height
        invariant
            y <= height,
            deep(rows@) == blank(width as nat, y as nat),
        decreases height - y,
    {
        let row = filled_row(width);
        proof {
            lemma_deep_push(rows@, row);
        }
        rows.push(row);
        y = y + 1;
        assert(deep(rows@) =~= blank(width as nat, y as nat));
    }
    rows
}

impl FrameBuffer {
    pub closed spec fn frame(&self) -> Seq<Seq<bool>> {
        deep(self.rows@)
    }

    pub closed spec fn frame_width(&self) -> nat {
        self.width as nat
    }

    pub closed spec fn frame_height(&self) -> nat {
        self.height as nat
    }

    /// A cleared buffer of the panel's size.
    pub fn new(width: usize, height: usize) -> (f: FrameBuffer)
        ensures
            f.frame() == blank(width as nat, height as nat),
            f.frame_width() == width,
            f.frame_height() == height,
    {
        FrameBuffer { width, height, rows: blank_rows(width, height) }
    }

    pub fn width(&self) -> (r: usize)
        ensures
            r == self.frame_width(),
    {
        self.width
    }

    pub fn height(&self) -> (r: usize)
        ensures
            r == self.frame_height(),
    {
        self.height
    }

    /// The pixel rows, for transmission.
    pub fn rows(&self) -> (r: &Vec<Vec<bool>>)
        ensures
            deep(r@) == self.frame(),
    {
        &self.rows
    }

    /// Resets every pixel; no hardware is touched.
    pub fn clear(&mut self)
        ensures
            final(self).frame() == blank(old(self).frame_width(), old(self).frame_height()),
            final(self).frame_width() == old(self).frame_width(),
            final(self).frame_height() == old(self).frame_height(),
    {
        self.rows = blank_rows(self.width, self.height);
    }

    /// Draws `img`, given as pixel rows, at the origin.
    pub fn draw(&mut self, img: &Vec<Vec<bool>>)
        ensures
            final(self).frame() == overlay(old(self).frame(), deep(img@)),
            final(self).frame_width() == old(self).frame_width(),
            final(self).frame_height() == old(self).frame_height(),
    {
        let ghost base = self.frame();
        let ghost pic = deep(img@);
        let mut rows: Vec<Vec<bool>> = Vec::new();
        let n = self.rows.len();
        let mut y: usize = 0;
        while y < n
            invariant
                y <= n,
                n == base.len(),
                base == deep(self.rows@),
                pic == deep(img@),
                deep(rows@) == overlay(base, pic).take(y as int),
            decreases n - y,
        {
            let src = &self.rows[y];
            let m = src.len();
            let mut row: Vec<bool> = Vec::new();
            let mut x: usize = 0;
            while x < m
                invariant
                    x <= m,
                    y < n,
                    n == base.len(),
                    base == deep(self.rows@),
                    m == base[y as int].len(),
                    src@ == base[y as int],
                    pic == deep(img@),
                    row@ == overlay(base, pic)[y as int].take(x as int),
                decreases m - x,
            {
                let v = if y < img.len() && x < img[y].len() {
                    proof {
                        assert(pic[y as int] == img@[y as int]@);
                    }
                    img[y][x]
                } else {
                    src[x]
                };
                assert(v == overlay(base, pic)[y as int][x as int]);
                row.push(v);
                x = x + 1;
                assert(row@ =~= overlay(base, pic)[y as int].take(x as int));
            }
            assert(row@ =~= overlay(base, pic)[y as int]);
            proof {
                lemma_deep_push(rows@, row);
            }
            rows.push(row);
            y = y + 1;
            assert(deep(rows@) =~= overlay(base, pic).take(y as int));
        }
        assert(deep(rows@) =~= overlay(base, pic));
        self.rows = rows;
    }

    /// Clears the buffer and draws `img` at the origin.
    pub fn render(&mut self, img: &Vec<Vec<bool>>)
        ensures
            final(self).frame() == rendered(old(self).frame_width(), old(self).frame_height(), deep(img@)),
            final(self).frame_width() == old(self).frame_width(),
            final(self).frame_height() == old(self).frame_height(),
    {
        self.clear();
        self.draw(img);
    }
}

/// The display adapter: owns the one frame buffer, and starts commits of it
/// to the panel.
pub struct Screen {
    buffer: FrameBuffer,
}

impl Screen {
    pub closed spec fn buffer(&self) -> FrameBuffer {
        self.buffer
    }

    /// Brings the adapter up once the bus device and the panel handshake have
    /// been tried; the frame buffer starts cleared.
    pub fn init(bus_ok: bool, panel_ok: bool, width: usize, height: usize) -> (r: Result<
        Screen,
        Error,
    >)
        ensures
            match init_result(bus_ok, panel_ok) {
                Err(e) => r == Err::<Screen, Error>(e),
                Ok(()) => r.is_ok() && r.unwrap().buffer().frame() == blank(width as nat, height as nat)
                    && r.unwrap().buffer().frame_width() == width
                    && r.unwrap().buffer().frame_height() == height,
            },
    {
        match init_outcome(bus_ok, panel_ok) {
            Err(e) => Err(e),
            Ok(()) => Ok(Screen { buffer: FrameBuffer::new(width, height) }),
        }
    }

    /// Resets the frame buffer; no hardware is touched.
    pub fn clear(&mut self)
        ensures
            final(self).buffer().frame() == blank(
                old(self).buffer().frame_width(),
                old(self).buffer().frame_height(),
            ),
            final(self).buffer().frame_width() == old(self).buffer().frame_width(),
            final(self).buffer().frame_height() == old(self).buffer().frame_height(),
    {
        self.buffer.clear();
    }

    /// The frame buffer, to draw into before a commit.
    pub fn display(&mut self) -> (d: &mut FrameBuffer)
        ensures
            *d == old(self).buffer(),
            final(self).buffer() == *final(d),
    {
        &mut self.buffer
    }

    /// Starts a commit of the whole frame: the caller performs the steps that
    /// the returned sequencer names, in order.
    pub fn update(&self) -> (u: Update)
        ensures
            u@ == (UpdateState { completed: 0, failure: None }),
            reachable(u@),
    {
        Update::new()
    }
}

/// Rendering is a function of the image alone: whatever two frames held
/// before, rendering one image into each leaves identical frames, and drawing
/// an image over a frame that already shows it changes nothing.
pub proof fn lemma_render_pure(width: nat, height: nat, img: Seq<Seq<bool>>, base: Seq<Seq<bool>>)
    ensures
        overlay(overlay(base, img), img) == overlay(base, img),
        overlay(rendered(width, height, img), img) == rendered(width, height, img),
{
    assert(overlay(overlay(base, img), img) =~~= overlay(base, img));
    let r = rendered(width, height, img);
    assert(overlay(r, img) =~~= r);
}

} // verus!
