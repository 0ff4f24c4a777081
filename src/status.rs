//! Device status, its light color, and the single-slot channel that carries it.
use vstd::prelude::*;

verus! {

/// The state the device is in; exactly one is current at any instant.
#[derive(Debug, Clone, Copy, PartialEq, Eq, Structural)]
pub enum Status {
    Booting,
    BootFailure,
    Working,
    Sleeping,
    Failure,
}

/// A color of the status light, one byte per channel.
#[derive(Debug, Clone, Copy, PartialEq, Eq, Structural)]
pub struct Rgb {
    pub r: u8,
    pub g: u8,
    pub b: u8,
}

/// The palette: dark goldenrod, crimson, green, blue and red.
pub open spec fn palette(s: Status) -> Rgb {
    match s {
        Status::Booting => Rgb { r: 0xB8, g: 0x86, b: 0x0B },
        Status::BootFailure => Rgb { r: 0xDC, g: 0x14, b: 0x3C },
        Status::Working => Rgb { r: 0x00, g: 0x80, b: 0x00 },
        Status::Sleeping => Rgb { r: 0x00, g: 0x00, b: 0xFF },
        Status::Failure => Rgb { r: 0xFF, g: 0x00, b: 0x00 },
    }
}

/// One channel scaled to a brightness level: `level` 255 keeps it whole.
pub open spec fn dim(c: u8, level: u8) -> u8 {
    (c as int * (level as int + 1) / 256) as u8
}

/// A color scaled to a brightness level, channel by channel.
pub open spec fn dim_rgb(c: Rgb, level: u8) -> Rgb {
    Rgb { r: dim(c.r, level), g: dim(c.g, level), b: dim(c.b, level) }
}

/// What the light shows for a status at a brightness level.
pub open spec fn shown(s: Status, level: u8) -> Rgb {
    dim_rgb(palette(s), level)
}

impl Status {
    /// The full-brightness color of this status.
    pub fn as_color(&self) -> (c: Rgb)
        ensures
            c == palette(*self),
    {
        match self {
            Status::Booting => Rgb { r: 0xB8, g: 0x86, b: 0x0B },
            Status::BootFailure => Rgb { r: 0xDC, g: 0x14, b: 0x3C },
            Status::Working => Rgb { r: 0x00, g: 0x80, b: 0x00 },
            Status::Sleeping => Rgb { r: 0x00, g: 0x00, b: 0xFF },
            Status::Failure => Rgb { r: 0xFF, g: 0x00, b: 0x00 },
        }
    }
}

/// Relies on smart_leds::brightness: each channel `c` of a pixel becomes
/// `c * (level + 1) / 256`, computed in `u16`.
#[verifier::external_body]
fn scale_brightness(c: Rgb, level: u8) -> (r: Rgb)
    ensures
        r == dim_rgb(c, level),
{
    let px = smart_leds::RGB8 { r: c.r, g: c.g, b: c.b };
    let mut out = smart_leds::brightness([px].into_iter(), level);
    let o = out.next().unwrap_or(px);
    Rgb { r: o.r, g: o.g, b: o.b }
}

/// The status light: a single addressable pixel at a fixed brightness.
pub struct Led {
    brightness: u8,
}

impl Led {
    pub closed spec fn level(&self) -> u8 {
        self.brightness
    }

    pub fn new(brightness: u8) -> (l: Led)
        ensures
            l.level() == brightness,
    {
        Led { brightness }
    }

    pub fn brightness(&self) -> (r: u8)
        ensures
            r == self.level(),
    {
        self.brightness
    }

    /// The pixel value to write to the light for `status`.
    pub fn set_status(&mut self, status: Status) -> (c: Rgb)
        ensures
            c == shown(status, old(self).level()),
            *final(self) == *old(self),
    {
        scale_brightness(status.as_color(), self.brightness)
    }
}

/// The colors that one light shows for a history of published statuses,
/// one `set_status` call per status: each call leaves the light unchanged,
/// so each color is `shown` at the light's level.
pub open spec fn colors_shown(led: Led, history: Seq<Status>) -> Seq<Rgb> {
    history.map_values(|st: Status| shown(st, led.level()))
}

/// Runs `set_status` for each status of `history` in turn, returning the
/// colors written to the light.
pub fn show_all(led: &mut Led, history: &Vec<Status>) -> (r: Vec<Rgb>)
    ensures
        r@ == colors_shown(*old(led), history@),
        *final(led) == *old(led),
{
    let mut r: Vec<Rgb> = Vec::new();
    let mut i: usize = 0;
    while i < history.len()
        invariant
            i <= history.len(),
            *led == *old(led),
            r@ == colors_shown(*old(led), history@.take(i as int)),
        decreases history.len() - i,
    {
        let c = led.set_status(history[i]);
        r.push(c);
        i = i + 1;
        assert(r@ =~= colors_shown(*old(led), history@.take(i as int)));
    }
    assert(history@.take(i as int) =~= history@);
    r
}

/// The color is a function of the latest published status alone: within any
/// history of statuses shown on one light, two publications of the same
/// status give the same color, whatever came between them.
pub proof fn lemma_color_of_latest(led: Led, history: Seq<Status>, i: int, j: int)
    requires
        0 <= i < history.len(),
        0 <= j < history.len(),
        history[i] == history[j],
    ensures
        colors_shown(led, history)[i] == colors_shown(led, history)[j],
        colors_shown(led, history)[j] == shown(history[j], led.level()),
{
}

/// Distinct statuses are shown in distinct colors at full brightness.
pub proof fn lemma_palette_distinct(a: Status, b: Status)
    requires
        a != b,
    ensures
        palette(a) != palette(b),
{
}

} // verus!
