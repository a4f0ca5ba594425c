//! Tray icon states: the status and tooltip texts, and the icons drawn in
//! code as RGBA pixels (an outline-free disc for idle and recording, a
//! square for errors).
use crate::engine::State;
use crate::text::truncated;
use vstd::prelude::*;

pub use crate::text::truncate;

verus! {

pub const ICON_SIZE_16: u32 = 16;

pub const ICON_SIZE_32: u32 = 32;

/// The size of the icon the tray shows.
pub const ICON_SIZE: u32 = ICON_SIZE_32;

/// Each pixel is sampled on a 4 × 4 grid for anti-aliasing.
pub const SAMPLES_PER_AXIS: u32 = 4;

pub const MAX_STATUS_CHARS: usize = 80;

pub const MAX_TOOLTIP_CHARS: usize = 120;

#[derive(Debug, Clone, PartialEq, Eq)]
pub enum TrayState {
    Idle,
    NoSpeech,
    Recording,
    Finalizing,
    Error(String),
}

impl TrayState {
    /// The tray state that shows the engine's state.
    pub fn from_engine(state: &State) -> (t: Self)
        ensures
            match *state {
                State::Idle => t is Idle,
                State::Recording { .. } => t is Recording,
                State::Finalizing { .. } => t is Finalizing,
                State::Error { message } => t matches TrayState::Error(m) && m@ == message@,
            },
    {
        match state {
            State::Idle => TrayState::Idle,
            State::Recording { .. } => TrayState::Recording,
            State::Finalizing { .. } => TrayState::Finalizing,
            State::Error { message } => TrayState::Error(message.clone()),
        }
    }

    /// Only the idle icons are template images (drawn in the menu bar's
    /// own colour).
    pub fn is_template(&self) -> (b: bool)
        ensures
            b == (*self is Idle || *self is NoSpeech),
    {
        match self {
            TrayState::Idle | TrayState::NoSpeech => true,
            _ => false,
        }
    }
}

pub open spec fn status_line(state: TrayState) -> Seq<char> {
    match state {
        TrayState::Idle | TrayState::NoSpeech => "Status: Idle"@,
        TrayState::Recording => "Status: Recording"@,
        TrayState::Finalizing => "Status: Finalizing"@,
        TrayState::Error(m) => "Status: Error: "@ + truncated(m@, MAX_STATUS_CHARS as nat),
    }
}

/// The text of the disabled status row of the menu.
pub fn status_text(state: &TrayState) -> (s: String)
    ensures
        s@ == status_line(*state),
{
    let mut s = String::new();
    match state {
        TrayState::Idle | TrayState::NoSpeech => s.push_str("Status: Idle"),
        TrayState::Recording => s.push_str("Status: Recording"),
        TrayState::Finalizing => s.push_str("Status: Finalizing"),
        TrayState::Error(message) => {
            s.push_str("Status: Error: ");
            let short = truncate(message.as_str(), MAX_STATUS_CHARS);
            s.push_str(short.as_str());
        },
    }
    s
}

pub open spec fn tooltip_line(state: TrayState) -> Seq<char> {
    match state {
        TrayState::Idle => "Voice Journal \u{2014} Idle"@,
        TrayState::NoSpeech => "No speech detected"@,
        TrayState::Recording => "Voice Journal \u{2014} Recording"@,
        TrayState::Finalizing => "Voice Journal \u{2014} Finalizing"@,
        TrayState::Error(m) => "Voice Journal \u{2014} Error: "@ + truncated(
            m@,
            MAX_TOOLTIP_CHARS as nat,
        ),
    }
}

/// The icon's tooltip.
pub fn tooltip_text(state: &TrayState) -> (s: String)
    ensures
        s@ == tooltip_line(*state),
{
    let mut s = String::new();
    match state {
        TrayState::Idle => s.push_str("Voice Journal \u{2014} Idle"),
        TrayState::NoSpeech => s.push_str("No speech detected"),
        TrayState::Recording => s.push_str("Voice Journal \u{2014} Recording"),
        TrayState::Finalizing => s.push_str("Voice Journal \u{2014} Finalizing"),
        TrayState::Error(message) => {
            s.push_str("Voice Journal \u{2014} Error: ");
            let short = truncate(message.as_str(), MAX_TOOLTIP_CHARS);
            s.push_str(short.as_str());
        },
    }
    s
}

/// The icon's colour: black (as a template) when idle, red while
/// recording or finalizing, orange on errors.
pub open spec fn icon_color(state: TrayState) -> Seq<u8> {
    match state {
        TrayState::Idle | TrayState::NoSpeech => seq![0u8, 0u8, 0u8],
        TrayState::Recording | TrayState::Finalizing => seq![255u8, 59u8, 48u8],
        TrayState::Error(_) => seq![255u8, 149u8, 0u8],
    }
}

/// Whether sample `(sx, sy)` of pixel `(x, y)` lies in the icon's shape.
/// The sample sits at `(x + (sx + ½) / 4, y + (sy + ½) / 4)`; the disc has
/// its centre at `size / 2` and radius `size / 2 - 1`. Measured in eighths
/// of a pixel every coordinate is an integer.
pub open spec fn sample_inside(state: TrayState, size: int, x: int, y: int, sx: int, sy: int) -> bool {
    if state is Error {
        true
    } else {
        let center = 4 * size;
        let radius = 4 * size - 8;
        let dx = 8 * x + 2 * sx + 1 - center;
        let dy = 8 * y + 2 * sy + 1 - center;
        dx * dx + dy * dy <= radius * radius
    }
}

/// Samples inside the shape among the first `n` of row `sy`.
pub open spec fn row_hits(state: TrayState, size: int, x: int, y: int, sy: int, n: nat) -> nat
    decreases n,
{
    if n == 0 {
        0
    } else {
        row_hits(state, size, x, y, sy, (n - 1) as nat) + if sample_inside(
            state,
            size,
            x,
            y,
            n - 1,
            sy,
        ) {
            1nat
        } else {
            0nat
        }
    }
}

/// Samples inside the shape among the first `m` rows of the grid.
pub open spec fn hits(state: TrayState, size: int, x: int, y: int, m: nat) -> nat
    decreases m,
{
    if m == 0 {
        0
    } else {
        hits(state, size, x, y, (m - 1) as nat) + row_hits(state, size, x, y, m - 1, 4)
    }
}

/// The four bytes of pixel `(x, y)`: the colour, and an opacity
/// proportional to the samples inside the shape.
pub open spec fn pixel(state: TrayState, size: int, x: int, y: int) -> Seq<u8> {
    icon_color(state).push((hits(state, size, x, y, 4) * 255 / 16) as u8)
}

/// The first `n` pixels of the icon, row by row.
pub open spec fn icon_prefix(state: TrayState, size: nat, n: nat) -> Seq<u8>
    decreases n,
{
    if n == 0 || size == 0 {
        Seq::empty()
    } else {
        icon_prefix(state, size, (n - 1) as nat) + pixel(
            state,
            size as int,
            (n - 1) % (size as int),
            (n - 1) / (size as int),
        )
    }
}

fn color_of(state: &TrayState) -> (c: (u8, u8, u8))
    ensures
        seq![c.0, c.1, c.2] == icon_color(*state),
{
    match state {
        TrayState::Idle | TrayState::NoSpeech => (0, 0, 0),
        TrayState::Recording | TrayState::Finalizing => (255, 59, 48),
        TrayState::Error(_) => (255, 149, 0),
    }
}

fn inside(state: &TrayState, size: u32, x: u32, y: u32, sx: u32, sy: u32) -> (b: bool)
    requires
        size <= 0x8000,
        x < size,
        y < size,
        sx < 4,
        sy < 4,
    ensures
        b == sample_inside(*state, size as int, x as int, y as int, sx as int, sy as int),
{
    if let TrayState::Error(_) = state {
        return true;
    }
    let center: i64 = 4 * size as i64;
    let radius: i64 = 4 * size as i64 - 8;
    let dx: i64 = 8 * x as i64 + 2 * sx as i64 + 1 - center;
    let dy: i64 = 8 * y as i64 + 2 * sy as i64 + 1 - center;
    assert(-0x20_0000 <= dx <= 0x20_0000);
    assert(-0x20_0000 <= dy <= 0x20_0000);
    assert(-0x20_0000 <= radius <= 0x20_0000);
    assert(dx * dx <= 0x400_0000_0000) by (nonlinear_arith)
        requires
            -0x20_0000 <= dx <= 0x20_0000,
    ;
    assert(dy * dy <= 0x400_0000_0000) by (nonlinear_arith)
        requires
            -0x20_0000 <= dy <= 0x20_0000,
    ;
    assert(radius * radius <= 0x400_0000_0000) by (nonlinear_arith)
        requires
            -0x20_0000 <= radius <= 0x20_0000,
    ;
    assert(dx * dx >= 0) by (nonlinear_arith);
    assert(dy * dy >= 0) by (nonlinear_arith);
    assert(radius * radius >= 0) by (nonlinear_arith);
    let dx2: i64 = dx * dx;
    let dy2: i64 = dy * dy;
    let r2: i64 = radius * radius;
    dx2 + dy2 <= r2
}

/// The icon for `state` as `size × size` RGBA pixels, row by row.
pub fn rgba_icon(state: &TrayState, size: u32) -> (rgba: Vec<u8>)
    requires
        size * size <= 0x4000_0000,
    ensures
        rgba@ == icon_prefix(*state, size as nat, (size * size) as nat),
        rgba@.len() == size * size * 4,
{
    let (r, g, b) = color_of(state);
    let mut rgba: Vec<u8> = Vec::new();
    if size == 0 {
        return rgba;
    }
    assert(size <= 0x8000) by (nonlinear_arith)
        requires
            size * size <= 0x4000_0000,
    ;
    let mut y: u32 = 0;
    while y < size
        invariant
            0 < size <= 0x8000,
            y <= size,
            rgba@ == icon_prefix(*state, size as nat, (y * size) as nat),
            seq![r, g, b] == icon_color(*state),
        decreases size - y,
    {
        let mut x: u32 = 0;
        while x < size
            invariant
                0 < size <= 0x8000,
                y < size,
                x <= size,
                rgba@ == icon_prefix(*state, size as nat, (y * size + x) as nat),
                seq![r, g, b] == icon_color(*state),
            decreases size - x,
        {
            assert(y * size + x < 0x4000_0000) by (nonlinear_arith)
                requires
                    y < size,
                    x < size,
                    size <= 0x8000,
            ;
            let mut count: u32 = 0;
            let mut sy: u32 = 0;
            while sy < SAMPLES_PER_AXIS
                invariant
                    0 < size <= 0x8000,
                    x < size,
                    y < size,
                    sy <= 4,
                    count == hits(*state, size as int, x as int, y as int, sy as nat),
                    count <= 4 * sy,
                decreases 4 - sy,
            {
                let mut row: u32 = 0;
                let mut sx: u32 = 0;
                while sx < SAMPLES_PER_AXIS
                    invariant
                        0 < size <= 0x8000,
                        x < size,
                        y < size,
                        sy < 4,
                        sx <= 4,
                        row == row_hits(
                            *state,
                            size as int,
                            x as int,
                            y as int,
                            sy as int,
                            sx as nat,
                        ),
                        row <= sx,
                    decreases 4 - sx,
                {
                    if inside(state, size, x, y, sx, sy) {
                        row = row + 1;
                    }
                    sx = sx + 1;
                }
                count = count + row;
                sy = sy + 1;
            }
            let alpha: u8 = (count * 255 / 16) as u8;
            proof {
                let n = (y * size + x) as nat;
                vstd::arithmetic::div_mod::lemma_fundamental_div_mod_converse(
                    n as int,
                    size as int,
                    y as int,
                    x as int,
                );
                assert(icon_prefix(*state, size as nat, n + 1) == icon_prefix(
                    *state,
                    size as nat,
                    n,
                ) + pixel(*state, size as int, x as int, y as int));
            }
            rgba.push(r);
            rgba.push(g);
            rgba.push(b);
            rgba.push(alpha);
            proof {
                let p = pixel(*state, size as int, x as int, y as int);
                assert(p =~= seq![r, g, b, alpha]);
            }
            assert(rgba@ =~= icon_prefix(*state, size as nat, (y * size + x + 1) as nat));
            x = x + 1;
        }
        assert((y * size + size) == (y + 1) * size) by (nonlinear_arith);
        y = y + 1;
    }
    proof {
        lemma_icon_prefix_len(*state, size as nat, (size * size) as nat);
    }
    rgba
}

proof fn lemma_icon_prefix_len(state: TrayState, size: nat, n: nat)
    requires
        size > 0,
    ensures
        icon_prefix(state, size, n).len() == 4 * n,
    decreases n,
{
    if n > 0 {
        lemma_icon_prefix_len(state, size, (n - 1) as nat);
    }
}

/// The tooltip of each engine state names that state, so that idle,
/// recording, finalizing and failed engines never share one.
pub proof fn law_tooltip_names_the_engine_state(state: State)
    ensures
        match state {
            State::Idle => tooltip_line(TrayState::Idle) == "Voice Journal \u{2014} Idle"@,
            State::Recording { .. } => tooltip_line(TrayState::Recording)
                == "Voice Journal \u{2014} Recording"@,
            State::Finalizing { .. } => tooltip_line(TrayState::Finalizing)
                == "Voice Journal \u{2014} Finalizing"@,
            State::Error { message } => tooltip_line(TrayState::Error(message))
                == "Voice Journal \u{2014} Error: "@ + truncated(message@, 120),
        },
        tooltip_line(TrayState::Idle) != tooltip_line(TrayState::Recording),
        tooltip_line(TrayState::Idle) != tooltip_line(TrayState::Finalizing),
        tooltip_line(TrayState::Recording) != tooltip_line(TrayState::Finalizing),
{
    reveal_strlit("Voice Journal \u{2014} Idle");
    reveal_strlit("Voice Journal \u{2014} Recording");
    reveal_strlit("Voice Journal \u{2014} Finalizing");
    let idle = tooltip_line(TrayState::Idle);
    let recording = tooltip_line(TrayState::Recording);
    let finalizing = tooltip_line(TrayState::Finalizing);
    assert(idle.len() != recording.len());
    assert(idle.len() != finalizing.len());
    assert(recording[16] != finalizing[16]);
}

} // verus!
