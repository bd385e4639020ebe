use vstd::prelude::*;

use crate::color::{cornflowerblue, cornflowerblue_spec, Rgb};
use crate::command::{command_of, interpret, Command};

verus! {

/// The shape that the brush paints.
#[derive(Clone, Copy, Debug, PartialEq, Eq, Structural)]
pub enum BrushVariant {
    Ball,
    Line,
    /// A ball whose radius oscillates with time.
    FunBall,
    /// A line whose weight and end oscillate with time.
    FunLine,
}

/// The direction that a line command gives to the segment.
#[derive(Clone, Copy, Debug, PartialEq, Eq, Structural)]
pub enum Direction {
    /// From the middle of the top edge to the middle of the bottom edge.
    Vertical,
    /// From the middle of the left edge to the middle of the right edge.
    Horizontal,
    /// From the top right corner to the bottom left corner.
    ForwardSlash,
    /// From the top left corner to the bottom right corner.
    BackSlash,
}

/// A corner or an edge midpoint of the window.
#[derive(Clone, Copy, Debug, PartialEq, Eq, Structural)]
pub enum Anchor {
    TopLeft,
    TopRight,
    BottomLeft,
    BottomRight,
    MidTop,
    MidBottom,
    MidLeft,
    MidRight,
}

/// The pointer position in whole window-local pixels, the origin at the
/// window's centre.
#[derive(Clone, Copy, Debug, PartialEq, Eq, Structural)]
pub struct Pointer {
    pub x: i32,
    pub y: i32,
}

/// A line segment whose ends are window anchors, each multiplied by a scale:
/// the point painted is `anchor * scale` in window coordinates.
#[derive(Clone, Copy, Debug, PartialEq, Eq, Structural)]
pub struct Segment {
    pub start: Anchor,
    pub start_scale: i32,
    pub end: Anchor,
    pub end_scale: i32,
}

/// Smallest exponent of two in a size.
pub const MIN_TWOS: i32 = -24;

/// Largest exponent of two in a size.
pub const MAX_TWOS: i32 = 24;

/// Largest exponent of three in a size.
pub const MAX_THREES: i32 = 24;

/// A brush size, exactly: `BASE_SIZE * 2^twos * 3^threes`, where the base size
/// is 0.3. Ball radii are that many window widths; line weights that many
/// pixels. The exponents stay within `MIN_TWOS..=MAX_TWOS` and
/// `0..=MAX_THREES`, so a size is always positive and finite: a scaling command
/// that would leave that range leaves the size as it is.
#[derive(Clone, Copy, Debug, PartialEq, Eq, Structural)]
pub struct BrushSize {
    pub twos: i32,
    pub threes: i32,
}

pub open spec fn size_in_range(twos: int, threes: int) -> bool {
    MIN_TWOS <= twos <= MAX_TWOS && 0 <= threes <= MAX_THREES
}

pub open spec fn pow_nat(b: nat, e: nat) -> nat
    decreases e,
{
    if e == 0 {
        1
    } else {
        b * pow_nat(b, (e - 1) as nat)
    }
}

impl BrushSize {
    pub open spec fn wf(self) -> bool {
        size_in_range(self.twos as int, self.threes as int)
    }

    /// Numerator of the size over the base size.
    pub open spec fn numer(self) -> nat {
        pow_nat(2, if self.twos >= 0 { self.twos as nat } else { 0 }) * pow_nat(
            3,
            if self.threes >= 0 { self.threes as nat } else { 0 },
        )
    }

    /// Denominator of the size over the base size.
    pub open spec fn denom(self) -> nat {
        pow_nat(2, if self.twos < 0 { (-self.twos) as nat } else { 0 })
    }

    /// The size multiplied by `2^twos * 3^threes`, or left as it is where the
    /// product would leave the range.
    pub open spec fn scaled(self, twos: int, threes: int) -> BrushSize {
        if size_in_range(self.twos + twos, self.threes + threes) {
            BrushSize { twos: (self.twos + twos) as i32, threes: (self.threes + threes) as i32 }
        } else {
            self
        }
    }

    /// The base size.
    pub fn base() -> (r: BrushSize)
        ensures
            r == (BrushSize { twos: 0, threes: 0 }),
            r.wf(),
    {
        BrushSize { twos: 0, threes: 0 }
    }

    pub fn scale(&self, twos: i32, threes: i32) -> (r: BrushSize)
        requires
            self.wf(),
            -1 <= twos <= 1,
            0 <= threes <= 1,
        ensures
            r == self.scaled(twos as int, threes as int),
            r.wf(),
    {
        let t: i32 = self.twos + twos;
        let h: i32 = self.threes + threes;
        if MIN_TWOS <= t && t <= MAX_TWOS && 0 <= h && h <= MAX_THREES {
            BrushSize { twos: t, threes: h }
        } else {
            *self
        }
    }
}

/// The whole state of the brush.
#[derive(Clone, Copy, Debug, PartialEq, Eq, Structural)]
pub struct BrushState {
    pub variant: BrushVariant,
    pub size: BrushSize,
    pub color: Rgb,
    /// The segment that a `Line` brush paints.
    pub segment: Segment,
}

pub open spec fn segment_for(d: Direction, p: Pointer) -> Segment {
    let (start, end) = match d {
        Direction::Vertical => (Anchor::MidTop, Anchor::MidBottom),
        Direction::Horizontal => (Anchor::MidLeft, Anchor::MidRight),
        Direction::ForwardSlash => (Anchor::TopRight, Anchor::BottomLeft),
        Direction::BackSlash => (Anchor::TopLeft, Anchor::BottomRight),
    };
    Segment { start, start_scale: p.x, end, end_scale: p.y }
}

/// The segment that direction `d` gives with the pointer at `p`: its start
/// anchor scaled by the pointer's x, its end anchor by the pointer's y.
pub fn segment_toward(d: Direction, p: Pointer) -> (r: Segment)
    ensures
        r == segment_for(d, p),
{
    let (start, end) = match d {
        Direction::Vertical => (Anchor::MidTop, Anchor::MidBottom),
        Direction::Horizontal => (Anchor::MidLeft, Anchor::MidRight),
        Direction::ForwardSlash => (Anchor::TopRight, Anchor::BottomLeft),
        Direction::BackSlash => (Anchor::TopLeft, Anchor::BottomRight),
    };
    Segment { start, start_scale: p.x, end, end_scale: p.y }
}

impl BrushState {
    pub open spec fn wf(self) -> bool {
        self.size.wf()
    }

    pub open spec fn initial() -> BrushState {
        BrushState {
            variant: BrushVariant::Line,
            size: BrushSize { twos: 0, threes: 0 },
            color: cornflowerblue_spec(),
            segment: Segment {
                start: Anchor::TopLeft,
                start_scale: 1,
                end: Anchor::BottomRight,
                end_scale: 1,
            },
        }
    }

    /// The brush at startup: a cornflower-blue line of the base size, from the
    /// top left corner to the bottom right corner.
    pub fn new() -> (r: BrushState)
        ensures
            r == BrushState::initial(),
            r.wf(),
    {
        BrushState {
            variant: BrushVariant::Line,
            size: BrushSize::base(),
            color: cornflowerblue(),
            segment: Segment {
                start: Anchor::TopLeft,
                start_scale: 1,
                end: Anchor::BottomRight,
                end_scale: 1,
            },
        }
    }
}

/// The brush after command `c`, with the pointer at `p`.
pub open spec fn next_state(s: BrushState, c: Command, p: Pointer) -> BrushState {
    match c {
        Command::Shape(v) => BrushState { variant: v, ..s },
        Command::BigBall => BrushState {
            variant: BrushVariant::Ball,
            size: s.size.scaled(-1, 1),
            ..s
        },
        Command::SmallBall => BrushState {
            variant: BrushVariant::Ball,
            size: s.size.scaled(-1, 0),
            ..s
        },
        Command::Grow => BrushState { size: s.size.scaled(1, 0), ..s },
        Command::Shrink => BrushState { size: s.size.scaled(-1, 0), ..s },
        Command::Aim(d) => BrushState { segment: segment_for(d, p), ..s },
        Command::Paint(color) => BrushState { color, ..s },
        Command::Ignore => s,
    }
}

/// The brush after command text `text`, with the pointer at `p`.
pub open spec fn after_text(s: BrushState, text: Seq<char>, p: Pointer) -> BrushState {
    next_state(s, command_of(text), p)
}

impl BrushState {
    /// Carries out command `c`, with the pointer at `p`.
    pub fn apply(&mut self, c: Command, p: Pointer)
        requires
            old(self).wf(),
        ensures
            *final(self) == next_state(*old(self), c, p),
            final(self).wf(),
    {
        match c {
            Command::Shape(v) => {
                self.variant = v;
            },
            Command::BigBall => {
                self.variant = BrushVariant::Ball;
                self.size = self.size.scale(-1, 1);
            },
            Command::SmallBall => {
                self.variant = BrushVariant::Ball;
                self.size = self.size.scale(-1, 0);
            },
            Command::Grow => {
                self.size = self.size.scale(1, 0);
            },
            Command::Shrink => {
                self.size = self.size.scale(-1, 0);
            },
            Command::Aim(d) => {
                self.segment = segment_toward(d, p);
            },
            Command::Paint(color) => {
                self.color = color;
            },
            Command::Ignore => {},
        }
    }

    /// Carries out command text `text`, with the pointer at `p`; text that
    /// means nothing leaves the brush as it is.
    pub fn apply_text(&mut self, text: &str, p: Pointer)
        requires
            old(self).wf(),
        ensures
            *final(self) == after_text(*old(self), text@, p),
            final(self).wf(),
    {
        let c = interpret(text);
        self.apply(c, p);
    }

    /// Carries out the chat message with parameters `params`, whose second
    /// parameter is the command text; a message with fewer than two
    /// parameters leaves the brush as it is.
    pub fn apply_message(&mut self, params: &Vec<String>, p: Pointer)
        requires
            old(self).wf(),
        ensures
            params.len() > 1 ==> *final(self) == after_text(*old(self), params[1]@, p),
            params.len() <= 1 ==> *final(self) == *old(self),
            final(self).wf(),
    {
        if params.len() > 1 {
            self.apply_text(params[1].as_str(), p);
        }
    }
}

} // verus!
