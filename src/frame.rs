use vstd::prelude::*;

use crate::brush::{BrushSize, BrushState, BrushVariant, Segment};
use crate::color::Rgb;

verus! {

/// The one shape that a frame paints, with `t` the seconds since start.
#[derive(Clone, Copy, Debug, PartialEq, Eq, Structural)]
pub enum Primitive {
    /// A filled circle at the pointer, of radius `size` window widths, times
    /// `sin(t)` where `pulsing`.
    Disc { color: Rgb, size: BrushSize, pulsing: bool },
    /// A round-capped line along `segment`, `size` pixels wide.
    Stroke { color: Rgb, size: BrushSize, segment: Segment },
    /// A round-capped line from the top left corner times the pointer's x to
    /// the bottom right corner times `cos(t)`, `10 + 90 * (0.5 + 0.5 * sin(t))`
    /// pixels wide.
    Wave { color: Rgb },
}

pub open spec fn primitive_of(s: BrushState) -> Primitive {
    match s.variant {
        BrushVariant::Ball => Primitive::Disc { color: s.color, size: s.size, pulsing: false },
        BrushVariant::FunBall => Primitive::Disc { color: s.color, size: s.size, pulsing: true },
        BrushVariant::Line => Primitive::Stroke {
            color: s.color,
            size: s.size,
            segment: s.segment,
        },
        BrushVariant::FunLine => Primitive::Wave { color: s.color },
    }
}

impl BrushState {
    /// The shape to paint this frame, chosen by the brush's variant.
    pub fn frame_primitive(&self) -> (r: Primitive)
        ensures
            r == primitive_of(*self),
    {
        match self.variant {
            BrushVariant::Ball => Primitive::Disc { color: self.color, size: self.size, pulsing: false },
            BrushVariant::FunBall => Primitive::Disc {
                color: self.color,
                size: self.size,
                pulsing: true,
            },
            BrushVariant::Line => Primitive::Stroke {
                color: self.color,
                size: self.size,
                segment: self.segment,
            },
            BrushVariant::FunLine => Primitive::Wave { color: self.color },
        }
    }
}

} // verus!
