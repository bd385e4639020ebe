//! A chat-driven paint brush: command text from a chat stream selects the
//! brush's shape, size and color, which a render loop then paints each frame.
pub mod brush;
pub mod color;
pub mod command;
pub mod frame;
pub mod laws;
pub mod text;

pub use command::{interpret, interpret_given, parse_color_triple, Command};
pub use frame::Primitive;
pub use laws::{lemma_ball_bigball_bigball, lemma_named_color, lemma_plum, lemma_unknown_text_is_ignored};

pub use brush::{Anchor, BrushSize, BrushState, BrushVariant, Direction, Pointer, Segment};
pub use color::Rgb;

pub use text::{byte_values_of, chars_of, is_whitespace};
