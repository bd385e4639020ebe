use vstd::prelude::*;

use crate::brush::{BrushVariant, Direction};
use crate::color::{lookup_svg_color, plum, plum_spec, rgb_of, svg_color, Rgb};
use crate::text::{byte_values_of, chars_of, color_triple};

verus! {

/// What one line of command text asks of the brush.
#[derive(Clone, Copy, Debug, PartialEq, Eq, Structural)]
pub enum Command {
    /// Switch to another shape.
    Shape(BrushVariant),
    /// Switch to a ball and make it half as large again.
    BigBall,
    /// Switch to a ball and halve its size.
    SmallBall,
    /// Double the size.
    Grow,
    /// Halve the size.
    Shrink,
    /// Point the line in a direction.
    Aim(Direction),
    /// Paint in a color.
    Paint(Rgb),
    /// Nothing to do.
    Ignore,
}

/// The command that an exact keyword names.
pub open spec fn keyword(s: Seq<char>) -> Option<Command> {
    if s == "v"@ {
        Some(Command::Aim(Direction::Vertical))
    } else if s == "h"@ {
        Some(Command::Aim(Direction::Horizontal))
    } else if s == "fs"@ {
        Some(Command::Aim(Direction::ForwardSlash))
    } else if s == "bs"@ {
        Some(Command::Aim(Direction::BackSlash))
    } else if s == "big"@ {
        Some(Command::Grow)
    } else if s == "small"@ {
        Some(Command::Shrink)
    } else if s == "bigball"@ {
        Some(Command::BigBall)
    } else if s == "smallball"@ {
        Some(Command::SmallBall)
    } else if s == "line"@ {
        Some(Command::Shape(BrushVariant::Line))
    } else if s == "ball"@ {
        Some(Command::Shape(BrushVariant::Ball))
    } else if s == "funline"@ {
        Some(Command::Shape(BrushVariant::FunLine))
    } else if s == "funball"@ {
        Some(Command::Shape(BrushVariant::FunBall))
    } else if s == "plum"@ {
        Some(Command::Paint(plum_spec()))
    } else {
        None
    }
}

/// The meaning of command text `s`, where `named` is the keyword color that
/// `s` names, if any: a keyword first, else that color, else three numbers for
/// red, green and blue, else nothing.
pub open spec fn command_given(s: Seq<char>, named: Option<(u8, u8, u8)>) -> Command {
    match keyword(s) {
        Some(c) => c,
        None => match named {
            Some(t) => Command::Paint(rgb_of(t)),
            None => match color_triple(s) {
                Some(t) => Command::Paint(rgb_of(t)),
                None => Command::Ignore,
            },
        },
    }
}

/// The meaning of command text `s`.
pub open spec fn command_of(s: Seq<char>) -> Command {
    command_given(s, svg_color(s))
}

fn same_chars(a: &Vec<char>, b: &Vec<char>) -> (r: bool)
    ensures
        r == (a@ == b@),
{
    if a.len() != b.len() {
        return false;
    }
    let mut i: usize = 0;
    while i < a.len()
        invariant
            a.len() == b.len(),
            i <= a.len(),
            forall|k: int| 0 <= k < i ==> a@[k] == b@[k],
        decreases a.len() - i,
    {
        if a[i] != b[i] {
            return false;
        }
        i = i + 1;
    }
    assert(a@ =~= b@);
    true
}

fn is_text(s: &Vec<char>, word: &str) -> (r: bool)
    ensures
        r == (s@ == word@),
{
    let w = chars_of(word);
    same_chars(s, &w)
}

fn keyword_command(s: &Vec<char>) -> (r: Option<Command>)
    ensures
        r == keyword(s@),
{
    if is_text(s, "v") {
        Some(Command::Aim(Direction::Vertical))
    } else if is_text(s, "h") {
        Some(Command::Aim(Direction::Horizontal))
    } else if is_text(s, "fs") {
        Some(Command::Aim(Direction::ForwardSlash))
    } else if is_text(s, "bs") {
        Some(Command::Aim(Direction::BackSlash))
    } else if is_text(s, "big") {
        Some(Command::Grow)
    } else if is_text(s, "small") {
        Some(Command::Shrink)
    } else if is_text(s, "bigball") {
        Some(Command::BigBall)
    } else if is_text(s, "smallball") {
        Some(Command::SmallBall)
    } else if is_text(s, "line") {
        Some(Command::Shape(BrushVariant::Line))
    } else if is_text(s, "ball") {
        Some(Command::Shape(BrushVariant::Ball))
    } else if is_text(s, "funline") {
        Some(Command::Shape(BrushVariant::FunLine))
    } else if is_text(s, "funball") {
        Some(Command::Shape(BrushVariant::FunBall))
    } else if is_text(s, "plum") {
        Some(Command::Paint(plum()))
    } else {
        None
    }
}

/// Reads red, green and blue from `chars`, where exactly three of its words
/// are 8-bit unsigned integers.
pub fn parse_color_triple(chars: &Vec<char>) -> (r: Option<Rgb>)
    ensures
        r == (match color_triple(chars@) {
            Some(t) => Some(rgb_of(t)),
            None => None,
        }),
{
    let v = byte_values_of(chars);
    if v.len() == 3 {
        Some(Rgb { red: v[0], green: v[1], blue: v[2] })
    } else {
        None
    }
}

/// What command text `text` asks of the brush, where `named` is the keyword
/// color that `text` names, if any.
pub fn interpret_given(text: &str, named: Option<(u8, u8, u8)>) -> (r: Command)
    ensures
        r == command_given(text@, named),
{
    let chars = chars_of(text);
    match keyword_command(&chars) {
        Some(c) => c,
        None => match named {
            Some(t) => Command::Paint(Rgb { red: t.0, green: t.1, blue: t.2 }),
            None => match parse_color_triple(&chars) {
                Some(c) => Command::Paint(c),
                None => Command::Ignore,
            },
        },
    }
}

/// What command text `text` asks of the brush.
pub fn interpret(text: &str) -> (r: Command)
    ensures
        r == command_of(text@),
{
    let named = lookup_svg_color(text);
    interpret_given(text, named)
}

} // verus!
