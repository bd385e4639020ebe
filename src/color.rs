use vstd::prelude::*;

verus! {

/// A color as three 8-bit channels.
#[derive(Clone, Copy, Debug, PartialEq, Eq, Structural)]
pub struct Rgb {
    pub red: u8,
    pub green: u8,
    pub blue: u8,
}

impl Rgb {
    pub fn new(red: u8, green: u8, blue: u8) -> (c: Rgb)
        ensures
            c == (Rgb { red, green, blue }),
    {
        Rgb { red, green, blue }
    }
}

pub open spec fn rgb_of(t: (u8, u8, u8)) -> Rgb {
    Rgb { red: t.0, green: t.1, blue: t.2 }
}

/// The SVG/CSS3 keyword color called `name`, if there is one.
pub uninterp spec fn svg_color(name: Seq<char>) -> Option<(u8, u8, u8)>;

/// The keyword color plum.
pub open spec fn plum_spec() -> Rgb {
    Rgb { red: 221, green: 160, blue: 221 }
}

/// The keyword color cornflowerblue.
pub open spec fn cornflowerblue_spec() -> Rgb {
    Rgb { red: 100, green: 149, blue: 237 }
}

/// Relies on `palette::named::from_str`: looks `name` up, exactly as written,
/// in the table of SVG/CSS3 keyword colors (whose names are lower case).
#[verifier::external_body]
pub(crate) fn lookup_svg_color(name: &str) -> (r: Option<(u8, u8, u8)>)
    ensures
        r == svg_color(name@),
{
    match palette::named::from_str(name) {
        Some(c) => Some((c.red, c.green, c.blue)),
        None => None,
    }
}

/// Relies on `palette::named::PLUM`, which is (221, 160, 221).
#[verifier::external_body]
pub(crate) fn plum() -> (c: Rgb)
    ensures
        c == plum_spec(),
{
    let c = palette::named::PLUM;
    Rgb { red: c.red, green: c.green, blue: c.blue }
}

/// Relies on `palette::named::CORNFLOWERBLUE`, which is (100, 149, 237).
#[verifier::external_body]
pub(crate) fn cornflowerblue() -> (c: Rgb)
    ensures
        c == cornflowerblue_spec(),
{
    let c = palette::named::CORNFLOWERBLUE;
    Rgb { red: c.red, green: c.green, blue: c.blue }
}

} // verus!
