//! Styled-text rendering of the owner and group columns.

use vstd::prelude::*;

pub mod groups;
pub mod users;

verus! {

/// A terminal colour, as the style model names it. The painting layer
/// maps these onto the escape codes of whatever terminal crate it uses.
#[derive(PartialEq, Eq, Structural, Copy, Clone, Debug)]
pub enum Colour {
    Black,
    Red,
    Green,
    Yellow,
    Blue,
    Purple,
    Cyan,
    White,
    Fixed(u8),
    Rgb(u8, u8, u8),
}

/// The slice of a text style that this core decides: a foreground
/// colour and whether the text is bold.
#[derive(PartialEq, Eq, Structural, Copy, Clone, Debug)]
pub struct Style {
    pub foreground: Option<Colour>,
    pub bold: bool,
}

/// The style applied to the fixed error marker: bold red.
pub open spec fn spec_alert_style() -> Style {
    Style { foreground: Some(Colour::Red), bold: true }
}

/// Build the alert style used for the error marker.
pub fn alert_style() -> (s: Style)
    ensures
        s == spec_alert_style(),
{
    Style { foreground: Some(Colour::Red), bold: true }
}

/// One rendered cell: the text of a column and the style to paint it in.
pub struct RenderedCell {
    pub text: String,
    pub style: Style,
}

/// How the owner and group columns should be written. Accepted by the
/// render operations but not yet applied: resolution always yields the
/// account name, and the numeric form is not implemented.
#[derive(PartialEq, Eq, Structural, Copy, Clone, Debug)]
pub enum UserFormat {
    Name,
    Numeric,
}

} // verus!
