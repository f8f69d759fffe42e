//! Styles made into terminal decoration.
//!
//! The library decides the style of every text; here the style is handed
//! over, piece by piece, to the `colored` crate, whose value the display
//! prints. Of that value two things are spoken of: the text that it holds,
//! and the style that it holds, in the library's own terms.

use crate::cli::{plain_style, Colour, Style};
use colored::{ColoredString, Colorize};
use vstd::prelude::*;
use vstd::string::*;

verus! {

/// `colored::ColoredString`, a text together with its decoration, carried
/// through as it is.
#[verifier::external_type_specification]
#[verifier::external_body]
pub struct ExColoredString(ColoredString);

/// The text that a decorated value holds (its field `input`).
pub uninterp spec fn painted_text(painted: ColoredString) -> Seq<char>;

/// The decoration that a decorated value holds, as a style: its foreground
/// and background colours (its fields `fgcolor` and `bgcolor`) and, of its
/// field `style`, the switches for bold, dimmed, italic, underline and
/// strikethrough.
pub uninterp spec fn painted_style(painted: ColoredString) -> Style;

/// The name of a colour.
pub open spec fn colour_name_text(colour: Colour) -> Seq<char> {
    match colour {
        Colour::Black => "black"@,
        Colour::Red => "red"@,
        Colour::Green => "green"@,
        Colour::Blue => "blue"@,
        Colour::Magenta => "magenta"@,
        Colour::BrightBlack => "bright black"@,
        Colour::BrightRed => "bright red"@,
        Colour::BrightGreen => "bright green"@,
        Colour::BrightWhite => "bright white"@,
    }
}

/// The colour that a name stands for, if it is the name of one.
pub open spec fn named_colour(name: Seq<char>) -> Option<Colour> {
    if name == "black"@ {
        Some(Colour::Black)
    } else if name == "red"@ {
        Some(Colour::Red)
    } else if name == "green"@ {
        Some(Colour::Green)
    } else if name == "blue"@ {
        Some(Colour::Blue)
    } else if name == "magenta"@ {
        Some(Colour::Magenta)
    } else if name == "bright black"@ {
        Some(Colour::BrightBlack)
    } else if name == "bright red"@ {
        Some(Colour::BrightRed)
    } else if name == "bright green"@ {
        Some(Colour::BrightGreen)
    } else if name == "bright white"@ {
        Some(Colour::BrightWhite)
    } else {
        None
    }
}

/// Calls `Colorize::normal` on a `&str`. By the crate's source the value
/// holds a copy of the text, no colour and no emphasis.
#[verifier::external_body]
fn undecorated(text: &str) -> (out: ColoredString)
    ensures
        painted_text(out) == text@,
        painted_style(out) == plain_style(),
{
    text.normal()
}

/// Calls `Colorize::color` with the colour given by name. By the crate's
/// source the name is read in lower case, each of the nine names here as the
/// colour it names, and the value's foreground is set to that colour;
/// nothing else of the value changes.
#[verifier::external_body]
fn with_foreground(text: ColoredString, name: &str) -> (out: ColoredString)
    requires
        named_colour(name@) is Some,
    ensures
        painted_text(out) == painted_text(text),
        painted_style(out) == (Style { foreground: named_colour(name@), ..painted_style(text) }),
{
    text.color(name)
}

/// Calls `Colorize::on_color` with the colour given by name. By the crate's
/// source the name is read as for the foreground, and the value's background
/// is set to that colour; nothing else of the value changes.
#[verifier::external_body]
fn with_background(text: ColoredString, name: &str) -> (out: ColoredString)
    requires
        named_colour(name@) is Some,
    ensures
        painted_text(out) == painted_text(text),
        painted_style(out) == (Style { background: named_colour(name@), ..painted_style(text) }),
{
    text.on_color(name)
}

/// Calls `Colorize::bold`. By the crate's source the switch for bold is
/// turned on; nothing else of the value changes.
#[verifier::external_body]
fn with_bold(text: ColoredString) -> (out: ColoredString)
    ensures
        painted_text(out) == painted_text(text),
        painted_style(out) == (Style { bold: true, ..painted_style(text) }),
{
    text.bold()
}

/// Calls `Colorize::dimmed`. By the crate's source the switch for dimmed is
/// turned on; nothing else of the value changes.
#[verifier::external_body]
fn with_dimmed(text: ColoredString) -> (out: ColoredString)
    ensures
        painted_text(out) == painted_text(text),
        painted_style(out) == (Style { dimmed: true, ..painted_style(text) }),
{
    text.dimmed()
}

/// Calls `Colorize::italic`. By the crate's source the switch for italic is
/// turned on; nothing else of the value changes.
#[verifier::external_body]
fn with_italic(text: ColoredString) -> (out: ColoredString)
    ensures
        painted_text(out) == painted_text(text),
        painted_style(out) == (Style { italic: true, ..painted_style(text) }),
{
    text.italic()
}

/// Calls `Colorize::underline`. By the crate's source the switch for
/// underline is turned on; nothing else of the value changes.
#[verifier::external_body]
fn with_underline(text: ColoredString) -> (out: ColoredString)
    ensures
        painted_text(out) == painted_text(text),
        painted_style(out) == (Style { underline: true, ..painted_style(text) }),
{
    text.underline()
}

/// Calls `Colorize::strikethrough`. By the crate's source the switch for
/// strikethrough is turned on; nothing else of the value changes.
#[verifier::external_body]
fn with_strikethrough(text: ColoredString) -> (out: ColoredString)
    ensures
        painted_text(out) == painted_text(text),
        painted_style(out) == (Style { strikethrough: true, ..painted_style(text) }),
{
    text.strikethrough()
}

/// Every colour's name stands for that colour and for no other.
pub proof fn lemma_colour_names(colour: Colour)
    ensures
        named_colour(colour_name_text(colour)) == Some(colour),
{
    reveal_strlit("black");
    reveal_strlit("red");
    reveal_strlit("green");
    reveal_strlit("blue");
    reveal_strlit("magenta");
    reveal_strlit("bright black");
    reveal_strlit("bright red");
    reveal_strlit("bright green");
    reveal_strlit("bright white");
    assert("black"@.len() == 5 && "red"@.len() == 3 && "green"@.len() == 5);
    assert("blue"@.len() == 4 && "magenta"@.len() == 7 && "bright red"@.len() == 10);
    assert("bright black"@.len() == 12 && "bright green"@.len() == 12);
    assert("bright white"@.len() == 12);
    assert("black"@[0] == 'b' && "green"@[0] == 'g');
    assert("bright black"@[7] == 'b' && "bright green"@[7] == 'g');
    assert("bright white"@[7] == 'w');
}

/// The name of a colour, in lower case, `bright` before the bright ones.
pub fn colour_name(colour: Colour) -> (name: &'static str)
    ensures
        name@ == colour_name_text(colour),
        named_colour(name@) == Some(colour),
{
    proof {
        lemma_colour_names(colour);
    }
    match colour {
        Colour::Black => "black",
        Colour::Red => "red",
        Colour::Green => "green",
        Colour::Blue => "blue",
        Colour::Magenta => "magenta",
        Colour::BrightBlack => "bright black",
        Colour::BrightRed => "bright red",
        Colour::BrightGreen => "bright green",
        Colour::BrightWhite => "bright white",
    }
}

/// The text in the given style, as the display prints it: the value holds
/// the text as it is, and of decoration exactly what the style asks for.
pub fn decorate(text: &str, style: Style) -> (out: ColoredString)
    ensures
        painted_text(out) == text@,
        painted_style(out) == style,
{
    let mut out = undecorated(text);
    match style.foreground {
        Some(colour) => {
            out = with_foreground(out, colour_name(colour));
        },
        None => {},
    }
    match style.background {
        Some(colour) => {
            out = with_background(out, colour_name(colour));
        },
        None => {},
    }
    if style.bold {
        out = with_bold(out);
    }
    if style.dimmed {
        out = with_dimmed(out);
    }
    if style.italic {
        out = with_italic(out);
    }
    if style.underline {
        out = with_underline(out);
    }
    if style.strikethrough {
        out = with_strikethrough(out);
    }
    out
}

} // verus!
