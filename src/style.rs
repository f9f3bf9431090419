use ansi_term::Colour;
use ansi_term::Style;
use vstd::prelude::*;

verus! {

/// The terminal styles the prompt uses.
#[derive(PartialEq, Eq, Structural, Clone, Copy, Debug)]
pub enum Look {
    /// No styling at all.
    Plain,
    Bold,
    /// Light grey, dimmed.
    DimGrey,
    Italic,
    RedBoldItalic,
    Green,
    Red,
    RedBold,
    /// Red, bold and with foreground and background swapped.
    RedBoldReverse,
}

/// The terminal text that shows `text` in `look`.
pub uninterp spec fn painted(look: Look, text: Seq<char>) -> Seq<char>;

/// Relies on ansi_term's `Style::paint` and the `Display` of the string it returns:
/// the style's prefix, the text, then the style's suffix. The default style has an
/// empty prefix and suffix, so a plain look leaves the text as it is.
#[verifier::external_body]
pub(crate) fn paint(look: Look, text: &str) -> (r: String)
    ensures
        r@ == painted(look, text@),
        look == Look::Plain ==> r@ == text@,
{
    let style = match look {
        Look::Plain => Style::default(),
        Look::Bold => Style::default().bold(),
        Look::DimGrey => Colour::Fixed(7).dimmed(),
        Look::Italic => Style::default().italic(),
        Look::RedBoldItalic => Colour::Red.bold().italic(),
        Look::Green => Colour::Green.normal(),
        Look::Red => Colour::Red.normal(),
        Look::RedBold => Colour::Red.bold(),
        Look::RedBoldReverse => Colour::Red.bold().reverse(),
    };
    style.paint(text).to_string()
}

} // verus!
