use vstd::prelude::*;

use ansi_term::Colour;

verus! {

#[verifier::external_type_specification]
#[verifier::external_body]
pub struct ExColour(ansi_term::Colour);

/// A text style: optional foreground and background colours and a set of
/// attributes, drawn with ANSI escape codes.
#[derive(Clone, Copy, Debug, PartialEq)]
pub struct Style {
    pub foreground: Option<Colour>,
    pub background: Option<Colour>,
    pub is_bold: bool,
    pub is_dimmed: bool,
    pub is_italic: bool,
    pub is_underline: bool,
    pub is_blink: bool,
    pub is_reverse: bool,
    pub is_hidden: bool,
    pub is_strikethrough: bool,
}

impl Style {
    /// The style with the given foreground colour and nothing else.
    pub open spec fn foreground_spec(foreground: Option<Colour>) -> Style {
        Style {
            foreground,
            background: None,
            is_bold: false,
            is_dimmed: false,
            is_italic: false,
            is_underline: false,
            is_blink: false,
            is_reverse: false,
            is_hidden: false,
            is_strikethrough: false,
        }
    }

    /// Whether the style sets nothing at all.
    pub open spec fn is_plain(self) -> bool {
        self == Style::foreground_spec(None)
    }

    /// The style that sets nothing.
    pub fn plain() -> (r: Style)
        ensures
            r.is_plain(),
    {
        Style::with_foreground(None)
    }

    /// The style with the given foreground colour and nothing else.
    pub fn with_foreground(foreground: Option<Colour>) -> (r: Style)
        ensures
            r == Style::foreground_spec(foreground),
    {
        Style {
            foreground,
            background: None,
            is_bold: false,
            is_dimmed: false,
            is_italic: false,
            is_underline: false,
            is_blink: false,
            is_reverse: false,
            is_hidden: false,
            is_strikethrough: false,
        }
    }
}

/// What painting `text` in `style` gives: the text between the style's
/// escape codes.
pub uninterp spec fn painted(style: Style, text: Seq<char>) -> Seq<char>;

/// Relies on ansi_term's `Style::paint` and the `Display` of the painted
/// string: the text framed by the style's escape codes, and the text alone
/// when the style sets nothing.
#[verifier::external_body]
pub(crate) fn paint(style: Style, text: &str) -> (r: String)
    ensures
        r@ == painted(style, text@),
        style.is_plain() ==> r@ == text@,
{
    let ansi = ansi_term::Style {
        foreground: style.foreground, background: style.background,
        is_bold: style.is_bold, is_dimmed: style.is_dimmed,
        is_italic: style.is_italic, is_underline: style.is_underline,
        is_blink: style.is_blink, is_reverse: style.is_reverse,
        is_hidden: style.is_hidden, is_strikethrough: style.is_strikethrough,
    };
    ansi.paint(text).to_string()
}

} // verus!
