//! Colours, and the CSS colour syntax as cssparser reads and writes it.

use vstd::prelude::*;

verus! {

/// A colour of four channels of eight bits each.
#[derive(Clone, Copy, Debug, PartialEq, Eq, Structural)]
pub struct RGBA {
    pub red: u8,
    pub green: u8,
    pub blue: u8,
    pub alpha: u8,
}

/// What the CSS colour grammar makes of a text.
#[derive(Clone, Copy, Debug, PartialEq, Eq, Structural)]
pub enum CSSColor {
    /// The text does not start with a colour.
    Invalid,
    /// The keyword `currentcolor`.
    CurrentColor,
    RGBA(RGBA),
}

/// The colour that cssparser reads at the start of a text.
pub uninterp spec fn css_color(text: Seq<char>) -> CSSColor;

/// The text that cssparser writes for a colour.
pub uninterp spec fn css_text(red: u8, green: u8, blue: u8, alpha: u8) -> Seq<char>;

/// Calls `Color::parse` of cssparser on a parser over `text`. Claimed of it: what it returns
/// depends on the text alone.
#[verifier::external_body]
fn css_parse(text: &str) -> (r: CSSColor)
    ensures
        r == css_color(text@),
{
    let mut input = cssparser::ParserInput::new(text);
    match cssparser::Color::parse(&mut cssparser::Parser::new(&mut input)) {
        Ok(cssparser::Color::RGBA(c)) => CSSColor::RGBA(
            RGBA { red: c.red, green: c.green, blue: c.blue, alpha: c.alpha },
        ),
        Ok(cssparser::Color::CurrentColor) => CSSColor::CurrentColor,
        Err(_) => CSSColor::Invalid,
    }
}

/// Calls `ToCss::to_css_string` of cssparser on its `RGBA` of the same four channels. Claimed of
/// it: what it returns depends on the channels alone.
#[verifier::external_body]
fn css_serialize(color: RGBA) -> (r: String)
    ensures
        r@ == css_text(color.red, color.green, color.blue, color.alpha),
{
    cssparser::ToCss::to_css_string(
        &cssparser::RGBA::new(color.red, color.green, color.blue, color.alpha),
    )
}

/// The colour that a style string names: the one that the CSS grammar reads, where it is a
/// colour of its own and not the keyword `currentcolor`.
pub open spec fn spec_parse_color(text: Seq<char>) -> Result<RGBA, ()> {
    match css_color(text) {
        CSSColor::RGBA(rgba) => Ok(rgba),
        _ => Err(()),
    }
}

/// What `parse_color` returns for each result of the grammar.
pub fn color_of(parsed: CSSColor) -> (r: Result<RGBA, ()>)
    ensures
        r == match parsed {
            CSSColor::RGBA(rgba) => Ok::<RGBA, ()>(rgba),
            _ => Err::<RGBA, ()>(()),
        },
{
    match parsed {
        CSSColor::RGBA(rgba) => Ok(rgba),
        _ => Err(()),
    }
}

pub fn parse_color(string: &str) -> (r: Result<RGBA, ()>)
    ensures
        r == spec_parse_color(string@),
{
    color_of(css_parse(string))
}

impl RGBA {
    pub open spec fn spec_black() -> RGBA {
        RGBA { red: 0, green: 0, blue: 0, alpha: 255 }
    }

    /// Opaque black, the colour that a context starts with.
    #[verifier::when_used_as_spec(spec_black)]
    pub fn black() -> (r: RGBA)
        ensures
            r == RGBA::spec_black(),
    {
        RGBA { red: 0, green: 0, blue: 0, alpha: 255 }
    }

    /// The CSS text of the colour.
    pub open spec fn spec_to_css(self) -> Seq<char> {
        css_text(self.red, self.green, self.blue, self.alpha)
    }

    pub fn to_css(self) -> (r: String)
        ensures
            r@ == self.spec_to_css(),
    {
        css_serialize(self)
    }
}

} // verus!
