//! Severity styling: a closed set of ANSI styles and a painter that wraps a
//! piece of text in the style's escape sequence, or leaves it untouched when
//! styled output is disabled.
//!
//! The styling capability is a single boolean, resolved once by the caller
//! from the actual output stream and threaded through every formatting call;
//! with the capability off, painting is the identity and no escape character
//! is ever produced.

use vstd::prelude::*;
use crate::text::esc_char;

verus! {

/// The styles the renderer uses, each a fixed color/weight combination.
#[derive(Clone, Copy)]
pub enum Style {
    RedBold,
    GreenBold,
    YellowBold,
    BlueBold,
    CyanBold,
    WhiteBold,
    Red,
    Dimmed,
}

/// The ANSI escape sequence that switches the terminal to `sty`.
pub open spec fn style_prefix(sty: Style) -> Seq<char> {
    match sty {
        Style::RedBold => seq![esc_char(), '[', '1', ';', '3', '1', 'm'],
        Style::GreenBold => seq![esc_char(), '[', '1', ';', '3', '2', 'm'],
        Style::YellowBold => seq![esc_char(), '[', '1', ';', '3', '3', 'm'],
        Style::BlueBold => seq![esc_char(), '[', '1', ';', '3', '4', 'm'],
        Style::CyanBold => seq![esc_char(), '[', '1', ';', '3', '6', 'm'],
        Style::WhiteBold => seq![esc_char(), '[', '1', ';', '3', '7', 'm'],
        Style::Red => seq![esc_char(), '[', '3', '1', 'm'],
        Style::Dimmed => seq![esc_char(), '[', '2', 'm'],
    }
}

/// The ANSI escape sequence that returns the terminal to its default style.
pub open spec fn style_reset() -> Seq<char> {
    seq![esc_char(), '[', '0', 'm']
}

/// `text` wrapped in the escape sequences of `sty` when `styled` is set, and
/// `text` unchanged when it is not.
pub open spec fn painted(text: Seq<char>, sty: Style, styled: bool) -> Seq<char> {
    if styled {
        style_prefix(sty) + text + style_reset()
    } else {
        text
    }
}

fn style_prefix_str(sty: Style) -> (r: &'static str)
    ensures
        r@ =~= style_prefix(sty),
{
    proof {
        reveal_strlit("\u{1b}[1;31m");
        reveal_strlit("\u{1b}[1;32m");
        reveal_strlit("\u{1b}[1;33m");
        reveal_strlit("\u{1b}[1;34m");
        reveal_strlit("\u{1b}[1;36m");
        reveal_strlit("\u{1b}[1;37m");
        reveal_strlit("\u{1b}[31m");
        reveal_strlit("\u{1b}[2m");
    }
    match sty {
        Style::RedBold => "\u{1b}[1;31m",
        Style::GreenBold => "\u{1b}[1;32m",
        Style::YellowBold => "\u{1b}[1;33m",
        Style::BlueBold => "\u{1b}[1;34m",
        Style::CyanBold => "\u{1b}[1;36m",
        Style::WhiteBold => "\u{1b}[1;37m",
        Style::Red => "\u{1b}[31m",
        Style::Dimmed => "\u{1b}[2m",
    }
}

fn style_reset_str() -> (r: &'static str)
    ensures
        r@ =~= style_reset(),
{
    proof {
        reveal_strlit("\u{1b}[0m");
    }
    "\u{1b}[0m"
}

/// Appends `text` painted in `sty` (or plain, when `styled` is off).
pub fn push_painted(out: &mut String, text: &str, sty: Style, styled: bool)
    ensures
        final(out)@ == old(out)@ + painted(text@, sty, styled),
{
    if styled {
        out.append(style_prefix_str(sty));
        out.append(text);
        out.append(style_reset_str());
        proof {
            assert(final(out)@ =~= old(out)@ + painted(text@, sty, styled));
        }
    } else {
        out.append(text);
    }
}

/// `text` painted in `sty` as a fresh string.
pub fn paint(text: &str, sty: Style, styled: bool) -> (r: String)
    ensures
        r@ == painted(text@, sty, styled),
{
    let mut out = String::new();
    push_painted(&mut out, text, sty, styled);
    proof {
        assert(out@ =~= painted(text@, sty, styled));
    }
    out
}

} // verus!
