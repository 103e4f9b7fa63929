//! Banners for the console.
use vstd::prelude::*;
use crate::text::{join, push_char};

verus! {

/// The width of a banner where none is asked for and the terminal gives none.
pub const DEFAULT_TERM_WIDTH: u16 = 80;

/// The character that a banner's rules are drawn with unless another is asked
/// for.
pub const DEFAULT_DECORATOR: char = '*';

/// A rule: the decorator repeated over the width.
pub open spec fn rule(dec: char, width: nat) -> Seq<char> {
    Seq::new(width, |i: int| dec)
}

/// A banner: the message between two rules, each on a line of its own, and an
/// empty line after them.
pub open spec fn banner_text(msg: Seq<char>, dec: char, width: nat) -> Seq<char> {
    rule(dec, width) + "\n"@ + msg + "\n"@ + rule(dec, width) + "\n\n"@
}

/// The decorator in effect: the one asked for, or the default.
pub open spec fn decorator(dec: Option<char>) -> char {
    match dec {
        Some(d) => d,
        None => DEFAULT_DECORATOR,
    }
}

/// The width in effect: the one asked for, else the terminal's, else the
/// default.
pub open spec fn width_in_effect(width: Option<u16>, terminal: Option<u16>) -> u16 {
    match width {
        Some(w) => w,
        None => match terminal {
            Some(w) => w,
            None => DEFAULT_TERM_WIDTH,
        },
    }
}

/// `terminal_size::terminal_size`: the number of columns of the terminal, if
/// the process has one. Nothing is known of the answer.
#[verifier::external_body]
fn terminal_columns() -> (columns: Option<u16>) {
    terminal_size::terminal_size().map(|size| (size.0).0)
}

/// Chooses the width of a banner.
pub fn resolve_width(width: Option<u16>, terminal: Option<u16>) -> (chosen: u16)
    ensures
        chosen == width_in_effect(width, terminal),
{
    match width {
        Some(w) => w,
        None => match terminal {
            Some(w) => w,
            None => DEFAULT_TERM_WIDTH,
        },
    }
}

/// Draws a rule.
pub fn draw_rule(dec: char, width: u16) -> (text: String)
    ensures
        text@ == rule(dec, width as nat),
{
    let mut text = String::new();
    let mut drawn: u16 = 0;
    while drawn < width
        invariant
            drawn <= width,
            text@ == rule(dec, drawn as nat),
        decreases width - drawn,
    {
        push_char(&mut text, dec);
        drawn += 1;
        assert(text@ =~= rule(dec, drawn as nat));
    }
    text
}

/// The banner for `msg`, drawn with `dec` over `width` columns.
pub fn banner_with(msg: &str, dec: char, width: u16) -> (text: String)
    ensures
        text@ == banner_text(msg@, dec, width as nat),
{
    let line = draw_rule(dec, width);
    let top = join(line.as_str(), "\n");
    let titled = join(top.as_str(), msg);
    let broken = join(titled.as_str(), "\n");
    let ruled = join(broken.as_str(), line.as_str());
    let text = join(ruled.as_str(), "\n\n");
    text
}

/// The banner for `msg`.
///
/// Without a decorator the default one is used. Without a width the banner
/// spans the terminal, or the default width where the terminal's is unknown.
pub fn banner(msg: &str, dec: Option<char>, width: Option<u16>) -> (text: String)
    ensures
        exists|terminal: Option<u16>|
            text@ == banner_text(
                msg@,
                decorator(dec),
                #[trigger] width_in_effect(width, terminal) as nat,
            ),
        width is Some ==> text@ == banner_text(msg@, decorator(dec), width->0 as nat),
{
    let terminal = terminal_columns();
    let dec = match dec {
        Some(d) => d,
        None => DEFAULT_DECORATOR,
    };
    let text = banner_with(msg, dec, resolve_width(width, terminal));
    assert(text@ == banner_text(msg@, dec, width_in_effect(width, terminal) as nat));
    text
}

} // verus!
