//! ANSI style codes for the console renderers, obtained from `ansi_term`.
//! Each wrapper's contract states the exact escape sequence the crate
//! produces for that style.

use vstd::prelude::*;

verus! {

use crate::level::Level;

/// The prefix code of a dimmed style.
pub open spec fn dim_code() -> Seq<char> {
    "\u{1b}[2m"@
}

/// The prefix code of a bold style.
pub open spec fn bold_code() -> Seq<char> {
    "\u{1b}[1m"@
}

/// The prefix code of an italic style.
pub open spec fn italic_code() -> Seq<char> {
    "\u{1b}[3m"@
}

/// The prefix code of a dimmed italic style, used for field keys.
pub open spec fn key_code() -> Seq<char> {
    "\u{1b}[2;3m"@
}

/// The reset code that ends any non-plain style.
pub open spec fn reset_code() -> Seq<char> {
    "\u{1b}[0m"@
}

/// The foreground colour code of the console marker for each level:
/// purple, blue, green, yellow and red.
pub open spec fn level_colour_code(level: Level) -> Seq<char> {
    match level {
        Level::Trace => "\u{1b}[35m"@,
        Level::Debug => "\u{1b}[34m"@,
        Level::Info => "\u{1b}[32m"@,
        Level::Warn => "\u{1b}[33m"@,
        Level::Error => "\u{1b}[31m"@,
    }
}

/// `code` when styling is on, nothing when it is off.
pub open spec fn styled(on: bool, code: Seq<char>) -> Seq<char> {
    if on {
        code
    } else {
        Seq::empty()
    }
}

/// Relies on `ansi_term::Style::prefix`: the prefix of a dimmed style is
/// `ESC [ 2 m`.
#[verifier::external_body]
fn ansi_dim_prefix() -> (r: String)
    ensures
        r@ == dim_code(),
{
    ansi_term::Style::new().dimmed().prefix().to_string()
}

/// Relies on `ansi_term::Style::prefix`: the prefix of a bold style is
/// `ESC [ 1 m`.
#[verifier::external_body]
fn ansi_bold_prefix() -> (r: String)
    ensures
        r@ == bold_code(),
{
    ansi_term::Style::new().bold().prefix().to_string()
}

/// Relies on `ansi_term::Style::prefix`: the prefix of an italic style is
/// `ESC [ 3 m`.
#[verifier::external_body]
fn ansi_italic_prefix() -> (r: String)
    ensures
        r@ == italic_code(),
{
    ansi_term::Style::new().italic().prefix().to_string()
}

/// Relies on `ansi_term::Style::prefix`: the prefix of a dimmed italic
/// style is `ESC [ 2 ; 3 m`.
#[verifier::external_body]
fn ansi_key_prefix() -> (r: String)
    ensures
        r@ == key_code(),
{
    ansi_term::Style::new().dimmed().italic().prefix().to_string()
}

/// Relies on `ansi_term::Style::suffix`: the suffix of any non-plain
/// style is the reset code `ESC [ 0 m`.
#[verifier::external_body]
fn ansi_reset() -> (r: String)
    ensures
        r@ == reset_code(),
{
    ansi_term::Style::new().dimmed().suffix().to_string()
}

/// Relies on `ansi_term::Style::infix`: going from a dimmed italic style
/// to the plain style cannot drop attributes, so the infix is the reset
/// code.
#[verifier::external_body]
fn ansi_key_to_plain_infix() -> (r: String)
    ensures
        r@ == reset_code(),
{
    ansi_term::Style::new().dimmed().italic().infix(ansi_term::Style::new()).to_string()
}

/// Relies on `ansi_term::Colour::prefix`: a purple foreground's prefix is
/// `ESC [ 35 m`.
#[verifier::external_body]
fn ansi_purple_prefix() -> (r: String)
    ensures
        r@ == "\u{1b}[35m"@,
{
    ansi_term::Colour::Purple.prefix().to_string()
}

/// Relies on `ansi_term::Colour::prefix`: a blue foreground's prefix is
/// `ESC [ 34 m`.
#[verifier::external_body]
fn ansi_blue_prefix() -> (r: String)
    ensures
        r@ == "\u{1b}[34m"@,
{
    ansi_term::Colour::Blue.prefix().to_string()
}

/// Relies on `ansi_term::Colour::prefix`: a green foreground's prefix is
/// `ESC [ 32 m`.
#[verifier::external_body]
fn ansi_green_prefix() -> (r: String)
    ensures
        r@ == "\u{1b}[32m"@,
{
    ansi_term::Colour::Green.prefix().to_string()
}

/// Relies on `ansi_term::Colour::prefix`: a yellow foreground's prefix is
/// `ESC [ 33 m`.
#[verifier::external_body]
fn ansi_yellow_prefix() -> (r: String)
    ensures
        r@ == "\u{1b}[33m"@,
{
    ansi_term::Colour::Yellow.prefix().to_string()
}

/// Relies on `ansi_term::Colour::prefix`: a red foreground's prefix is
/// `ESC [ 31 m`.
#[verifier::external_body]
fn ansi_red_prefix() -> (r: String)
    ensures
        r@ == "\u{1b}[31m"@,
{
    ansi_term::Colour::Red.prefix().to_string()
}

/// A chosen styling of console output: codes when `on`, nothing
/// otherwise.
#[derive(Clone, Copy, Debug, PartialEq, Eq, Structural)]
pub struct Styling {
    pub on: bool,
}

impl Styling {
    pub fn dim_prefix(self) -> (r: String)
        ensures
            r@ == styled(self.on, dim_code()),
    {
        if self.on {
            ansi_dim_prefix()
        } else {
            String::new()
        }
    }

    pub fn bold_prefix(self) -> (r: String)
        ensures
            r@ == styled(self.on, bold_code()),
    {
        if self.on {
            ansi_bold_prefix()
        } else {
            String::new()
        }
    }

    pub fn italic_prefix(self) -> (r: String)
        ensures
            r@ == styled(self.on, italic_code()),
    {
        if self.on {
            ansi_italic_prefix()
        } else {
            String::new()
        }
    }

    pub fn key_prefix(self) -> (r: String)
        ensures
            r@ == styled(self.on, key_code()),
    {
        if self.on {
            ansi_key_prefix()
        } else {
            String::new()
        }
    }

    pub fn reset(self) -> (r: String)
        ensures
            r@ == styled(self.on, reset_code()),
    {
        if self.on {
            ansi_reset()
        } else {
            String::new()
        }
    }

    pub fn key_infix(self) -> (r: String)
        ensures
            r@ == styled(self.on, reset_code()),
    {
        if self.on {
            ansi_key_to_plain_infix()
        } else {
            String::new()
        }
    }

    pub fn colour_prefix(self, level: Level) -> (r: String)
        ensures
            r@ == styled(self.on, level_colour_code(level)),
    {
        if self.on {
            match level {
                Level::Trace => ansi_purple_prefix(),
                Level::Debug => ansi_blue_prefix(),
                Level::Info => ansi_green_prefix(),
                Level::Warn => ansi_yellow_prefix(),
                Level::Error => ansi_red_prefix(),
            }
        } else {
            String::new()
        }
    }
}

} // verus!
