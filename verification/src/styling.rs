//! The calls into `console`. Whether a styled text carries escape sequences
//! depends on the terminal that the process writes to, so each of these
//! promises what holds either way: the text comes back as it is, or between
//! the sequences that switch its style on and off.

use vstd::prelude::*;

verus! {

/// The escape sequence that switches bold on.
pub open spec fn spec_bold() -> Seq<char> {
    "\x1b[1m"@
}

/// The escape sequences that switch red and bold on.
pub open spec fn spec_bold_red() -> Seq<char> {
    "\x1b[31m\x1b[1m"@
}

/// The escape sequences that switch green and bold on.
pub open spec fn spec_bold_green() -> Seq<char> {
    "\x1b[32m\x1b[1m"@
}

/// The escape sequence that switches every style off.
pub open spec fn spec_reset() -> Seq<char> {
    "\x1b[0m"@
}

/// Whether `shown` is `text` in the style that `codes` switch on, as some
/// terminal is to show it: `text` itself where styling is off, else `text`
/// between `codes` and the reset.
pub open spec fn spec_shows(shown: Seq<char>, codes: Seq<char>, text: Seq<char>) -> bool {
    shown == text || shown == codes + text + spec_reset()
}

/// `console::style` with `bold`, formatted. The formatter of a styled text
/// writes the text itself and, where `console` has colours enabled, the
/// sequence for each attribute before it and the reset after it.
#[verifier::external_body]
pub(crate) fn bold(text: &str) -> (shown: String)
    ensures
        spec_shows(shown@, spec_bold(), text@),
{
    format!("{}", console::style(text).bold())
}

/// `console::style` with `bold` and `red`, formatted. The formatter writes
/// the text itself and, where `console` has colours enabled, the sequence
/// for the colour and then that for bold before it and the reset after it.
#[verifier::external_body]
pub(crate) fn bold_red(text: &str) -> (shown: String)
    ensures
        spec_shows(shown@, spec_bold_red(), text@),
{
    format!("{}", console::style(text).bold().red())
}

/// `console::style` with `bold` and `green`, formatted. The formatter
/// writes the text itself and, where `console` has colours enabled, the
/// sequence for the colour and then that for bold before it and the reset
/// after it.
#[verifier::external_body]
pub(crate) fn bold_green(text: &str) -> (shown: String)
    ensures
        spec_shows(shown@, spec_bold_green(), text@),
{
    format!("{}", console::style(text).bold().green())
}

} // verus!
