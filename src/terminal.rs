//! Escape sequences of the terminal, as termion writes them.
use vstd::prelude::*;
use vstd::string::*;

verus! {

/// The decimal digits of `n`, most significant first, without leading zeros.
pub open spec fn decimal(n: nat) -> Seq<char>
    decreases n,
{
    if n < 10 {
        seq![digit_char(n)]
    } else {
        decimal(n / 10).push(digit_char(n % 10))
    }
}

/// The character of a decimal digit.
pub open spec fn digit_char(d: nat) -> char {
    if d == 0 { '0' }
    else if d == 1 { '1' }
    else if d == 2 { '2' }
    else if d == 3 { '3' }
    else if d == 4 { '4' }
    else if d == 5 { '5' }
    else if d == 6 { '6' }
    else if d == 7 { '7' }
    else if d == 8 { '8' }
    else { '9' }
}

/// Moves the cursor to a one-based column and row.
pub open spec fn goto_seq(col: u16, row: u16) -> Seq<char> {
    "\x1B["@ + decimal(row as nat) + ";"@ + decimal(col as nat) + "H"@
}

/// Clears the screen from the cursor to its end.
pub open spec fn clear_after_seq() -> Seq<char> {
    "\x1B[J"@
}

/// Sets the foreground to the dim light black.
pub open spec fn fg_light_black_seq() -> Seq<char> {
    "\x1B[38;5;8m"@
}

/// Sets the foreground to yellow.
pub open spec fn fg_yellow_seq() -> Seq<char> {
    "\x1B[38;5;3m"@
}

/// Resets the foreground to the terminal's default.
pub open spec fn fg_reset_seq() -> Seq<char> {
    "\x1B[39m"@
}

/// Hides the text cursor.
pub open spec fn hide_cursor_seq() -> Seq<char> {
    "\x1B[?25l"@
}

/// Shows the text cursor.
pub open spec fn show_cursor_seq() -> Seq<char> {
    "\x1B[?25h"@
}

/// Relies on `termion::cursor::Goto` turned into a `String`: CSI, the row,
/// `;`, the column and `H`, each number in decimal.
#[verifier::external_body]
pub(crate) fn goto(col: u16, row: u16) -> (r: String)
    ensures
        r@ == goto_seq(col, row),
{
    String::from(termion::cursor::Goto(col, row))
}

/// Relies on `termion::clear::AfterCursor` as a `str`: CSI `J`.
#[verifier::external_body]
pub(crate) fn clear_after_cursor() -> (r: String)
    ensures
        r@ == clear_after_seq(),
{
    let s: &str = termion::clear::AfterCursor.as_ref();
    String::from(s)
}

/// Relies on `termion::color::LightBlack::fg_str`: CSI `38;5;8m`.
#[verifier::external_body]
pub(crate) fn fg_light_black() -> (r: String)
    ensures
        r@ == fg_light_black_seq(),
{
    String::from(termion::color::LightBlack.fg_str())
}

/// Relies on `termion::color::Yellow::fg_str`: CSI `38;5;3m`.
#[verifier::external_body]
pub(crate) fn fg_yellow() -> (r: String)
    ensures
        r@ == fg_yellow_seq(),
{
    String::from(termion::color::Yellow.fg_str())
}

/// Relies on `termion::color::Reset::fg_str`: CSI `39m`.
#[verifier::external_body]
pub(crate) fn fg_reset() -> (r: String)
    ensures
        r@ == fg_reset_seq(),
{
    String::from(termion::color::Reset.fg_str())
}

/// Relies on `termion::cursor::Hide` as a `str`: CSI `?25l`.
#[verifier::external_body]
pub(crate) fn hide_cursor() -> (r: String)
    ensures
        r@ == hide_cursor_seq(),
{
    let s: &str = termion::cursor::Hide.as_ref();
    String::from(s)
}

/// Relies on `termion::cursor::Show` as a `str`: CSI `?25h`.
#[verifier::external_body]
pub(crate) fn show_cursor() -> (r: String)
    ensures
        r@ == show_cursor_seq(),
{
    let s: &str = termion::cursor::Show.as_ref();
    String::from(s)
}

} // verus!
