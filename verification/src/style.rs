//! Marks and emphasis in what is written for people.
//!
//! Whether text is painted depends on where it is written to: on a
//! terminal it is, into a file or with colours switched off it is not. So
//! of painted text only this is known: it is the plain text, or the plain
//! text between the escape sequence that switches the style on and the one
//! that resets it.

use vstd::prelude::*;
use colored::Colorize;

verus! {

/// The character that starts an escape sequence.
pub const ESCAPE: char = '\x1b';

/// Text with the escape sequences for a style around it.
pub open spec fn painted(text: Seq<char>, codes: Seq<char>) -> Seq<char> {
    seq![ESCAPE, '['] + codes + "m"@ + text + seq![ESCAPE, '[', '0', 'm']
}

/// Whether `out` shows `text` in the style `codes`: painted or plain.
pub open spec fn shows(out: Seq<char>, text: Seq<char>, codes: Seq<char>) -> bool {
    out == text || out == painted(text, codes)
}

/// Whether a text holds no escape sequence.
pub open spec fn is_plain(text: Seq<char>) -> bool {
    forall|i: int| 0 <= i < text.len() ==> text[i] != ESCAPE
}

/// The word that opens the report of a success.
pub open spec fn success_word() -> Seq<char> {
    "Success:"@
}

/// The word that opens the report of a failure.
pub open spec fn error_word() -> Seq<char> {
    "Error:"@
}

/// Whether `mark` opens the report of a success: the word, bold and green
/// where it is painted.
pub open spec fn is_success_mark(mark: Seq<char>) -> bool {
    shows(mark, success_word(), "1;32"@)
}

/// Whether `mark` opens the report of a failure: the word, bold and red
/// where it is painted.
pub open spec fn is_error_mark(mark: Seq<char>) -> bool {
    shows(mark, error_word(), "1;31"@)
}

/// `colored`'s `bold` and `green` on a text, written out through
/// `Display`. A text that holds no escape sequence comes out as it is where
/// colours are off, else between the sequence for bold green and the reset.
#[verifier::external_body]
fn paint_bold_green(text: &str) -> (r: String)
    ensures
        is_plain(text@) ==> shows(r@, text@, "1;32"@),
{
    text.bold().green().to_string()
}

/// `colored`'s `bold` and `red` on a text, written out through `Display`.
/// A text that holds no escape sequence comes out as it is where colours are
/// off, else between the sequence for bold red and the reset.
#[verifier::external_body]
fn paint_bold_red(text: &str) -> (r: String)
    ensures
        is_plain(text@) ==> shows(r@, text@, "1;31"@),
{
    text.bold().red().to_string()
}

/// `colored`'s `bold` on a text, written out through `Display`. A text
/// that holds no escape sequence comes out as it is where colours are off,
/// else between the sequence for bold and the reset.
#[verifier::external_body]
fn paint_bold(text: &str) -> (r: String)
    ensures
        is_plain(text@) ==> shows(r@, text@, "1"@),
{
    text.bold().to_string()
}

/// The mark that opens the report of a success.
pub fn success() -> (r: String)
    ensures
        is_success_mark(r@),
{
    proof {
        reveal_strlit("Success:");
    }
    paint_bold_green("Success:")
}

/// The mark that opens the report of a failure.
pub fn error() -> (r: String)
    ensures
        is_error_mark(r@),
{
    proof {
        reveal_strlit("Error:");
    }
    paint_bold_red("Error:")
}

/// The one line that tells of a failure: a mark and the message.
pub open spec fn failure_line(mark: Seq<char>, message: Seq<char>) -> Seq<char> {
    mark + " "@ + message
}

/// The one line that tells of a failure: the mark of a failure and the
/// message.
pub fn report_failure(message: &str) -> (r: String)
    ensures
        exists|mark: Seq<char>| is_error_mark(mark) && r@ == #[trigger] failure_line(mark, message@),
{
    let mut out = error();
    let ghost mark = out@;
    out.append(" ");
    out.append(message);
    assert(out@ =~= failure_line(mark, message@));
    out
}

/// A text in bold.
pub fn bold(text: &str) -> (r: String)
    ensures
        is_plain(text@) ==> shows(r@, text@, "1"@),
{
    paint_bold(text)
}

} // verus!
