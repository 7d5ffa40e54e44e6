//! Text styles for the terminal.

use vstd::prelude::*;
use crate::text::{owned, push_text};

verus! {

/// `text` between the codes `on` and `off`.
pub open spec fn styled(on: Seq<char>, text: Seq<char>, off: Seq<char>) -> Seq<char> {
    on + text + off
}

/// `text` in bold cyan.
pub fn bold(text: &str) -> (out: String)
    ensures
        out@ == styled("\x1b[1m\x1b[36m"@, text@, "\x1b[0m"@),
{
    let mut out = owned("\x1b[1m\x1b[36m");
    push_text(&mut out, text);
    push_text(&mut out, "\x1b[0m");
    out
}

/// `text` in yellow.
pub fn code(text: &str) -> (out: String)
    ensures
        out@ == styled("\x1b[33m"@, text@, "\x1b[0m"@),
{
    let mut out = owned("\x1b[33m");
    push_text(&mut out, text);
    push_text(&mut out, "\x1b[0m");
    out
}

/// `text` dimmed.
pub fn faded(text: &str) -> (out: String)
    ensures
        out@ == styled("\x1b[2m"@, text@, "\x1b[0m"@),
{
    let mut out = owned("\x1b[2m");
    push_text(&mut out, text);
    push_text(&mut out, "\x1b[0m");
    out
}

/// `text` in blue and underlined.
pub fn link(text: &str) -> (out: String)
    ensures
        out@ == styled("\x1b[34m\x1b[4m"@, text@, "\x1b[0m"@),
{
    let mut out = owned("\x1b[34m\x1b[4m");
    push_text(&mut out, text);
    push_text(&mut out, "\x1b[0m");
    out
}

} // verus!
