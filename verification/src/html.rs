//! Text that is put into a page.

use vstd::prelude::*;
use crate::text::{chars_of, has_prefix, matches_at, push_text};

verus! {

/// What stands for the character `c` in a page.
pub open spec fn escaped_char(c: char) -> Seq<char> {
    if c == '&' {
        "&amp;"@
    } else if c == '<' {
        "&lt;"@
    } else if c == '>' {
        "&gt;"@
    } else if c == '"' {
        "&quot;"@
    } else {
        seq![c]
    }
}

/// `text` with every `&`, `<`, `>` and `"` replaced by what stands for it
/// in a page, and every other character as it is.
pub open spec fn escaped(text: Seq<char>) -> Seq<char>
    decreases text.len(),
{
    if text.len() == 0 {
        Seq::<char>::empty()
    } else {
        escaped(text.drop_last()) + escaped_char(text.last())
    }
}

/// `text` made safe to put into a page: `&`, `<`, `>` and `"` are replaced
/// by `&amp;`, `&lt;`, `&gt;` and `&quot;`.
pub fn escape_html(text: &str) -> (out: String)
    ensures
        out@ == escaped(text@),
{
    let mut out = String::new();
    assert(text@.take(0) =~= Seq::<char>::empty());
    for c in it: text.chars()
        invariant
            it.seq() == text@,
            out@ == escaped(text@.take(it.index() as int)),
    {
        let ghost upto = text@.take(it.index() as int + 1);
        assert(upto.drop_last() =~= text@.take(it.index() as int));
        assert(upto.last() == c);
        let ghost before = out@;
        if c == '&' {
            push_text(&mut out, "&amp;");
        } else if c == '<' {
            push_text(&mut out, "&lt;");
        } else if c == '>' {
            push_text(&mut out, "&gt;");
        } else if c == '"' {
            push_text(&mut out, "&quot;");
        } else {
            out.push(c);
            assert(out@ =~= before + seq![c]);
        }
    }
    assert(text@.take(text@.len() as int) =~= text@);
    out
}

/// `text` with every place at which `pattern` stands replaced by `with`,
/// going from the left; a place that was replaced is not looked at again.
/// An empty pattern stands nowhere.
pub open spec fn replaced(text: Seq<char>, pattern: Seq<char>, with: Seq<char>) -> Seq<char>
    decreases text.len(),
{
    if text.len() == 0 {
        Seq::<char>::empty()
    } else if pattern.len() > 0 && has_prefix(text, pattern) {
        with + replaced(text.skip(pattern.len() as int), pattern, with)
    } else {
        seq![text[0]] + replaced(text.drop_first(), pattern, with)
    }
}

/// `text` with every place at which `pattern` stands replaced by `with`.
pub fn replace_all(text: &str, pattern: &str, with: &str) -> (out: String)
    ensures
        out@ == replaced(text@, pattern@, with@),
{
    let list = chars_of(text);
    let piece = chars_of(pattern);
    let mut out = String::new();
    let mut i: usize = 0;
    assert(list@.skip(0) =~= list@);
    while i < list.len()
        invariant
            i <= list.len(),
            list@ == text@,
            piece@ == pattern@,
            out@ + replaced(list@.skip(i as int), pattern@, with@) == replaced(
                text@,
                pattern@,
                with@,
            ),
        decreases list.len() - i,
    {
        let ghost rest = list@.skip(i as int);
        let ghost before = out@;
        if piece.len() > 0 && matches_at(&list, i, &piece) {
            push_text(&mut out, with);
            assert(rest.skip(piece.len() as int) =~= list@.skip(i + piece.len()));
            assert(before + (with@ + replaced(rest.skip(piece.len() as int), pattern@, with@))
                =~= out@ + replaced(list@.skip(i + piece.len()), pattern@, with@));
            i += piece.len();
        } else {
            out.push(list[i]);
            assert(rest.drop_first() =~= list@.skip(i + 1));
            assert(before + (seq![rest[0]] + replaced(rest.drop_first(), pattern@, with@))
                =~= out@ + replaced(list@.skip(i + 1), pattern@, with@));
            i += 1;
        }
    }
    assert(out@ + replaced(list@.skip(i as int), pattern@, with@) =~= out@);
    out
}

/// The page that says that nothing is at `path`: `template` with the path,
/// made safe, in each place that is marked `{PATH}`.
pub fn not_found_page(template: &str, path: &str) -> (page: String)
    ensures
        page@ == replaced(template@, "{PATH}"@, escaped(path@)),
{
    let safe = escape_html(path);
    replace_all(template, "{PATH}", safe.as_str())
}

} // verus!
