//! The heads of the answers that the server gives: status and headers.

use vstd::prelude::*;
use crate::text::owned;

verus! {

/// The origin that may read the server's answers.
pub const CORS: &'static str = "http://127.0.0.1:8000";

/// The status and the headers of an answer.
#[derive(Debug)]
pub struct Head {
    pub status: u16,
    pub headers: Vec<(String, String)>,
}

/// The views of a list of headers, in order.
pub open spec fn header_views(headers: Seq<(String, String)>) -> Seq<(Seq<char>, Seq<char>)> {
    Seq::new(headers.len(), |i: int| (headers[i].0@, headers[i].1@))
}

/// A `Head` as a mathematical value.
pub struct HeadView {
    pub status: u16,
    pub headers: Seq<(Seq<char>, Seq<char>)>,
}

impl View for Head {
    type V = HeadView;

    open spec fn view(&self) -> HeadView {
        HeadView { status: self.status, headers: header_views(self.headers@) }
    }
}

/// Appends the header `name: value`.
pub fn push_header(headers: &mut Vec<(String, String)>, name: &str, value: String)
    ensures
        header_views(final(headers)@) == header_views(old(headers)@).push((name@, value@)),
{
    let item = (owned(name), value);
    assert(header_views(headers@.push(item)) =~= header_views(headers@).push((name@, value@)));
    headers.push(item);
}

/// The head of an answer with a body of the given content type, which the
/// allowed origin may read.
pub open spec fn plain_head(status: u16, content_type: Seq<char>) -> HeadView {
    HeadView {
        status,
        headers: seq![
            ("Content-Type"@, content_type),
            ("Access-Control-Allow-Origin"@, "http://127.0.0.1:8000"@),
        ],
    }
}

/// The head of an answer with a body of the given content type.
pub fn content_head(status: u16, content_type: &str) -> (head: Head)
    ensures
        head@ == plain_head(status, content_type@),
{
    let mut headers: Vec<(String, String)> = Vec::new();
    assert(header_views(headers@) =~= Seq::<(Seq<char>, Seq<char>)>::empty());
    push_header(&mut headers, "Content-Type", owned(content_type));
    push_header(&mut headers, "Access-Control-Allow-Origin", owned(CORS));
    assert(header_views(headers@) =~= plain_head(status, content_type@).headers);
    Head { status, headers }
}

/// The head of an answer in plain text.
pub fn text_head(status: u16) -> (head: Head)
    ensures
        head@ == plain_head(status, "text/plain"@),
{
    content_head(status, "text/plain")
}

/// The head of an answer that is a page.
pub fn html_head(status: u16) -> (head: Head)
    ensures
        head@ == plain_head(status, "text/html"@),
{
    content_head(status, "text/html")
}

/// The head of an answer in JSON.
pub fn json_head() -> (head: Head)
    ensures
        head@ == plain_head(200, "application/json"@),
{
    content_head(200, "application/json")
}

/// The head of the progress of a composition, which is sent line by line.
pub fn progress_head() -> (head: Head)
    ensures
        head@ == plain_head(200, "text/plain; charset=utf-8"@),
{
    content_head(200, "text/plain; charset=utf-8")
}

/// The head of the answer to a browser that asks what it may send.
pub open spec fn preflight_head_view() -> HeadView {
    HeadView {
        status: 204,
        headers: seq![
            ("Access-Control-Allow-Origin"@, "http://127.0.0.1:8000"@),
            ("Access-Control-Allow-Methods"@, "GET, POST, OPTIONS, DELETE"@),
            ("Access-Control-Allow-Headers"@, "Content-Type"@),
        ],
    }
}

/// The head of the answer to a browser that asks what it may send.
pub fn preflight_head() -> (head: Head)
    ensures
        head@ == preflight_head_view(),
{
    let mut headers: Vec<(String, String)> = Vec::new();
    assert(header_views(headers@) =~= Seq::<(Seq<char>, Seq<char>)>::empty());
    push_header(&mut headers, "Access-Control-Allow-Origin", owned(CORS));
    push_header(&mut headers, "Access-Control-Allow-Methods", owned("GET, POST, OPTIONS, DELETE"));
    push_header(&mut headers, "Access-Control-Allow-Headers", owned("Content-Type"));
    assert(header_views(headers@) =~= preflight_head_view().headers);
    Head { status: 204, headers }
}

/// The head of an answer that is a thumbnail, which a browser may keep for
/// a week.
pub open spec fn thumbnail_head_view() -> HeadView {
    HeadView {
        status: 200,
        headers: seq![
            ("Content-Type"@, "image/jpeg"@),
            ("Access-Control-Allow-Origin"@, "http://127.0.0.1:8000"@),
            ("Cache-Control"@, "public, max-age=604800"@),
        ],
    }
}

/// The head of an answer that is a thumbnail.
pub fn thumbnail_head() -> (head: Head)
    ensures
        head@ == thumbnail_head_view(),
{
    let mut headers: Vec<(String, String)> = Vec::new();
    assert(header_views(headers@) =~= Seq::<(Seq<char>, Seq<char>)>::empty());
    push_header(&mut headers, "Content-Type", owned("image/jpeg"));
    push_header(&mut headers, "Access-Control-Allow-Origin", owned(CORS));
    push_header(&mut headers, "Cache-Control", owned("public, max-age=604800"));
    assert(header_views(headers@) =~= thumbnail_head_view().headers);
    Head { status: 200, headers }
}

} // verus!
