//! Serving a video or a thumbnail: which file a path means, and which part
//! of it a range header asks for.

use vstd::prelude::*;
use std::string::FromUtf8Error;
use vstd::utf8::is_ascii_chars;
use crate::catalog::{video_views, Video, VideoView};
use crate::cook::{find_video, find_video_index};
use crate::handlers::thumbnail_path;
use crate::numbers::{ascii_bytes, first_of, lemma_first_of_at, parse_span, parsed_u64, spells};
use crate::response::{header_views, push_header, Head, HeadView, CORS};
use crate::text::{chars_of, decimal, owned, push_decimal, push_text, text_of};

verus! {

/// The part of a file from byte `start` to byte `end`, both counted.
#[derive(Clone, Copy, Debug, PartialEq, Eq, Structural)]
pub struct ByteRange {
    pub start: u64,
    pub end: u64,
}

/// The end of a range, where the header gives none or one that cannot be
/// read: the end of the file.
pub open spec fn end_or_last(end: Option<u64>, size: u64) -> u64 {
    let last = (size - 1) as u64;
    match end {
        Some(e) => if e < last {
            e
        } else {
            last
        },
        None => last,
    }
}

/// The range that a range header asks for of a file of `size` bytes. The
/// header holds, behind its first six characters, a start, a dash and
/// optionally an end. The end is brought down to the last byte of the file.
/// There is no range where the header is shorter or holds no dash, where
/// the start is no number, where the file is empty, and where the range
/// would not reach beyond its start.
pub open spec fn parsed_range(header: Seq<char>, size: u64) -> Option<ByteRange> {
    if !is_ascii_chars(header) || header.len() < 6 || size == 0 {
        None
    } else {
        let dash = 6 + first_of(header.skip(6), '-');
        if dash >= header.len() {
            None
        } else {
            match parsed_u64(header.subrange(6, dash)) {
                None => None,
                Some(start) => {
                    let end = end_or_last(
                        parsed_u64(header.subrange(dash + 1, header.len() as int)),
                        size,
                    );
                    if start < end {
                        Some(ByteRange { start, end })
                    } else {
                        None
                    }
                },
            }
        }
    }
}

/// The range that a range header asks for of a file of `size` bytes.
pub fn parse_range(header: &str, size: u64) -> (range: Option<ByteRange>)
    ensures
        range == parsed_range(header@, size),
        range matches Some(r) ==> r.start < r.end < size,
{
    let Some(b) = ascii_bytes(header) else {
        return None;
    };
    if b.len() < 6 || size == 0 {
        return None;
    }
    let ghost rest = header@.skip(6);
    let mut i: usize = 6;
    while i < b.len() && b[i] != 45
        invariant
            6 <= i <= b.len(),
            spells(b@, header@),
            rest == header@.skip(6),
            forall|j: int| 0 <= j < i - 6 ==> rest[j] != '-',
        decreases b.len() - i,
    {
        assert(rest[i - 6] == header@[i as int]);
        i += 1;
    }
    proof {
        if i < b.len() {
            assert(rest[i - 6] == header@[i as int]);
        }
        lemma_first_of_at(rest, '-', i - 6);
    }
    if i == b.len() {
        return None;
    }
    let Some(start) = parse_span(b, Ghost(header@), 6, i, 0xFFFF_FFFF_FFFF_FFFF) else {
        return None;
    };
    let last: u64 = size - 1;
    let end: u64 = match parse_span(b, Ghost(header@), i + 1, b.len(), 0xFFFF_FFFF_FFFF_FFFF) {
        Some(e) => if e < last {
            e
        } else {
            last
        },
        None => last,
    };
    if start < end {
        Some(ByteRange { start, end })
    } else {
        None
    }
}

/// How a video is sent: from which byte, how many bytes, and under which
/// head.
#[derive(Debug)]
pub struct VideoReply {
    /// The byte at which sending starts.
    pub offset: u64,
    /// How many bytes are sent.
    pub length: u64,
    pub head: Head,
}

/// What the `Content-Range` header says of a range of a file of `size`
/// bytes.
pub open spec fn content_range_text(range: ByteRange, size: u64) -> Seq<char> {
    "bytes "@ + decimal(range.start as nat) + "-"@ + decimal(range.end as nat) + "/"@ + decimal(
        size as nat,
    )
}

/// How many bytes are sent of a file of `size` bytes: those of the range, or
/// all.
pub open spec fn reply_length(range: Option<ByteRange>, size: u64) -> int {
    match range {
        Some(r) => r.end - r.start + 1,
        None => size as int,
    }
}

/// The head under which a video of `size` bytes is sent: for a part of it,
/// the status 206 and the range that is sent; for all of it, the status 200.
pub open spec fn video_head_view(range: Option<ByteRange>, size: u64) -> HeadView {
    let common = seq![
        ("Content-Type"@, "video/mp4"@),
        ("Accept-Ranges"@, "bytes"@),
        ("Access-Control-Allow-Origin"@, "http://127.0.0.1:8000"@),
        ("Content-Length"@, decimal(reply_length(range, size) as nat)),
        ("Cache-Control"@, "public, max-age=604800"@),
    ];
    match range {
        Some(r) => HeadView {
            status: 206,
            headers: common.push(("Content-Range"@, content_range_text(r, size))),
        },
        None => HeadView { status: 200, headers: common },
    }
}

/// How a video of `size` bytes is sent to a caller whose range header, where
/// there is one, is `range_header`.
pub fn video_reply(range_header: Option<&str>, size: u64) -> (reply: VideoReply)
    ensures
        ({
            let range = match range_header {
                Some(h) => parsed_range(h@, size),
                None => None,
            };
            &&& reply.head@ == video_head_view(range, size)
            &&& reply.length == reply_length(range, size)
            &&& reply.offset == (match range {
                Some(r) => r.start,
                None => 0,
            })
        }),
{
    let range = match range_header {
        Some(h) => parse_range(h, size),
        None => None,
    };
    let length: u64 = match range {
        Some(r) => r.end - r.start + 1,
        None => size,
    };
    let mut headers: Vec<(String, String)> = Vec::new();
    assert(header_views(headers@) =~= Seq::<(Seq<char>, Seq<char>)>::empty());
    push_header(&mut headers, "Content-Type", owned("video/mp4"));
    push_header(&mut headers, "Accept-Ranges", owned("bytes"));
    push_header(&mut headers, "Access-Control-Allow-Origin", owned(CORS));
    push_header(&mut headers, "Content-Length", crate::text::decimal_text(length));
    push_header(&mut headers, "Cache-Control", owned("public, max-age=604800"));
    match range {
        Some(r) => {
            let mut said = owned("bytes ");
            push_decimal(&mut said, r.start);
            push_text(&mut said, "-");
            push_decimal(&mut said, r.end);
            push_text(&mut said, "/");
            push_decimal(&mut said, size);
            assert(said@ =~= content_range_text(r, size));
            push_header(&mut headers, "Content-Range", said);
            assert(header_views(headers@) =~= video_head_view(range, size).headers);
            VideoReply { offset: r.start, length, head: Head { status: 206, headers } }
        },
        None => {
            assert(header_views(headers@) =~= video_head_view(range, size).headers);
            VideoReply { offset: 0, length, head: Head { status: 200, headers } }
        },
    }
}

/// `std::string::FromUtf8Error`: the standard library's report of bytes that
/// are no text. The library carries the report along and never looks inside.
#[verifier::external_type_specification]
#[verifier::external_body]
pub struct ExFromUtf8Error(FromUtf8Error);

/// What `urlencoding::decode` makes of a text: the text with every escape
/// of a percent sign and two hexadecimal digits replaced by the byte that
/// it writes, or nothing where the bytes that come out are no text. The
/// library does not say more of it than the contract of `percent_decode`.
pub uninterp spec fn percent_decoded(data: Seq<char>) -> Option<Seq<char>>;

/// Calls `urlencoding::decode`. Nothing is proved of the call: the contract
/// says that its answer depends on `data` alone, so that `percent_decoded`
/// can stand for it, and that a text without a percent sign comes back as it
/// is.
#[verifier::external_body]
fn percent_decode(data: &str) -> (result: Result<String, FromUtf8Error>)
    ensures
        match result {
            Ok(text) => percent_decoded(data@) == Some(text@),
            Err(_) => percent_decoded(data@) is None,
        },
        !data@.contains('%') ==> result is Ok && result->Ok_0@ == data@,
{
    urlencoding::decode(data).map(|text| text.into_owned())
}

/// Why a request cannot be answered.
#[derive(Clone, Copy, Debug, PartialEq, Eq, Structural)]
pub enum RequestError {
    /// The name in the path is no text once its escapes are resolved.
    BadEncoding,
}

/// What stands in `path` behind its first three characters: behind `/v/`
/// or `/t/`.
pub open spec fn path_tail(path: Seq<char>) -> Seq<char> {
    if path.len() >= 3 {
        path.skip(3)
    } else {
        Seq::<char>::empty()
    }
}

/// The name that a path asks for: what stands behind its first three
/// characters, with its escapes resolved.
pub fn requested_name(path: &str) -> (result: Result<String, RequestError>)
    ensures
        match result {
            Ok(name) => percent_decoded(path_tail(path@)) == Some(name@),
            Err(e) => e == RequestError::BadEncoding && percent_decoded(path_tail(path@)) is None,
        },
        !path_tail(path@).contains('%') ==> result is Ok && result->Ok_0@ == path_tail(path@),
{
    let list = chars_of(path);
    let tail = if list.len() >= 3 {
        text_of(&list, 3, list.len())
    } else {
        String::new()
    };
    assert(tail@ =~= path_tail(path@));
    match percent_decode(tail.as_str()) {
        Ok(name) => Ok(name),
        Err(_) => Err(RequestError::BadEncoding),
    }
}

/// Where the file of the video is whose thumbnail has the name `name`.
pub open spec fn location_of(videos: Seq<VideoView>, name: Seq<char>) -> Option<Seq<char>> {
    match find_video(videos, name) {
        Some(video) => Some(video.current_loc()),
        None => None,
    }
}

/// Where the file of the video is whose thumbnail has the name
/// `thumbnail_name`; none where the catalog holds no such video.
pub fn video_location(videos: &Vec<Video>, thumbnail_name: &str) -> (location: Option<String>)
    ensures
        crate::common::opt_text(location) == location_of(video_views(videos@), thumbnail_name@),
{
    match find_video_index(videos, thumbnail_name) {
        Some(i) => Some(videos[i].current_loc().clone()),
        None => None,
    }
}

/// The file that a path under `/v/` asks for: an error where the name in
/// the path is no text, none where the catalog holds no video of that name.
pub fn requested_video(videos: &Vec<Video>, path: &str) -> (result: Result<
    Option<String>,
    RequestError,
>)
    ensures
        match result {
            Ok(location) => percent_decoded(path_tail(path@)) is Some && crate::common::opt_text(
                location,
            ) == location_of(video_views(videos@), percent_decoded(path_tail(path@))->0),
            Err(e) => e == RequestError::BadEncoding && percent_decoded(path_tail(path@)) is None,
        },
{
    match requested_name(path) {
        Ok(name) => Ok(video_location(videos, name.as_str())),
        Err(e) => Err(e),
    }
}

/// The file that a path under `/t/` asks for: the thumbnail of the name in
/// the path.
pub fn requested_thumbnail(path: &str) -> (result: Result<String, RequestError>)
    ensures
        match result {
            Ok(file) => percent_decoded(path_tail(path@)) is Some && file@
                == crate::handlers::thumbnail_path_text(percent_decoded(path_tail(path@))->0),
            Err(e) => e == RequestError::BadEncoding && percent_decoded(path_tail(path@)) is None,
        },
{
    match requested_name(path) {
        Ok(name) => Ok(thumbnail_path(name.as_str())),
        Err(e) => Err(e),
    }
}

} // verus!
