use std::time::SystemTime;
use video_sort::catalog::{ReqType, Video};
use video_sort::html::{not_found_page, replace_all};
use video_sort::register::{
    is_new_video, register, registered_line, summary, thumbnail_invocation, thumbnail_name,
    thumbnail_name_from,
};
use video_sort::response::{
    html_head, json_head, preflight_head, progress_head, text_head, thumbnail_head, CORS,
};
use video_sort::routes::{method_not_allowed, reports_connection_error, route, Route};
use video_sort::serve::{
    parse_range, requested_name, requested_thumbnail, requested_video, video_location, video_reply,
    ByteRange, RequestError,
};
use video_sort::text::{ends_with, same_text, starts_with};

fn pairs(headers: &[(String, String)]) -> Vec<(&str, &str)> {
    headers.iter().map(|(n, v)| (n.as_str(), v.as_str())).collect()
}

fn video(path: &str, name: &str) -> Video {
    Video::new(String::from(path), String::from(name), SystemTime::UNIX_EPOCH, 1)
}

#[test]
fn ranges_are_read_behind_the_unit() {
    assert_eq!(parse_range("bytes=0-99", 1000), Some(ByteRange { start: 0, end: 99 }));
    assert_eq!(parse_range("bytes=100-", 1000), Some(ByteRange { start: 100, end: 999 }));
    assert_eq!(parse_range("bytes=100-5000", 1000), Some(ByteRange { start: 100, end: 999 }));
    assert_eq!(parse_range("bytes=100-abc", 1000), Some(ByteRange { start: 100, end: 999 }));
    assert_eq!(parse_range("bytes=+1-+2", 1000), Some(ByteRange { start: 1, end: 2 }));
    assert_eq!(parse_range("octets0-99", 1000), Some(ByteRange { start: 0, end: 99 }));
    assert_eq!(parse_range("bytes=5-10-20", 1000), Some(ByteRange { start: 5, end: 999 }));
}

#[test]
fn ranges_that_are_none() {
    assert_eq!(parse_range("bytes=-500", 1000), None);
    assert_eq!(parse_range("bytes=abc-5", 1000), None);
    assert_eq!(parse_range("bytes=5", 1000), None);
    assert_eq!(parse_range("bytes=", 1000), None);
    assert_eq!(parse_range("bytes", 1000), None);
    assert_eq!(parse_range("", 1000), None);
    assert_eq!(parse_range("bytes=7-7", 1000), None);
    assert_eq!(parse_range("bytes=9-3", 1000), None);
    assert_eq!(parse_range("bytes=999-", 1000), None);
    assert_eq!(parse_range("bytes=1000-", 1000), None);
    assert_eq!(parse_range("bytes=0-5", 0), None);
    assert_eq!(parse_range("bytes=0-0", 1), None);
    assert_eq!(parse_range("bytes=0-5é", 1000), None);
    assert_eq!(parse_range("bytes=18446744073709551616-", 1000), None);
}

#[test]
fn a_part_of_a_video_is_sent_with_its_range() {
    let reply = video_reply(Some("bytes=100-199"), 1000);
    assert_eq!((reply.offset, reply.length, reply.head.status), (100, 100, 206));
    assert_eq!(
        pairs(&reply.head.headers),
        vec![
            ("Content-Type", "video/mp4"),
            ("Accept-Ranges", "bytes"),
            ("Access-Control-Allow-Origin", "http://127.0.0.1:8000"),
            ("Content-Length", "100"),
            ("Cache-Control", "public, max-age=604800"),
            ("Content-Range", "bytes 100-199/1000"),
        ]
    );
}

#[test]
fn a_whole_video_is_sent_without_a_range() {
    for header in [None, Some("bytes=abc"), Some("bytes=5-5")] {
        let reply = video_reply(header, 1000);
        assert_eq!((reply.offset, reply.length, reply.head.status), (0, 1000, 200));
        assert_eq!(
            pairs(&reply.head.headers),
            vec![
                ("Content-Type", "video/mp4"),
                ("Accept-Ranges", "bytes"),
                ("Access-Control-Allow-Origin", "http://127.0.0.1:8000"),
                ("Content-Length", "1000"),
                ("Cache-Control", "public, max-age=604800"),
            ]
        );
    }
    let empty = video_reply(Some("bytes=0-"), 0);
    assert_eq!((empty.offset, empty.length, empty.head.status), (0, 0, 200));
    let all = video_reply(Some("bytes=0-"), u64::MAX);
    assert_eq!((all.offset, all.length, all.head.status), (0, u64::MAX, 206));
}

#[test]
fn escapes_in_a_path_are_resolved() {
    assert_eq!(requested_name("/v/a%20b.jpg").unwrap(), "a b.jpg");
    assert_eq!(requested_name("/t/%E2%9C%93.jpg").unwrap(), "✓.jpg");
    assert_eq!(requested_name("/v/plain.jpg").unwrap(), "plain.jpg");
    assert_eq!(requested_name("/v/a+b.jpg").unwrap(), "a+b.jpg");
    assert_eq!(requested_name("/v/100%.jpg").unwrap(), "100%.jpg");
    assert_eq!(requested_name("/v/%zz").unwrap(), "%zz");
    assert_eq!(requested_name("/v/").unwrap(), "");
    assert_eq!(requested_name("/v").unwrap(), "");
    assert_eq!(requested_name("").unwrap(), "");
    assert_eq!(requested_name("/v/%2Fetc").unwrap(), "/etc");
    assert_eq!(requested_name("/v/%ff").unwrap_err(), RequestError::BadEncoding);
    assert_eq!(requested_name("/v/%C3").unwrap_err(), RequestError::BadEncoding);
}

#[test]
fn a_video_is_found_by_the_name_in_the_path() {
    let mut videos = vec![video("/videos/a b.mp4", "a b.jpg"), video("/videos/c.mp4", "c.jpg")];
    assert_eq!(requested_video(&videos, "/v/a%20b.jpg"), Ok(Some(String::from("/videos/a b.mp4"))));
    assert_eq!(requested_video(&videos, "/v/c.jpg"), Ok(Some(String::from("/videos/c.mp4"))));
    assert_eq!(requested_video(&videos, "/v/a%20b"), Ok(None));
    assert_eq!(requested_video(&videos, "/v/%ff"), Err(RequestError::BadEncoding));
    videos[1].file_moved(String::from("/moved/c.mp4"));
    assert_eq!(video_location(&videos, "c.jpg"), Some(String::from("/moved/c.mp4")));
    assert_eq!(video_location(&videos, "d.jpg"), None);
    assert_eq!(requested_thumbnail("/t/a%20b.jpg").unwrap(), "./.video-sort/thumbs/a b.jpg");
    assert_eq!(requested_thumbnail("/t/%80").unwrap_err(), RequestError::BadEncoding);
}

#[test]
fn a_thumbnail_name_is_fit_for_a_file() {
    assert_eq!(thumbnail_name("/videos/my trip.mp4"), "videosmy trip.mp4.jpg");
    assert_eq!(thumbnail_name("a:b*c?.mp4"), "abc.mp4.jpg");
    assert_eq!(thumbnail_name("x\ny\u{85}z"), "xyz.jpg");
    assert_eq!(thumbnail_name("plain"), "plain.jpg");
    let long = thumbnail_name(&"é".repeat(300));
    assert!(long.ends_with(".jpg"));
    assert!(long.chars().count() <= 255 + 4);
    assert!(long.len() <= 255 + 4);
    for name in ["/a/b", "<>|\"\\", "\u{0}\u{1f}\u{80}\u{9f}x", ":::"] {
        let clean = thumbnail_name(name);
        assert!(clean.ends_with(".jpg"));
        assert!(!clean.contains(|c: char| "/?<>\\:*|\"".contains(c)));
        assert!(!clean.contains(|c: char| (c as u32) < 0x20 || (0x80..=0x9f).contains(&(c as u32))));
    }
    assert_eq!(thumbnail_name_from(String::from("stem")), "stem.jpg");
    assert_eq!(thumbnail_name_from(String::new()), ".jpg");
}

#[test]
fn only_new_mp4_files_are_taken_in() {
    let mut videos = vec![video("/videos/a.mp4", "a.jpg")];
    assert!(is_new_video(&videos, "/videos/b.mp4"));
    assert!(!is_new_video(&videos, "/videos/a.mp4"));
    assert!(!is_new_video(&videos, "/videos/b.mov"));
    assert!(!is_new_video(&videos, "/videos/b.MP4"));
    assert!(!is_new_video(&videos, "/videos/mp4"));
    assert!(!is_new_video(&videos, "/videos/.mp4"));
    assert!(!is_new_video(&videos, ".mp4"));
    assert!(!is_new_video(&videos, ""));
    assert!(is_new_video(&videos, "b.mp4"));
    assert!(is_new_video(&videos, "/videos/a.b.mp4"));
    register(
        &mut videos,
        String::from("/videos/b.mp4"),
        String::from("b.jpg"),
        SystemTime::UNIX_EPOCH,
        42,
    );
    assert_eq!(videos.len(), 2);
    assert_eq!(videos[1].path, "/videos/b.mp4");
    assert_eq!(videos[1].thumbnail_name, "b.jpg");
    assert_eq!(videos[1].size, 42);
    assert!(videos[1].tags.is_empty());
    assert!(videos[1].probe.is_none());
    assert!(!is_new_video(&videos, "/videos/b.mp4"));
}

#[test]
fn taking_in_a_video_makes_a_thumbnail_and_says_so() {
    let made = thumbnail_invocation("/videos/a.mp4", "a.jpg");
    assert_eq!(made.program, "ffmpeg");
    assert_eq!(
        made.args,
        vec![
            "-i",
            "/videos/a.mp4",
            "-frames",
            "1",
            "-vf",
            "scale=256:-1",
            "-q",
            "20",
            "./.video-sort/thumbs/a.jpg",
        ]
    );
    assert_eq!(registered_line("a.mp4", 1_500_000), "a.mp4 (1.50 MB)");
    assert_eq!(summary(0, "./videos"), "No new .mp4 files found in ./videos.");
    assert_eq!(summary(3, "./videos"), "Done.");
}

#[test]
fn every_request_has_its_route() {
    assert_eq!(route("GET", "/"), Route::Index);
    assert_eq!(route("GET", "/index.css"), Route::Stylesheet);
    assert_eq!(route("GET", "/index.js"), Route::Script);
    assert_eq!(route("GET", "/favicon.ico"), Route::Favicon);
    assert_eq!(route("GET", "/list"), Route::List);
    assert_eq!(route("POST", "/for-youtube"), Route::MoveToDownloads);
    assert_eq!(route("POST", "/restore"), Route::Restore);
    assert_eq!(route("DELETE", "/videos"), Route::DeleteVideos);
    assert_eq!(route("POST", "/tag/rename"), Route::RenameTag);
    assert_eq!(route("POST", "/preview"), Route::Preview);
    assert_eq!(route("POST", "/cook"), Route::Cook);
    assert_eq!(route("OPTIONS", "/anything"), Route::Preflight);
    assert_eq!(route("OPTIONS", "/cook"), Route::Preflight);
    assert_eq!(route("POST", "/tag/add"), Route::EditMetadata(ReqType::Add));
    assert_eq!(route("POST", "/tag/remove"), Route::EditMetadata(ReqType::Remove));
    assert_eq!(route("POST", "/editnote"), Route::EditMetadata(ReqType::EditNote));
    assert_eq!(route("GET", "/v/a.jpg"), Route::ServeVideo);
    assert_eq!(route("GET", "/v/"), Route::ServeVideo);
    assert_eq!(route("GET", "/t/a.jpg"), Route::ServeThumbnail);
    assert_eq!(route("GET", "/v"), Route::NotFound);
    assert_eq!(route("GET", "/cook"), Route::NotFound);
    assert_eq!(route("GET", "/videos"), Route::NotFound);
    assert_eq!(route("GET", ""), Route::NotFound);
    assert_eq!(route("POST", "/"), Route::MethodNotAllowed);
    assert_eq!(route("POST", "/v/a.jpg"), Route::MethodNotAllowed);
    assert_eq!(route("DELETE", "/list"), Route::MethodNotAllowed);
    assert_eq!(route("PUT", "/cook"), Route::MethodNotAllowed);
    assert_eq!(route("get", "/"), Route::MethodNotAllowed);
    assert_eq!(
        method_not_allowed("PUT", "/cook"),
        "Method PUT not supported at /cook."
    );
}

#[test]
fn lost_connections_are_not_worth_a_word() {
    assert!(reports_connection_error(false, false, false));
    assert!(!reports_connection_error(true, false, false));
    assert!(!reports_connection_error(false, true, false));
    assert!(!reports_connection_error(false, false, true));
}

#[test]
fn the_page_for_a_missing_path_escapes_it() {
    assert_eq!(
        not_found_page("<p>{PATH} is not here. {PATH}</p>", "/a<b>"),
        "<p>/a&lt;b&gt; is not here. /a&lt;b&gt;</p>"
    );
    assert_eq!(not_found_page("nothing to fill", "/x"), "nothing to fill");
    assert_eq!(not_found_page("{PATH}", "{PATH}"), "{PATH}");
    assert_eq!(not_found_page("{PATH", "/x"), "{PATH");
}

#[test]
fn replace_all_goes_from_the_left() {
    assert_eq!(replace_all("aaaa", "aa", "b"), "bb");
    assert_eq!(replace_all("aaa", "aa", "b"), "ba");
    assert_eq!(replace_all("abc", "", "x"), "abc");
    assert_eq!(replace_all("", "a", "x"), "");
    assert_eq!(replace_all("é-é", "é", "ee"), "ee-ee");
    for (text, pattern, with) in [("a.b.c", ".", "::"), ("xxyxx", "xx", ""), ("abc", "abcd", "z")] {
        assert_eq!(replace_all(text, pattern, with), text.replace(pattern, with));
    }
}

#[test]
fn heads_of_the_answers() {
    assert_eq!(CORS, "http://127.0.0.1:8000");
    let text = text_head(500);
    assert_eq!(text.status, 500);
    assert_eq!(
        pairs(&text.headers),
        vec![("Content-Type", "text/plain"), ("Access-Control-Allow-Origin", CORS)]
    );
    let page = html_head(404);
    assert_eq!(page.status, 404);
    assert_eq!(
        pairs(&page.headers),
        vec![("Content-Type", "text/html"), ("Access-Control-Allow-Origin", CORS)]
    );
    let json = json_head();
    assert_eq!(json.status, 200);
    assert_eq!(
        pairs(&json.headers),
        vec![("Content-Type", "application/json"), ("Access-Control-Allow-Origin", CORS)]
    );
    let progress = progress_head();
    assert_eq!(progress.status, 200);
    assert_eq!(
        pairs(&progress.headers),
        vec![
            ("Content-Type", "text/plain; charset=utf-8"),
            ("Access-Control-Allow-Origin", CORS)
        ]
    );
    let preflight = preflight_head();
    assert_eq!(preflight.status, 204);
    assert_eq!(
        pairs(&preflight.headers),
        vec![
            ("Access-Control-Allow-Origin", CORS),
            ("Access-Control-Allow-Methods", "GET, POST, OPTIONS, DELETE"),
            ("Access-Control-Allow-Headers", "Content-Type"),
        ]
    );
    let thumbnail = thumbnail_head();
    assert_eq!(thumbnail.status, 200);
    assert_eq!(
        pairs(&thumbnail.headers),
        vec![
            ("Content-Type", "image/jpeg"),
            ("Access-Control-Allow-Origin", CORS),
            ("Cache-Control", "public, max-age=604800"),
        ]
    );
}

#[test]
fn texts_are_compared_by_their_characters() {
    assert!(same_text("é", "é"));
    assert!(!same_text("e", "é"));
    assert!(same_text("", ""));
    assert!(!same_text("a", "ab"));
    assert!(starts_with("/v/x", "/v/"));
    assert!(!starts_with("/v", "/v/"));
    assert!(starts_with("abc", ""));
    assert!(ends_with("a.mp4", ".mp4"));
    assert!(!ends_with("mp4", ".mp4"));
    assert!(ends_with("é", "é"));
}
