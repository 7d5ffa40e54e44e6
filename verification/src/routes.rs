//! Which request gets which answer.

use vstd::prelude::*;
use crate::catalog::ReqType;
use crate::text::{has_prefix, owned, push_text, same_text, starts_with};

verus! {

/// What a request asks for.
#[derive(Clone, Copy, Debug, PartialEq, Eq, Structural)]
pub enum Route {
    /// The page itself.
    Index,
    /// The page's style sheet.
    Stylesheet,
    /// The page's script.
    Script,
    /// The page's icon.
    Favicon,
    /// The catalog.
    List,
    /// Setting the selected videos aside for upload.
    MoveToDownloads,
    /// Bringing the selected videos back.
    Restore,
    /// Deleting the selected videos.
    DeleteVideos,
    /// Renaming a tag.
    RenameTag,
    /// Probing the videos that carry a tag.
    Preview,
    /// Rendering a composition.
    Cook,
    /// A browser's question what it may send.
    Preflight,
    /// Adding a tag, removing a tag or replacing a note.
    EditMetadata(ReqType),
    /// A video's file.
    ServeVideo,
    /// A thumbnail.
    ServeThumbnail,
    /// Nothing that the server has.
    NotFound,
    /// Nothing that the server does.
    MethodNotAllowed,
}

/// What a request with the given method and path asks for. The first line
/// that fits decides.
pub open spec fn route_of(method: Seq<char>, path: Seq<char>) -> Route {
    let get = method == "GET"@;
    let post = method == "POST"@;
    if get && path == "/"@ {
        Route::Index
    } else if get && path == "/index.css"@ {
        Route::Stylesheet
    } else if get && path == "/index.js"@ {
        Route::Script
    } else if get && path == "/favicon.ico"@ {
        Route::Favicon
    } else if get && path == "/list"@ {
        Route::List
    } else if post && path == "/for-youtube"@ {
        Route::MoveToDownloads
    } else if post && path == "/restore"@ {
        Route::Restore
    } else if method == "DELETE"@ && path == "/videos"@ {
        Route::DeleteVideos
    } else if post && path == "/tag/rename"@ {
        Route::RenameTag
    } else if post && path == "/preview"@ {
        Route::Preview
    } else if post && path == "/cook"@ {
        Route::Cook
    } else if method == "OPTIONS"@ {
        Route::Preflight
    } else if post && path == "/tag/add"@ {
        Route::EditMetadata(ReqType::Add)
    } else if post && path == "/tag/remove"@ {
        Route::EditMetadata(ReqType::Remove)
    } else if post && path == "/editnote"@ {
        Route::EditMetadata(ReqType::EditNote)
    } else if get && has_prefix(path, "/v/"@) {
        Route::ServeVideo
    } else if get && has_prefix(path, "/t/"@) {
        Route::ServeThumbnail
    } else if get {
        Route::NotFound
    } else {
        Route::MethodNotAllowed
    }
}

/// What a request with the given method and path asks for.
pub fn route(method: &str, path: &str) -> (asked: Route)
    ensures
        asked == route_of(method@, path@),
{
    let get = same_text(method, "GET");
    let post = same_text(method, "POST");
    if get && same_text(path, "/") {
        Route::Index
    } else if get && same_text(path, "/index.css") {
        Route::Stylesheet
    } else if get && same_text(path, "/index.js") {
        Route::Script
    } else if get && same_text(path, "/favicon.ico") {
        Route::Favicon
    } else if get && same_text(path, "/list") {
        Route::List
    } else if post && same_text(path, "/for-youtube") {
        Route::MoveToDownloads
    } else if post && same_text(path, "/restore") {
        Route::Restore
    } else if same_text(method, "DELETE") && same_text(path, "/videos") {
        Route::DeleteVideos
    } else if post && same_text(path, "/tag/rename") {
        Route::RenameTag
    } else if post && same_text(path, "/preview") {
        Route::Preview
    } else if post && same_text(path, "/cook") {
        Route::Cook
    } else if same_text(method, "OPTIONS") {
        Route::Preflight
    } else if post && same_text(path, "/tag/add") {
        Route::EditMetadata(ReqType::Add)
    } else if post && same_text(path, "/tag/remove") {
        Route::EditMetadata(ReqType::Remove)
    } else if post && same_text(path, "/editnote") {
        Route::EditMetadata(ReqType::EditNote)
    } else if get && starts_with(path, "/v/") {
        Route::ServeVideo
    } else if get && starts_with(path, "/t/") {
        Route::ServeThumbnail
    } else if get {
        Route::NotFound
    } else {
        Route::MethodNotAllowed
    }
}

/// What is said to a request whose method the server does not take at its
/// path.
pub fn method_not_allowed(method: &str, path: &str) -> (said: String)
    ensures
        said@ == "Method "@ + method@ + " not supported at "@ + path@ + "."@,
{
    let mut said = owned("Method ");
    push_text(&mut said, method);
    push_text(&mut said, " not supported at ");
    push_text(&mut said, path);
    push_text(&mut said, ".");
    said
}

/// Whether a connection that ended with an error is worth a word: not where
/// the caller hung up in the middle of a message or of an answer, and not
/// where the connection was reset or the pipe broke.
pub fn reports_connection_error(
    incomplete_message: bool,
    body_write_aborted: bool,
    connection_lost: bool,
) -> (worth: bool)
    ensures
        worth == (!incomplete_message && !body_write_aborted && !connection_lost),
{
    !incomplete_message && !body_write_aborted && !connection_lost
}

} // verus!
