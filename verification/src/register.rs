//! Taking new videos into the catalog.

use vstd::prelude::*;
use std::time::SystemTime;
use crate::catalog::{video_views, Video, VideoView};
use crate::handlers::thumbnail_path;
use crate::make_filter::{Invocation, InvocationView};
use crate::text::{
    chars_of, ends_with, has_suffix, owned, push_arg, push_text, same_text, texts,
};
use crate::util::{format_size, size_text};

verus! {

/// Whether `c` may not stand in a file's name: a separator, a wildcard, a
/// quote or the like.
pub open spec fn is_illegal(c: char) -> bool {
    c == '/' || c == '?' || c == '<' || c == '>' || c == '\\' || c == ':' || c == '*' || c == '|'
        || c == '"'
}

/// Whether `c` is a control character.
pub open spec fn is_control(c: char) -> bool {
    c as u32 <= 0x1f || 0x80 <= c as u32 <= 0x9f
}

/// Whether `name` can be the name of a file: at most 255 characters, none
/// of them illegal or a control character.
pub open spec fn is_clean(name: Seq<char>) -> bool {
    &&& name.len() <= 255
    &&& forall|i: int| 0 <= i < name.len() ==> !is_illegal(#[trigger] name[i]) && !is_control(name[i])
}

/// Calls `sanitize_filename::sanitize`, which takes characters out of
/// `name` and adds none. Nothing is proved of the call. Which characters go
/// depends on the system for which the program was built, so the contract
/// claims only what holds on every system: the illegal and the control
/// characters go, and what is left is cut to at most 255 bytes.
#[verifier::external_body]
fn sanitize(name: &str) -> (clean: String)
    ensures
        is_clean(clean@),
{
    sanitize_filename::sanitize(name)
}

/// Whether `name` is a clean stem followed by `.jpg`.
pub open spec fn is_thumbnail_name(name: Seq<char>) -> bool {
    exists|stem: Seq<char>| is_clean(stem) && name == stem + ".jpg"@
}

/// The name of the thumbnail with the stem `stem`.
pub fn thumbnail_name_from(stem: String) -> (name: String)
    ensures
        name@ == stem@ + ".jpg"@,
{
    let mut name = stem;
    push_text(&mut name, ".jpg");
    name
}

/// The name under which the thumbnail of the video at `path` is kept, which
/// also identifies the video: the path made fit for a file's name, and
/// `.jpg`.
pub fn thumbnail_name(path: &str) -> (name: String)
    ensures
        is_thumbnail_name(name@),
{
    let stem = sanitize(path);
    let name = thumbnail_name_from(stem);
    assert(is_clean(stem@) && name@ == stem@ + ".jpg"@);
    name
}

/// Whether the file at `path` counts as a video: its name ends in `.mp4`
/// and is more than that.
pub open spec fn is_mp4(path: Seq<char>) -> bool {
    has_suffix(path, ".mp4"@) && path.len() > 4 && path[path.len() - 5] != '/'
}

/// Whether the catalog tracks a video whose own path is `path`.
pub open spec fn is_tracked(videos: Seq<VideoView>, path: Seq<char>) -> bool {
    exists|i: int| 0 <= i < videos.len() && (#[trigger] videos[i]).path == path
}

/// Whether the catalog tracks a video whose own path is `path`.
pub fn tracks(videos: &Vec<Video>, path: &str) -> (known: bool)
    ensures
        known == is_tracked(video_views(videos@), path@),
{
    let mut i: usize = 0;
    while i < videos.len()
        invariant
            i <= videos.len(),
            forall|j: int| 0 <= j < i ==> (#[trigger] video_views(videos@)[j]).path != path@,
        decreases videos.len() - i,
    {
        if same_text(videos[i].path.as_str(), path) {
            assert(video_views(videos@)[i as int].path == path@);
            return true;
        }
        i += 1;
    }
    false
}

/// Whether the file at `path` is a video that the catalog does not track
/// yet.
pub fn is_new_video(videos: &Vec<Video>, path: &str) -> (fresh: bool)
    ensures
        fresh == (is_mp4(path@) && !is_tracked(video_views(videos@), path@)),
{
    proof {
        reveal_strlit(".mp4");
    }
    if !ends_with(path, ".mp4") {
        return false;
    }
    let list = chars_of(path);
    if list.len() <= 4 || list[list.len() - 5] == '/' {
        return false;
    }
    !tracks(videos, path)
}

/// The invocation that makes the thumbnail of the video at `path`: its
/// first frame, 256 wide, in the lowest quality.
pub open spec fn thumbnail_invocation_view(path: Seq<char>, thumbnail: Seq<char>) -> InvocationView {
    InvocationView {
        program: "ffmpeg"@,
        args: seq![
            "-i"@,
            path,
            "-frames"@,
            "1"@,
            "-vf"@,
            "scale=256:-1"@,
            "-q"@,
            "20"@,
            crate::handlers::thumbnail_path_text(thumbnail),
        ],
    }
}

/// The invocation that makes the thumbnail named `thumbnail` of the video
/// at `path`.
pub fn thumbnail_invocation(path: &str, thumbnail: &str) -> (invocation: Invocation)
    ensures
        invocation@ == thumbnail_invocation_view(path@, thumbnail@),
{
    let mut args: Vec<String> = Vec::new();
    assert(texts(args@) =~= Seq::<Seq<char>>::empty());
    push_arg(&mut args, "-i");
    push_arg(&mut args, path);
    push_arg(&mut args, "-frames");
    push_arg(&mut args, "1");
    push_arg(&mut args, "-vf");
    push_arg(&mut args, "scale=256:-1");
    push_arg(&mut args, "-q");
    push_arg(&mut args, "20");
    crate::text::push_owned(&mut args, thumbnail_path(thumbnail));
    assert(texts(args@) =~= thumbnail_invocation_view(path@, thumbnail@).args);
    Invocation { program: owned("ffmpeg"), args }
}

/// What is said of a video that was taken in: its name and its size.
pub fn registered_line(file_name: &str, size: u64) -> (line: String)
    ensures
        line@ == file_name@ + " ("@ + size_text(size) + ")"@,
{
    let mut line = owned(file_name);
    push_text(&mut line, " (");
    let shown = format_size(size);
    push_text(&mut line, shown.as_str());
    push_text(&mut line, ")");
    line
}

/// Takes a video into the catalog, at its end: without tags, note or
/// probe.
pub fn register(
    videos: &mut Vec<Video>,
    path: String,
    thumbnail_name: String,
    mtime: SystemTime,
    size: u64,
)
    ensures
        video_views(final(videos)@) == video_views(old(videos)@).push(
            VideoView {
                path: path@,
                thumbnail_name: thumbnail_name@,
                tags: Seq::<Seq<char>>::empty(),
                note: Seq::<char>::empty(),
                mtime,
                size,
                probe: None,
                elsewhere: None,
            },
        ),
{
    let video = Video::new(path, thumbnail_name, mtime, size);
    assert(video_views(videos@.push(video)) =~= video_views(videos@).push(video@));
    videos.push(video);
}

/// What is said when a directory has been gone through: that nothing new
/// was found in it, or that the work is done.
pub fn summary(found: usize, directory: &str) -> (said: String)
    ensures
        said@ == (if found == 0 {
            "No new .mp4 files found in "@ + directory@ + "."@
        } else {
            "Done."@
        }),
{
    if found == 0 {
        let mut said = owned("No new .mp4 files found in ");
        push_text(&mut said, directory);
        push_text(&mut said, ".");
        said
    } else {
        owned("Done.")
    }
}

} // verus!
