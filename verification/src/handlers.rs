//! What the requests on the catalog do to it.

use vstd::prelude::*;
use crate::catalog::{video_views, ReqType, Video, VideoView};
use crate::common::ProbeResult;
use crate::cook::{find_video_index, video_place};
use crate::defs::{RenameTagRequest, VideoMetadataEditReq, VideoSelectRequest, VideoSelectView};
use crate::text::{contains_text, owned, push_text};

verus! {

/// The videos after every one that `target` selects was edited.
pub open spec fn edited_all(
    videos: Seq<VideoView>,
    target: VideoSelectView,
    kind: ReqType,
    tag_or_note: Seq<char>,
) -> Seq<VideoView> {
    Seq::new(
        videos.len(),
        |i: int|
            if target.matches(videos[i]) {
                videos[i].edited(kind, tag_or_note)
            } else {
                videos[i]
            },
    )
}

/// Whether `target` selects any of the videos.
pub open spec fn selects_any(videos: Seq<VideoView>, target: VideoSelectView) -> bool {
    exists|i: int| 0 <= i < videos.len() && target.matches(#[trigger] videos[i])
}

/// Adds a tag to every video that the request selects, removes it from
/// them, or replaces their note. Answers whether the request selects any
/// video.
pub fn edit_matching(videos: &mut Vec<Video>, request: &VideoMetadataEditReq, kind: ReqType) -> (found:
    bool)
    ensures
        video_views(final(videos)@) == edited_all(
            video_views(old(videos)@),
            request.target@,
            kind,
            request.tag_or_note@,
        ),
        found == selects_any(video_views(old(videos)@), request.target@),
{
    let mut found = false;
    let mut i: usize = 0;
    let ghost before = video_views(videos@);
    let ghost after = edited_all(before, request.target@, kind, request.tag_or_note@);
    while i < videos.len()
        invariant
            i <= videos.len(),
            videos.len() == before.len(),
            before == video_views(old(videos)@),
            after == edited_all(before, request.target@, kind, request.tag_or_note@),
            forall|j: int| 0 <= j < i ==> video_views(videos@)[j] == after[j],
            forall|j: int| i <= j < videos.len() ==> video_views(videos@)[j] == before[j],
            found == exists|j: int| 0 <= j < i && request.target@.matches(#[trigger] before[j]),
        decreases videos.len() - i,
    {
        let ghost now = video_views(videos@);
        assert(now[i as int] == before[i as int]);
        if request.target.match_video(&videos[i]) {
            videos[i].edit(kind, request.tag_or_note.as_str());
            found = true;
        }
        assert(video_views(videos@)[i as int] == after[i as int]);
        assert forall|j: int| 0 <= j < i implies video_views(videos@)[j] == after[j] by {
            assert(video_views(videos@)[j] == now[j]);
        }
        assert forall|j: int| i < j < videos.len() implies video_views(videos@)[j]
            == before[j] by {
            assert(video_views(videos@)[j] == now[j]);
        }
        i += 1;
    }
    assert(video_views(videos@) =~= after);
    found
}

/// The videos after a tag was renamed on every one that carries it.
pub open spec fn renamed_all(videos: Seq<VideoView>, old_tag: Seq<char>, new_tag: Seq<char>) -> Seq<
    VideoView,
> {
    Seq::new(videos.len(), |i: int| videos[i].renamed(old_tag, new_tag))
}

/// Gives the tag `request.old` the name `request.new` on every video that
/// carries it.
pub fn rename_tag(videos: &mut Vec<Video>, request: &RenameTagRequest)
    ensures
        video_views(final(videos)@) == renamed_all(
            video_views(old(videos)@),
            request.old@,
            request.new@,
        ),
{
    let mut i: usize = 0;
    let ghost before = video_views(videos@);
    let ghost after = renamed_all(before, request.old@, request.new@);
    while i < videos.len()
        invariant
            i <= videos.len(),
            videos.len() == before.len(),
            after == renamed_all(before, request.old@, request.new@),
            forall|j: int| 0 <= j < i ==> video_views(videos@)[j] == after[j],
            forall|j: int| i <= j < videos.len() ==> video_views(videos@)[j] == before[j],
        decreases videos.len() - i,
    {
        let ghost now = video_views(videos@);
        assert(now[i as int] == before[i as int]);
        videos[i].rename_tag(request.old.as_str(), request.new.as_str());
        assert(video_views(videos@)[i as int] == after[i as int]);
        assert forall|j: int| 0 <= j < i implies video_views(videos@)[j] == after[j] by {
            assert(video_views(videos@)[j] == now[j]);
        }
        assert forall|j: int| i < j < videos.len() implies video_views(videos@)[j]
            == before[j] by {
            assert(video_views(videos@)[j] == now[j]);
        }
        i += 1;
    }
    assert(video_views(videos@) =~= after);
}

/// Those of the videos, in order, that `target` selects (with `wanted`) or
/// does not select (without).
pub open spec fn sorted_out(videos: Seq<VideoView>, target: VideoSelectView, wanted: bool) -> Seq<
    VideoView,
>
    decreases videos.len(),
{
    if videos.len() == 0 {
        Seq::<VideoView>::empty()
    } else {
        let before = sorted_out(videos.drop_last(), target, wanted);
        if target.matches(videos.last()) == wanted {
            before.push(videos.last())
        } else {
            before
        }
    }
}

/// Takes the videos that the request selects out of the catalog and hands
/// them over, in the order in which they stood; the others stay, in theirs.
pub fn take_matching(videos: &mut Vec<Video>, request: &VideoSelectRequest) -> (taken: Vec<Video>)
    ensures
        video_views(taken@) == sorted_out(video_views(old(videos)@), request@, true),
        video_views(final(videos)@) == sorted_out(video_views(old(videos)@), request@, false),
{
    let mut all: Vec<Video> = Vec::new();
    std::mem::swap(videos, &mut all);
    let mut taken: Vec<Video> = Vec::new();
    let ghost before = video_views(all@);
    assert(before == video_views(old(videos)@));
    assert(before.take(0) =~= Seq::<VideoView>::empty());
    assert(video_views(taken@) =~= Seq::<VideoView>::empty());
    assert(video_views(videos@) =~= Seq::<VideoView>::empty());
    for video in it: all
        invariant
            before == video_views(it.seq()),
            video_views(taken@) == sorted_out(before.take(it.index() as int), request@, true),
            video_views(videos@) == sorted_out(before.take(it.index() as int), request@, false),
    {
        let ghost upto = before.take(it.index() as int + 1);
        assert(upto.drop_last() =~= before.take(it.index() as int));
        assert(upto.last() == video@);
        let ghost taken_before = video_views(taken@);
        let ghost kept_before = video_views(videos@);
        if request.match_video(&video) {
            taken.push(video);
            assert(video_views(taken@) =~= taken_before.push(video@));
        } else {
            videos.push(video);
            assert(video_views(videos@) =~= kept_before.push(video@));
        }
    }
    assert(before.take(before.len() as int) =~= before);
    taken
}

/// Whether a video carries `tag` and has not been probed.
pub open spec fn wants_probe(video: VideoView, tag: Seq<char>) -> bool {
    video.tags.contains(tag) && video.probe is None
}

/// The places, in rising order, of the videos among the first `upto` that
/// carry `tag` and have not been probed.
pub open spec fn unprobed(videos: Seq<VideoView>, tag: Seq<char>, upto: int) -> Seq<usize>
    decreases upto,
{
    if upto <= 0 {
        Seq::<usize>::empty()
    } else {
        let before = unprobed(videos, tag, upto - 1);
        if wants_probe(videos[upto - 1], tag) {
            before.push((upto - 1) as usize)
        } else {
            before
        }
    }
}

/// The places in the catalog of the videos that carry `tag` and have not
/// been probed: those that a request to prepare a preview has probed.
pub fn unprobed_with_tag(videos: &Vec<Video>, tag: &str) -> (places: Vec<usize>)
    ensures
        places@ == unprobed(video_views(videos@), tag@, videos.len() as int),
        forall|k: int| 0 <= k < places.len() ==> places@[k] < videos.len(),
{
    let mut places: Vec<usize> = Vec::new();
    let mut i: usize = 0;
    while i < videos.len()
        invariant
            i <= videos.len(),
            places@ == unprobed(video_views(videos@), tag@, i as int),
            forall|k: int| 0 <= k < places.len() ==> places@[k] < videos.len(),
        decreases videos.len() - i,
    {
        assert(video_views(videos@)[i as int] == videos@[i as int]@);
        if contains_text(&videos[i].tags, tag) && videos[i].probe.is_none() {
            places.push(i);
        }
        i += 1;
    }
    places
}

/// The videos after the first one whose thumbnail has the name `name` got
/// the probe `probe`.
pub open spec fn with_probe(
    videos: Seq<VideoView>,
    name: Seq<char>,
    probe: crate::common::ProbeResultView,
) -> Seq<VideoView> {
    match video_place(videos, name) {
        Some(i) => videos.update(i, VideoView { probe: Some(probe), ..videos[i] }),
        None => videos,
    }
}

/// Keeps `probe` with the first video whose thumbnail has the name
/// `thumbnail_name`. Answers whether there is such a video; where there is
/// none, nothing changes.
pub fn store_probe(videos: &mut Vec<Video>, thumbnail_name: &str, probe: ProbeResult) -> (found:
    bool)
    ensures
        found == (video_place(video_views(old(videos)@), thumbnail_name@) is Some),
        video_views(final(videos)@) == with_probe(
            video_views(old(videos)@),
            thumbnail_name@,
            probe@,
        ),
{
    match find_video_index(videos, thumbnail_name) {
        Some(i) => {
            let ghost before = video_views(videos@);
            assert(before[i as int] == videos@[i as int]@);
            videos[i].probe = Some(probe);
            assert(video_views(videos@) =~= before.update(
                i as int,
                VideoView { probe: Some(probe@), ..before[i as int] },
            ));
            true
        },
        None => false,
    }
}

/// Where the thumbnail named `name` is kept.
pub open spec fn thumbnail_path_text(name: Seq<char>) -> Seq<char> {
    "./.video-sort"@ + "/thumbs/"@ + name
}

/// Where the thumbnail named `name` is kept.
pub fn thumbnail_path(name: &str) -> (path: String)
    ensures
        path@ == thumbnail_path_text(name@),
{
    let mut path = owned(crate::common::DIR_PATH);
    push_text(&mut path, "/thumbs/");
    push_text(&mut path, name);
    assert(path@ =~= thumbnail_path_text(name@));
    path
}

/// Where the preview of the video with the thumbnail named `name` is kept.
pub open spec fn preview_path_text(name: Seq<char>) -> Seq<char> {
    thumbnail_path_text(name) + ".mp4"@
}

/// Where the preview of the video with the thumbnail named `name` is kept.
pub fn preview_path(name: &str) -> (path: String)
    ensures
        path@ == preview_path_text(name@),
{
    let mut path = thumbnail_path(name);
    push_text(&mut path, ".mp4");
    path
}

/// Where the catalog is kept between runs.
pub fn state_path() -> (path: String)
    ensures
        path@ == "./.video-sort"@ + "/state.json"@,
{
    let mut path = owned(crate::common::DIR_PATH);
    push_text(&mut path, "/state.json");
    path
}

/// Where a video with the thumbnail named `name` goes when it is set aside
/// for upload.
pub open spec fn youtube_path_text(name: Seq<char>) -> Seq<char> {
    "./storage/downloads/for-youtube/yt_"@ + name + ".mp4"@
}

/// Where a video with the thumbnail named `name` goes when it is set aside
/// for upload.
pub fn youtube_path(name: &str) -> (path: String)
    ensures
        path@ == youtube_path_text(name@),
{
    let mut path = owned("./storage/downloads/for-youtube/yt_");
    push_text(&mut path, name);
    push_text(&mut path, ".mp4");
    path
}

/// The files that go with a video that leaves the catalog.
#[derive(Debug)]
pub struct Removal {
    /// The preview, which may not exist.
    pub preview: String,
    /// The thumbnail.
    pub thumbnail: String,
    /// The video itself, where it is now.
    pub video: String,
}

/// The files that go with `video` when it leaves the catalog.
pub fn removal_of(video: &Video) -> (removal: Removal)
    ensures
        removal.preview@ == preview_path_text(video@.thumbnail_name),
        removal.thumbnail@ == thumbnail_path_text(video@.thumbnail_name),
        removal.video@ == video@.current_loc(),
{
    Removal {
        preview: preview_path(video.thumbnail_name.as_str()),
        thumbnail: thumbnail_path(video.thumbnail_name.as_str()),
        video: video.current_loc().clone(),
    }
}

} // verus!
