//! Preparing a composition: which clips take part, where their files go, and
//! how the encoded clips are joined.

use vstd::prelude::*;
use crate::catalog::{video_views, Video, VideoView};
use crate::common::{ProbeResult, ProbeResultView};
use crate::defs::{clip_views, Clip, ClipView, CookReq, CookReqView};
use crate::error::GraphBuildError;
use crate::make_filter::{clip_invocation, make_clip, Invocation, InvocationView};
use crate::probe::{CookClip, CookClipView};
use crate::text::{decimal, owned, push_arg, push_decimal, push_text, same_text, texts};

verus! {

/// The place of the first video in `videos` whose thumbnail has the name
/// `name`.
pub open spec fn video_place(videos: Seq<VideoView>, name: Seq<char>) -> Option<int>
    decreases videos.len(),
{
    if videos.len() == 0 {
        None
    } else if videos[0].thumbnail_name == name {
        Some(0int)
    } else {
        match video_place(videos.drop_first(), name) {
            Some(i) => Some(i + 1),
            None => None,
        }
    }
}

/// The first video in `videos` whose thumbnail has the name `name`.
pub open spec fn find_video(videos: Seq<VideoView>, name: Seq<char>) -> Option<VideoView> {
    match video_place(videos, name) {
        Some(i) => Some(videos[i]),
        None => None,
    }
}

/// `video_place` gives the place of the first video of that name, and gives
/// none exactly where no video has that name.
pub proof fn lemma_video_place(videos: Seq<VideoView>, name: Seq<char>)
    ensures
        match video_place(videos, name) {
            Some(i) => 0 <= i < videos.len() && videos[i].thumbnail_name == name && forall|j: int|
                0 <= j < i ==> videos[j].thumbnail_name != name,
            None => forall|i: int| 0 <= i < videos.len() ==> videos[i].thumbnail_name != name,
        },
    decreases videos.len(),
{
    if videos.len() == 0 {
    } else if videos[0].thumbnail_name == name {
    } else {
        let rest = videos.drop_first();
        lemma_video_place(rest, name);
        match video_place(rest, name) {
            Some(i) => {
                assert(videos[i + 1] == rest[i]);
                assert forall|j: int| 0 <= j < i + 1 implies videos[j].thumbnail_name
                    != name by {
                    if j > 0 {
                        assert(videos[j] == rest[j - 1]);
                    }
                }
            },
            None => {
                assert forall|i: int| 0 <= i < videos.len() implies videos[i].thumbnail_name
                    != name by {
                    if i > 0 {
                        assert(videos[i] == rest[i - 1]);
                    }
                }
            },
        }
    }
}

/// A place at which a video of the name stands, and before which none does,
/// is the place that `video_place` gives.
pub proof fn lemma_video_place_at(videos: Seq<VideoView>, name: Seq<char>, i: int)
    requires
        0 <= i < videos.len(),
        videos[i].thumbnail_name == name,
        forall|j: int| 0 <= j < i ==> videos[j].thumbnail_name != name,
    ensures
        video_place(videos, name) == Some(i),
        find_video(videos, name) == Some(videos[i]),
{
    lemma_video_place(videos, name);
}

/// The clip as it enters the composition: joined with the probe and the
/// current place of the video it names. A clip whose video is not in the
/// catalog, or has not been probed, takes no part.
pub open spec fn resolve(clip: ClipView, videos: Seq<VideoView>) -> Option<CookClipView> {
    match find_video(videos, clip.thumbnail_name) {
        Some(video) => match video.probe {
            Some(probe) => Some(
                CookClipView {
                    video_path: video.current_loc(),
                    probe,
                    start: clip.start,
                    end: clip.end,
                    override_rotation: clip.override_rotation,
                },
            ),
            None => None,
        },
        None => None,
    }
}

/// The clips that take part in the composition, in the order in which they
/// were asked for.
pub open spec fn resolved(clips: Seq<ClipView>, videos: Seq<VideoView>) -> Seq<CookClipView>
    decreases clips.len(),
{
    if clips.len() == 0 {
        Seq::<CookClipView>::empty()
    } else {
        let before = resolved(clips.drop_last(), videos);
        match resolve(clips.last(), videos) {
            Some(c) => before.push(c),
            None => before,
        }
    }
}

/// The views of a list of clips that take part, in order.
pub open spec fn cook_clip_views(clips: Seq<CookClip>) -> Seq<CookClipView> {
    Seq::new(clips.len(), |i: int| clips[i]@)
}

/// Where every clip can be resolved, every clip takes part, in its place.
pub proof fn lemma_all_resolved(clips: Seq<ClipView>, videos: Seq<VideoView>)
    requires
        forall|i: int| 0 <= i < clips.len() ==> resolve(#[trigger] clips[i], videos) is Some,
    ensures
        resolved(clips, videos).len() == clips.len(),
        forall|i: int|
            0 <= i < clips.len() ==> Some(#[trigger] resolved(clips, videos)[i]) == resolve(
                clips[i],
                videos,
            ),
    decreases clips.len(),
{
    if clips.len() > 0 {
        let front = clips.drop_last();
        assert forall|i: int| 0 <= i < front.len() implies resolve(
            #[trigger] front[i],
            videos,
        ) is Some by {
            assert(front[i] == clips[i]);
        }
        lemma_all_resolved(front, videos);
        assert forall|i: int| 0 <= i < clips.len() implies Some(
            #[trigger] resolved(clips, videos)[i],
        ) == resolve(clips[i], videos) by {
            if i < front.len() {
                assert(front[i] == clips[i]);
                assert(resolved(clips, videos)[i] == resolved(front, videos)[i]);
            }
        }
    }
}

/// Of N clips of which exactly one names a video without a probe, or no
/// video of the catalog, the other N-1 take part, in their order: the one is
/// left out, and nothing else changes.
pub proof fn lemma_one_unresolved_is_dropped(
    clips: Seq<ClipView>,
    videos: Seq<VideoView>,
    dropped: int,
)
    requires
        0 <= dropped < clips.len(),
        resolve(clips[dropped], videos) is None,
        forall|i: int|
            0 <= i < clips.len() && i != dropped ==> resolve(#[trigger] clips[i], videos) is Some,
    ensures
        resolved(clips, videos).len() == clips.len() - 1,
        forall|i: int|
            0 <= i < dropped ==> Some(#[trigger] resolved(clips, videos)[i]) == resolve(
                clips[i],
                videos,
            ),
        forall|i: int|
            dropped < i < clips.len() ==> Some(#[trigger] resolved(clips, videos)[i - 1])
                == resolve(clips[i], videos),
    decreases clips.len(),
{
    let front = clips.drop_last();
    if dropped == clips.len() - 1 {
        assert forall|i: int| 0 <= i < front.len() implies resolve(
            #[trigger] front[i],
            videos,
        ) is Some by {
            assert(front[i] == clips[i]);
        }
        lemma_all_resolved(front, videos);
        assert forall|i: int| 0 <= i < dropped implies Some(
            #[trigger] resolved(clips, videos)[i],
        ) == resolve(clips[i], videos) by {
            assert(front[i] == clips[i]);
        }
    } else {
        assert(front[dropped] == clips[dropped]);
        assert forall|i: int| 0 <= i < front.len() && i != dropped implies resolve(
            #[trigger] front[i],
            videos,
        ) is Some by {
            assert(front[i] == clips[i]);
        }
        lemma_one_unresolved_is_dropped(front, videos, dropped);
        assert(resolve(clips.last(), videos) is Some);
        assert forall|i: int| 0 <= i < dropped implies Some(
            #[trigger] resolved(clips, videos)[i],
        ) == resolve(clips[i], videos) by {
            assert(front[i] == clips[i]);
            assert(resolved(clips, videos)[i] == resolved(front, videos)[i]);
        }
        assert forall|i: int| dropped < i < clips.len() implies Some(
            #[trigger] resolved(clips, videos)[i - 1],
        ) == resolve(clips[i], videos) by {
            if i < front.len() {
                assert(front[i] == clips[i]);
                assert(resolved(clips, videos)[i - 1] == resolved(front, videos)[i - 1]);
            }
        }
    }
}

/// The place in `videos` of the first video whose thumbnail has the name
/// `thumbnail_name`.
pub fn find_video_index(videos: &Vec<Video>, thumbnail_name: &str) -> (found: Option<usize>)
    ensures
        match found {
            Some(i) => i < videos.len() && video_place(video_views(videos@), thumbnail_name@)
                == Some(i as int),
            None => video_place(video_views(videos@), thumbnail_name@) is None,
        },
{
    let mut i: usize = 0;
    while i < videos.len()
        invariant
            i <= videos.len(),
            forall|j: int| 0 <= j < i ==> video_views(videos@)[j].thumbnail_name != thumbnail_name@,
        decreases videos.len() - i,
    {
        if same_text(videos[i].thumbnail_name.as_str(), thumbnail_name) {
            proof {
                lemma_video_place_at(video_views(videos@), thumbnail_name@, i as int);
            }
            return Some(i);
        }
        i += 1;
    }
    proof {
        lemma_video_place(video_views(videos@), thumbnail_name@);
    }
    None
}

/// Joins `clip` with the probe and the current place of the video it names.
pub fn resolve_clip(clip: &Clip, videos: &Vec<Video>) -> (joined: Option<CookClip>)
    ensures
        match joined {
            Some(c) => resolve(clip@, video_views(videos@)) == Some(c@),
            None => resolve(clip@, video_views(videos@)) is None,
        },
{
    match find_video_index(videos, clip.thumbnail_name.as_str()) {
        Some(i) => {
            let video = &videos[i];
            match &video.probe {
                Some(probe) => Some(
                    CookClip {
                        video_path: video.current_loc().clone(),
                        probe: probe.clone(),
                        start: clip.start,
                        end: clip.end,
                        override_rotation: clip.override_rotation,
                    },
                ),
                None => None,
            }
        },
        None => None,
    }
}

/// The clips of a composition that take part in it, in order. A clip whose
/// video is not in the catalog or has no probe is left out without an error;
/// where no clip is left, the composition is refused.
pub fn resolve_clips(clips: &Vec<Clip>, videos: &Vec<Video>) -> (result: Result<
    Vec<CookClip>,
    GraphBuildError,
>)
    ensures
        match result {
            Ok(list) => list.len() > 0 && cook_clip_views(list@) == resolved(
                clip_views(clips@),
                video_views(videos@),
            ),
            Err(e) => e == GraphBuildError::NoValidClips && resolved(
                clip_views(clips@),
                video_views(videos@),
            ).len() == 0,
        },
{
    let mut list: Vec<CookClip> = Vec::new();
    let mut i: usize = 0;
    assert(clip_views(clips@).take(0) =~= Seq::<ClipView>::empty());
    assert(cook_clip_views(list@) =~= Seq::<CookClipView>::empty());
    while i < clips.len()
        invariant
            i <= clips.len(),
            cook_clip_views(list@) == resolved(
                clip_views(clips@).take(i as int),
                video_views(videos@),
            ),
        decreases clips.len() - i,
    {
        let ghost before = cook_clip_views(list@);
        let ghost upto = clip_views(clips@).take(i as int + 1);
        assert(upto.drop_last() =~= clip_views(clips@).take(i as int));
        assert(upto.last() == clips@[i as int]@);
        match resolve_clip(&clips[i], videos) {
            Some(c) => {
                list.push(c);
                assert(cook_clip_views(list@) =~= before.push(c@));
            },
            None => {},
        }
        i += 1;
    }
    assert(clip_views(clips@).take(i as int) =~= clip_views(clips@));
    if list.len() == 0 {
        Err(GraphBuildError::NoValidClips)
    } else {
        Ok(list)
    }
}

/// The common frame onto which every clip of a composition is brought.
#[derive(Clone, Copy, Debug, PartialEq, Eq, Structural)]
pub struct CanvasSpec {
    pub width: u32,
    pub height: u32,
}

impl CanvasSpec {
    /// The canvas of the given size, which must have a width and a height.
    pub fn new(width: u32, height: u32) -> (result: Result<CanvasSpec, GraphBuildError>)
        ensures
            result == (if width == 0 || height == 0 {
                Err::<CanvasSpec, GraphBuildError>(GraphBuildError::ZeroCanvas)
            } else {
                Ok(CanvasSpec { width, height })
            }),
    {
        if width == 0 || height == 0 {
            Err(GraphBuildError::ZeroCanvas)
        } else {
            Ok(CanvasSpec { width, height })
        }
    }
}

/// The larger of two numbers.
pub open spec fn max_of(a: u32, b: u32) -> u32 {
    if a >= b {
        a
    } else {
        b
    }
}

/// The smallest canvas that is as wide as the widest and as high as the
/// highest of the clips as they are displayed.
pub open spec fn covering(clips: Seq<CookClipView>) -> CanvasSpec
    decreases clips.len(),
{
    if clips.len() == 0 {
        CanvasSpec { width: 0, height: 0 }
    } else {
        let before = covering(clips.drop_last());
        CanvasSpec {
            width: max_of(before.width, clips.last().display_width()),
            height: max_of(before.height, clips.last().display_height()),
        }
    }
}

/// The smallest canvas that is as wide as the widest and as high as the
/// highest of the clips as they are displayed.
pub fn canvas_covering(clips: &Vec<CookClip>) -> (canvas: CanvasSpec)
    ensures
        canvas == covering(cook_clip_views(clips@)),
{
    let mut canvas = CanvasSpec { width: 0, height: 0 };
    let mut i: usize = 0;
    assert(cook_clip_views(clips@).take(0) =~= Seq::<CookClipView>::empty());
    while i < clips.len()
        invariant
            i <= clips.len(),
            canvas == covering(cook_clip_views(clips@).take(i as int)),
        decreases clips.len() - i,
    {
        let ghost upto = cook_clip_views(clips@).take(i as int + 1);
        assert(upto.drop_last() =~= cook_clip_views(clips@).take(i as int));
        assert(upto.last() == clips@[i as int]@);
        let size = clips[i].display_size();
        if size.0 > canvas.width {
            canvas.width = size.0;
        }
        if size.1 > canvas.height {
            canvas.height = size.1;
        }
        i += 1;
    }
    assert(cook_clip_views(clips@).take(i as int) =~= cook_clip_views(clips@));
    canvas
}

/// The stream settings of `reference` on the frame of `canvas`.
pub open spec fn on_canvas(canvas: CanvasSpec, reference: ProbeResultView) -> ProbeResultView {
    ProbeResultView { width: canvas.width, height: canvas.height, ..reference }
}

/// The encoding that every clip of a composition is brought to: the stream
/// settings of `reference` on the frame of `canvas`.
pub fn base_encode(canvas: &CanvasSpec, reference: &ProbeResult) -> (base: ProbeResult)
    ensures
        base@ == on_canvas(*canvas, reference@),
{
    let mut base = reference.clone();
    base.width = canvas.width;
    base.height = canvas.height;
    base
}

/// The sum of the lengths of the cuts, in microseconds: how long the
/// composition plays.
pub open spec fn total_length(clips: Seq<CookClipView>) -> int
    decreases clips.len(),
{
    if clips.len() == 0 {
        0
    } else {
        total_length(clips.drop_last()) + clips.last().length()
    }
}

/// How long the composition of `clips` plays, in microseconds.
pub fn composition_length(clips: &Vec<CookClip>) -> (length: u128)
    requires
        forall|i: int| 0 <= i < clips.len() ==> clips@[i].start <= clips@[i].end,
    ensures
        length == total_length(cook_clip_views(clips@)),
{
    let mut length: u128 = 0;
    let mut i: usize = 0;
    assert(cook_clip_views(clips@).take(0) =~= Seq::<CookClipView>::empty());
    while i < clips.len()
        invariant
            i <= clips.len(),
            forall|j: int| 0 <= j < clips.len() ==> clips@[j].start <= clips@[j].end,
            length == total_length(cook_clip_views(clips@).take(i as int)),
            length <= i * 0xFFFF_FFFF_FFFF_FFFF,
        decreases clips.len() - i,
    {
        let ghost upto = cook_clip_views(clips@).take(i as int + 1);
        assert(upto.drop_last() =~= cook_clip_views(clips@).take(i as int));
        assert(upto.last() == clips@[i as int]@);
        length = length + (clips[i].end - clips[i].start) as u128;
        i += 1;
    }
    assert(cook_clip_views(clips@).take(i as int) =~= cook_clip_views(clips@));
    length
}

/// The directory in which one composition is put together. `stamp` tells
/// compositions apart: the time at which the request came, in milliseconds.
pub open spec fn work_dir_text(stamp: u64) -> Seq<char> {
    "./.video-sort"@ + "/work/"@ + decimal(stamp as nat)
}

/// The directory in which one composition is put together.
pub fn work_dir(stamp: u64) -> (dir: String)
    ensures
        dir@ == work_dir_text(stamp),
{
    let mut dir = owned(crate::common::DIR_PATH);
    push_text(&mut dir, "/work/");
    push_decimal(&mut dir, stamp);
    dir
}

/// The name of the file that holds the encoded clip number `index`.
pub open spec fn clip_file_text(index: nat) -> Seq<char> {
    "clip"@ + decimal(index) + ".mp4"@
}

/// The file in `work_dir` that holds the encoded clip number `index`.
pub open spec fn clip_path_text(work_dir: Seq<char>, index: nat) -> Seq<char> {
    work_dir + "/"@ + clip_file_text(index)
}

/// The file in `work_dir` that holds the encoded clip number `index`.
pub fn clip_path(work_dir: &str, index: usize) -> (path: String)
    ensures
        path@ == clip_path_text(work_dir@, index as nat),
{
    let mut path = owned(work_dir);
    push_text(&mut path, "/");
    push_text(&mut path, "clip");
    push_decimal(&mut path, index as u64);
    push_text(&mut path, ".mp4");
    assert(path@ =~= clip_path_text(work_dir@, index as nat));
    path
}

/// The line of the concat list that names clip number `index`.
pub open spec fn concat_line(index: nat) -> Seq<char> {
    "file '"@ + clip_file_text(index) + "'\n"@
}

/// The list that names the first `count` encoded clips in order, one line
/// for each.
pub open spec fn concat_list_text(count: nat) -> Seq<char>
    decreases count,
{
    if count == 0 {
        Seq::<char>::empty()
    } else {
        concat_list_text((count - 1) as nat) + concat_line((count - 1) as nat)
    }
}

/// The list that names the `count` encoded clips in order, one line for
/// each, as the encoder reads it to join them.
pub fn concat_list(count: usize) -> (list: String)
    ensures
        list@ == concat_list_text(count as nat),
{
    let mut list = String::new();
    let mut i: usize = 0;
    while i < count
        invariant
            i <= count,
            list@ == concat_list_text(i as nat),
        decreases count - i,
    {
        let ghost before = list@;
        push_text(&mut list, "file '");
        push_text(&mut list, "clip");
        push_decimal(&mut list, i as u64);
        push_text(&mut list, ".mp4");
        push_text(&mut list, "'\n");
        assert(list@ =~= before + concat_line(i as nat));
        i += 1;
    }
    list
}

/// The file in `work_dir` that holds the concat list.
pub open spec fn concat_path_text(work_dir: Seq<char>) -> Seq<char> {
    work_dir + "/concat.txt"@
}

/// The file in `work_dir` that holds the concat list.
pub fn concat_path(work_dir: &str) -> (path: String)
    ensures
        path@ == concat_path_text(work_dir@),
{
    let mut path = owned(work_dir);
    push_text(&mut path, "/concat.txt");
    path
}

/// The file that a composition named `name` is written to.
pub open spec fn output_path_text(name: Seq<char>) -> Seq<char> {
    "./storage/downloads/"@ + name + ".mp4"@
}

/// The file that a composition named `name` is written to.
pub fn output_path(name: &str) -> (path: String)
    ensures
        path@ == output_path_text(name@),
{
    let mut path = owned("./storage/downloads/");
    push_text(&mut path, name);
    push_text(&mut path, ".mp4");
    path
}

/// The invocation that joins the clips listed in `concat_path` into
/// `output_path`, copying their streams as they are.
pub open spec fn concat_invocation_view(
    concat_path: Seq<char>,
    output_path: Seq<char>,
) -> InvocationView {
    InvocationView {
        program: "ffmpeg"@,
        args: seq![
            "-v"@,
            "error"@,
            "-stats"@,
            "-f"@,
            "concat"@,
            "-i"@,
            concat_path,
            "-c"@,
            "copy"@,
            "-y"@,
            output_path,
        ],
    }
}

/// The invocation that joins the clips listed in `concat_path` into
/// `output_path` without encoding them again.
pub fn concat_invocation(concat_path: &str, output_path: &str) -> (invocation: Invocation)
    ensures
        invocation@ == concat_invocation_view(concat_path@, output_path@),
{
    let mut args: Vec<String> = Vec::new();
    assert(texts(args@) =~= Seq::<Seq<char>>::empty());
    push_arg(&mut args, "-v");
    push_arg(&mut args, "error");
    push_arg(&mut args, "-stats");
    push_arg(&mut args, "-f");
    push_arg(&mut args, "concat");
    push_arg(&mut args, "-i");
    push_arg(&mut args, concat_path);
    push_arg(&mut args, "-c");
    push_arg(&mut args, "copy");
    push_arg(&mut args, "-y");
    push_arg(&mut args, output_path);
    assert(texts(args@) =~= concat_invocation_view(concat_path@, output_path@).args);
    Invocation { program: owned("ffmpeg"), args }
}

/// A line of an encoder's progress, marked with the number of its clip.
pub open spec fn progress_line_text(index: nat, line: Seq<char>) -> Seq<char> {
    "["@ + decimal(index) + "] "@ + line + "\n"@
}

/// A line of an encoder's progress as it is sent to the caller: marked with
/// the number of its clip, so that lines of clips that are encoded at the
/// same time can be told apart.
pub fn progress_line(index: usize, line: &str) -> (tagged: String)
    ensures
        tagged@ == progress_line_text(index as nat, line@),
{
    let mut tagged = owned("[");
    push_decimal(&mut tagged, index as u64);
    push_text(&mut tagged, "] ");
    push_text(&mut tagged, line);
    push_text(&mut tagged, "\n");
    tagged
}

/// Whether every clip ends after its start.
pub open spec fn all_cut(clips: Seq<CookClipView>) -> bool {
    forall|i: int| 0 <= i < clips.len() ==> (#[trigger] clips[i]).start < clips[i].end
}

/// Whether every clip ends after its start.
pub fn check_cuts(clips: &Vec<CookClip>) -> (cut: bool)
    ensures
        cut == all_cut(cook_clip_views(clips@)),
{
    let mut i: usize = 0;
    while i < clips.len()
        invariant
            i <= clips.len(),
            forall|j: int|
                0 <= j < i ==> (#[trigger] cook_clip_views(clips@)[j]).start < cook_clip_views(
                    clips@,
                )[j].end,
        decreases clips.len() - i,
    {
        if clips[i].start >= clips[i].end {
            assert(cook_clip_views(clips@)[i as int].start >= cook_clip_views(
                clips@,
            )[i as int].end);
            return false;
        }
        i += 1;
    }
    true
}

/// Everything that is needed to render a composition: where it is put
/// together, the encoder of each clip, and how the encoded clips are joined.
#[derive(Debug)]
pub struct CookPlan {
    /// The directory in which the composition is put together.
    pub work_dir: String,
    /// The encoder of each clip that takes part, in order.
    pub encoders: Vec<Invocation>,
    /// The file that holds the concat list.
    pub concat_path: String,
    /// The concat list.
    pub concat_list: String,
    /// The process that joins the encoded clips.
    pub concat: Invocation,
}

/// A `CookPlan` as a mathematical value.
pub struct CookPlanView {
    pub work_dir: Seq<char>,
    pub encoders: Seq<InvocationView>,
    pub concat_path: Seq<char>,
    pub concat_list: Seq<char>,
    pub concat: InvocationView,
}

/// The views of a list of invocations, in order.
pub open spec fn invocation_views(list: Seq<Invocation>) -> Seq<InvocationView> {
    Seq::new(list.len(), |i: int| list[i]@)
}

impl View for CookPlan {
    type V = CookPlanView;

    open spec fn view(&self) -> CookPlanView {
        CookPlanView {
            work_dir: self.work_dir@,
            encoders: invocation_views(self.encoders@),
            concat_path: self.concat_path@,
            concat_list: self.concat_list@,
            concat: self.concat@,
        }
    }
}

/// The encoding to which a composition brings its clips: the stream
/// settings of the first clip that takes part, on the canvas that was asked
/// for.
pub open spec fn reference_encode(request: CookReqView, clips: Seq<CookClipView>) -> ProbeResultView {
    on_canvas(CanvasSpec { width: request.width, height: request.height }, clips[0].probe)
}

/// The plan of a composition whose clips `clips` take part and which is put
/// together under the stamp `stamp`.
pub open spec fn plan_of(request: CookReqView, clips: Seq<CookClipView>, stamp: u64) -> CookPlanView {
    let dir = work_dir_text(stamp);
    let base = reference_encode(request, clips);
    CookPlanView {
        work_dir: dir,
        encoders: Seq::new(
            clips.len(),
            |i: int| clip_invocation(clips[i], base, clip_path_text(dir, i as nat)),
        ),
        concat_path: concat_path_text(dir),
        concat_list: concat_list_text(clips.len()),
        concat: concat_invocation_view(concat_path_text(dir), output_path_text(request.name)),
    }
}

/// What `plan_composition` answers: an error for a canvas without area,
/// then for a composition of which no clip takes part, then for a cut
/// without length; the plan otherwise.
pub open spec fn plan_spec(request: CookReqView, videos: Seq<VideoView>, stamp: u64) -> Result<
    CookPlanView,
    GraphBuildError,
> {
    let clips = resolved(request.clips, videos);
    if request.width == 0 || request.height == 0 {
        Err(GraphBuildError::ZeroCanvas)
    } else if clips.len() == 0 {
        Err(GraphBuildError::NoValidClips)
    } else if !all_cut(clips) {
        Err(GraphBuildError::EmptyRange)
    } else {
        Ok(plan_of(request, clips, stamp))
    }
}

/// The view of what `plan_composition` answers.
pub open spec fn plan_result(result: Result<CookPlan, GraphBuildError>) -> Result<
    CookPlanView,
    GraphBuildError,
> {
    match result {
        Ok(plan) => Ok(plan@),
        Err(e) => Err(e),
    }
}

/// Plans a composition before any process is started. The clips that the
/// request names are joined with their probes; those without a probe are
/// left out. Every clip that takes part gets an encoder that brings it onto
/// the canvas of the request, encoded like the first of them, and writes it
/// into the working directory, which `stamp` tells apart from others. The
/// request is refused where its canvas has no width or no height, where
/// none of its clips takes part, and where a clip that takes part ends at
/// or before its start.
pub fn plan_composition(request: &CookReq, videos: &Vec<Video>, stamp: u64) -> (result: Result<
    CookPlan,
    GraphBuildError,
>)
    ensures
        plan_result(result) == plan_spec(request@, video_views(videos@), stamp),
{
    let canvas = match CanvasSpec::new(request.width, request.height) {
        Ok(canvas) => canvas,
        Err(e) => {
            return Err(e);
        },
    };
    let clips = match resolve_clips(&request.clips, videos) {
        Ok(clips) => clips,
        Err(e) => {
            return Err(e);
        },
    };
    if !check_cuts(&clips) {
        return Err(GraphBuildError::EmptyRange);
    }
    let ghost views = cook_clip_views(clips@);
    assert(views[0] == clips@[0]@);
    let base = base_encode(&canvas, &clips[0].probe);
    let dir = work_dir(stamp);
    let ghost wanted = plan_of(request@, views, stamp);
    let mut encoders: Vec<Invocation> = Vec::new();
    let mut i: usize = 0;
    while i < clips.len()
        invariant
            i <= clips.len(),
            views == cook_clip_views(clips@),
            all_cut(views),
            base.width != 0,
            base.height != 0,
            base@ == reference_encode(request@, views),
            dir@ == work_dir_text(stamp),
            wanted == plan_of(request@, views, stamp),
            encoders.len() == i,
            forall|j: int| 0 <= j < i ==> encoders@[j]@ == wanted.encoders[j],
        decreases clips.len() - i,
    {
        assert(views[i as int] == clips@[i as int]@);
        let path = clip_path(dir.as_str(), i);
        match make_clip(&clips[i], &base, path.as_str()) {
            Ok(invocation) => {
                encoders.push(invocation);
            },
            Err(e) => {
                return Err(e);
            },
        }
        i += 1;
    }
    assert(invocation_views(encoders@) =~= wanted.encoders);
    let list_path = concat_path(dir.as_str());
    let out = output_path(request.name.as_str());
    let concat = concat_invocation(list_path.as_str(), out.as_str());
    Ok(
        CookPlan {
            work_dir: dir,
            encoders,
            concat_path: list_path,
            concat_list: concat_list(clips.len()),
            concat,
        },
    )
}

} // verus!
