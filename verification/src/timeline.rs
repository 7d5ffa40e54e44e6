//! The filter graph of a whole composition: the chains of all clips, and the
//! step that joins their outputs into one video and one audio stream.

use vstd::prelude::*;
use crate::common::{ProbeResult, ProbeResultView};
use crate::cook::{all_cut, check_cuts, cook_clip_views};
use crate::error::GraphBuildError;
use crate::filter_text::{chain_text, clip_fit, push_chain, Labels, LabelsView};
use crate::fit::Fit;
use crate::make_filter::{
    audio_args, graph_args, output_args, push_audio_args, push_graph_args, push_output_args,
    push_video_args, video_args, Invocation, InvocationView,
};
use crate::probe::{CookClip, CookClipView};
use crate::text::{decimal, owned, push_arg, push_decimal, push_text, texts};

verus! {

/// A filter graph with the files that it reads, in the order of its inputs.
#[derive(Debug)]
pub struct Timeline {
    pub program: String,
    pub inputs: Vec<String>,
}

/// A `Timeline` as a mathematical value.
pub struct TimelineView {
    pub program: Seq<char>,
    pub inputs: Seq<Seq<char>>,
}

impl View for Timeline {
    type V = TimelineView;

    open spec fn view(&self) -> TimelineView {
        TimelineView { program: self.program@, inputs: texts(self.inputs@) }
    }
}

/// What closes the chains of a clip: a chain that ends in its output label
/// is closed by a semicolon; the letterbox closes itself.
pub open spec fn closing_text(fit: Fit) -> Seq<char> {
    if fit is Letterbox {
        Seq::<char>::empty()
    } else {
        "; "@
    }
}

/// The chains of the clip number `index` of a composition.
pub open spec fn numbered_chain(clip: CookClipView, base: ProbeResultView, index: nat) -> Seq<char> {
    chain_text(clip, base, LabelsView::numbered(index)) + closing_text(clip_fit(clip, base))
}

/// The chains of the first `count` clips, in order.
pub open spec fn chains_text(clips: Seq<CookClipView>, base: ProbeResultView, count: nat) -> Seq<
    char,
>
    decreases count,
{
    if count == 0 {
        Seq::<char>::empty()
    } else {
        chains_text(clips, base, (count - 1) as nat) + numbered_chain(
            clips[count - 1],
            base,
            (count - 1) as nat,
        )
    }
}

/// The output labels of the clip number `index`: its video, and its audio
/// where the composition has audio.
pub open spec fn pair_text(index: nat, with_audio: bool) -> Seq<char> {
    if with_audio {
        LabelsView::numbered(index).label("outv"@) + " "@ + LabelsView::numbered(index).label(
            "outa"@,
        ) + " "@
    } else {
        LabelsView::numbered(index).label("outv"@) + " "@
    }
}

/// The output labels of the first `count` clips, in order.
pub open spec fn pairs_text(count: nat, with_audio: bool) -> Seq<char>
    decreases count,
{
    if count == 0 {
        Seq::<char>::empty()
    } else {
        pairs_text((count - 1) as nat, with_audio) + pair_text((count - 1) as nat, with_audio)
    }
}

/// The step that joins the outputs of `count` clips into one video stream
/// `[outv]` and, where the composition has audio, one audio stream `[outa]`.
pub open spec fn join_text(count: nat, with_audio: bool) -> Seq<char> {
    if with_audio {
        pairs_text(count, with_audio) + "concat = n="@ + decimal(count) + " : v=1 : a=1"@
            + " [outv] [outa]"@
    } else {
        pairs_text(count, with_audio) + "concat = n="@ + decimal(count) + " : v=1 : a=0"@
            + " [outv]"@
    }
}

/// The filter graph of the composition of `clips`, encoded like `base`.
pub open spec fn program_text(clips: Seq<CookClipView>, base: ProbeResultView) -> Seq<char> {
    chains_text(clips, base, clips.len()) + join_text(clips.len(), base.audio is Some)
}

/// The files of the clips, in order.
pub open spec fn inputs_of(clips: Seq<CookClipView>) -> Seq<Seq<char>> {
    Seq::new(clips.len(), |i: int| clips[i].video_path)
}

/// What `build` answers: an error for a canvas without area, then for a
/// composition without clips, then for a cut without length; the graph and
/// its inputs otherwise.
pub open spec fn build_spec(clips: Seq<CookClipView>, base: ProbeResultView) -> Result<
    TimelineView,
    GraphBuildError,
> {
    if base.width == 0 || base.height == 0 {
        Err(GraphBuildError::ZeroCanvas)
    } else if clips.len() == 0 {
        Err(GraphBuildError::NoValidClips)
    } else if !all_cut(clips) {
        Err(GraphBuildError::EmptyRange)
    } else {
        Ok(TimelineView { program: program_text(clips, base), inputs: inputs_of(clips) })
    }
}

/// The view of what `build` answers.
pub open spec fn timeline_result(result: Result<Timeline, GraphBuildError>) -> Result<
    TimelineView,
    GraphBuildError,
> {
    match result {
        Ok(timeline) => Ok(timeline@),
        Err(e) => Err(e),
    }
}

/// Appends the step that joins the outputs of `count` clips.
pub fn push_join(out: &mut String, count: usize, with_audio: bool)
    ensures
        final(out)@ == old(out)@ + join_text(count as nat, with_audio),
{
    let mut i: usize = 0;
    assert(out@ =~= old(out)@ + pairs_text(0, with_audio));
    while i < count
        invariant
            i <= count,
            out@ == old(out)@ + pairs_text(i as nat, with_audio),
        decreases count - i,
    {
        let ghost before = out@;
        let labels = Labels::numbered(i);
        labels.push_label(out, "outv");
        push_text(out, " ");
        if with_audio {
            labels.push_label(out, "outa");
            push_text(out, " ");
        }
        assert(out@ =~= before + pair_text(i as nat, with_audio));
        assert(out@ =~= old(out)@ + pairs_text((i + 1) as nat, with_audio));
        i += 1;
    }
    push_text(out, "concat = n=");
    push_decimal(out, count as u64);
    if with_audio {
        push_text(out, " : v=1 : a=1");
        push_text(out, " [outv] [outa]");
    } else {
        push_text(out, " : v=1 : a=0");
        push_text(out, " [outv]");
    }
    assert(out@ =~= old(out)@ + join_text(count as nat, with_audio));
}

/// The filter graph of a whole composition, with the files that it reads.
/// Every clip is cut, turned upright and brought onto the canvas of
/// `base_encode` in chains of its own, which read input number `i` and
/// carry the number `i` in their labels; one last step joins the outputs of
/// all clips, in order, into `[outv]` and `[outa]`. A canvas without width or
/// height is refused, and so are a composition without clips and a clip that
/// ends at or before its start.
pub fn build(base_encode: &ProbeResult, clips: &Vec<CookClip>) -> (result: Result<
    Timeline,
    GraphBuildError,
>)
    ensures
        timeline_result(result) == build_spec(cook_clip_views(clips@), base_encode@),
{
    if base_encode.width == 0 || base_encode.height == 0 {
        return Err(GraphBuildError::ZeroCanvas);
    }
    if clips.len() == 0 {
        return Err(GraphBuildError::NoValidClips);
    }
    if !check_cuts(clips) {
        return Err(GraphBuildError::EmptyRange);
    }
    let ghost views = cook_clip_views(clips@);
    let mut program = String::new();
    let mut inputs: Vec<String> = Vec::new();
    let mut i: usize = 0;
    while i < clips.len()
        invariant
            i <= clips.len(),
            base_encode.width != 0,
            base_encode.height != 0,
            views == cook_clip_views(clips@),
            all_cut(views),
            program@ == chains_text(views, base_encode@, i as nat),
            inputs.len() == i,
            forall|j: int| 0 <= j < i ==> inputs@[j]@ == views[j].video_path,
        decreases clips.len() - i,
    {
        let ghost before = program@;
        let clip = &clips[i];
        assert(views[i as int] == clip@);
        let labels = Labels::numbered(i);
        push_chain(&mut program, clip, base_encode, &labels);
        let size = clip.display_size();
        match crate::fit::plan_fit(size.0, size.1, base_encode.width, base_encode.height) {
            Fit::Letterbox(_) => {},
            _ => {
                push_text(&mut program, "; ");
            },
        }
        assert(program@ =~= before + numbered_chain(clip@, base_encode@, i as nat));
        inputs.push(clip.video_path.clone());
        i += 1;
    }
    push_join(&mut program, clips.len(), base_encode.audio.is_some());
    assert(texts(inputs@) =~= inputs_of(views));
    Ok(Timeline { program, inputs })
}

/// The arguments that name the input files, each read as it is stored.
pub open spec fn inputs_args(paths: Seq<Seq<char>>) -> Seq<Seq<char>>
    decreases paths.len(),
{
    if paths.len() == 0 {
        Seq::<Seq<char>>::empty()
    } else {
        inputs_args(paths.drop_last()) + seq!["-display_rotation"@, "0"@, "-i"@, paths.last()]
    }
}

/// The encoder invocation that renders the graph `timeline` like `base`
/// into `output_path`.
pub open spec fn timeline_invocation_view(
    timeline: TimelineView,
    base: ProbeResultView,
    output_path: Seq<char>,
) -> InvocationView {
    InvocationView {
        program: "ffmpeg"@,
        args: seq!["-v"@, "error"@, "-stats"@] + inputs_args(timeline.inputs) + graph_args(
            timeline.program,
            base.audio is Some,
        ) + video_args(base) + audio_args(base.audio) + output_args(output_path),
    }
}

/// The encoder invocation that renders a whole composition in one run: it
/// reads the files of `timeline`, applies its graph, and encodes the result
/// like `base_encode` into `output_path`.
pub fn timeline_invocation(timeline: Timeline, base_encode: &ProbeResult, output_path: &str) -> (invocation:
    Invocation)
    ensures
        invocation@ == timeline_invocation_view(timeline@, base_encode@, output_path@),
{
    let mut args: Vec<String> = Vec::new();
    assert(texts(args@) =~= Seq::<Seq<char>>::empty());
    push_arg(&mut args, "-v");
    push_arg(&mut args, "error");
    push_arg(&mut args, "-stats");
    let ghost head = texts(args@);
    assert(head =~= seq!["-v"@, "error"@, "-stats"@]);
    let ghost paths = texts(timeline.inputs@);
    let mut i: usize = 0;
    assert(paths.take(0) =~= Seq::<Seq<char>>::empty());
    assert(texts(args@) =~= head + inputs_args(paths.take(0)));
    while i < timeline.inputs.len()
        invariant
            i <= timeline.inputs.len(),
            paths == texts(timeline.inputs@),
            texts(args@) == head + inputs_args(paths.take(i as int)),
        decreases timeline.inputs.len() - i,
    {
        let ghost before = texts(args@);
        let ghost upto = paths.take(i as int + 1);
        assert(upto.drop_last() =~= paths.take(i as int));
        assert(upto.last() == timeline.inputs@[i as int]@);
        push_arg(&mut args, "-display_rotation");
        push_arg(&mut args, "0");
        push_arg(&mut args, "-i");
        push_arg(&mut args, timeline.inputs[i].as_str());
        assert(texts(args@) =~= before + seq![
            "-display_rotation"@,
            "0"@,
            "-i"@,
            paths[i as int],
        ]);
        assert(texts(args@) =~= head + inputs_args(upto));
        i += 1;
    }
    assert(paths.take(i as int) =~= paths);
    push_graph_args(&mut args, timeline.program, base_encode.audio.is_some());
    push_video_args(&mut args, base_encode);
    push_audio_args(&mut args, &base_encode.audio);
    push_output_args(&mut args, output_path);
    assert(texts(args@) =~= timeline_invocation_view(
        timeline@,
        base_encode@,
        output_path@,
    ).args);
    Invocation { program: owned("ffmpeg"), args }
}

/// Building twice from the same clips and base gives the same graph, down
/// to every character, and the same inputs.
pub proof fn lemma_build_is_deterministic(
    base: ProbeResult,
    clips: Vec<CookClip>,
    base_again: ProbeResult,
    clips_again: Vec<CookClip>,
    first: Result<Timeline, GraphBuildError>,
    second: Result<Timeline, GraphBuildError>,
)
    requires
        base@ == base_again@,
        cook_clip_views(clips@) == cook_clip_views(clips_again@),
        timeline_result(first) == build_spec(cook_clip_views(clips@), base@),
        timeline_result(second) == build_spec(cook_clip_views(clips_again@), base_again@),
    ensures
        timeline_result(first) == timeline_result(second),
        first is Ok ==> second is Ok && first->Ok_0@.program == second->Ok_0@.program,
{
}

/// The graph of a composition holds the chains of exactly the clips that
/// take part, and its last step joins one pair of labels for each of them:
/// where one of N clips that were asked for has no probe, the graph holds
/// N-1 clips.
pub proof fn lemma_graph_holds_the_resolved_clips(
    asked: Seq<crate::defs::ClipView>,
    videos: Seq<crate::catalog::VideoView>,
    base: ProbeResultView,
    dropped: int,
    timeline: TimelineView,
)
    requires
        0 <= dropped < asked.len(),
        crate::cook::resolve(asked[dropped], videos) is None,
        forall|i: int|
            0 <= i < asked.len() && i != dropped ==> crate::cook::resolve(
                #[trigger] asked[i],
                videos,
            ) is Some,
        build_spec(crate::cook::resolved(asked, videos), base) == Ok::<
            TimelineView,
            GraphBuildError,
        >(timeline),
    ensures
        timeline.inputs.len() == asked.len() - 1,
        timeline.program == chains_text(
            crate::cook::resolved(asked, videos),
            base,
            (asked.len() - 1) as nat,
        ) + join_text((asked.len() - 1) as nat, base.audio is Some),
{
    crate::cook::lemma_one_unresolved_is_dropped(asked, videos, dropped);
}

} // verus!
