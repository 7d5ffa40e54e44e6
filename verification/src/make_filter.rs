//! The encoder invocation that renders one clip onto the canvas.

use vstd::prelude::*;
use crate::common::{opt_text, AudioProbeResult, AudioProbeResultView, ProbeResult, ProbeResultView};
use crate::error::GraphBuildError;
use crate::filter_text::{
    audio_plan, audio_text, background_text, chain_text, clip_fit, filter_graph, filter_text,
    foreground_text, overlay_text, rotation_text, split_text, trim_text, AudioPlan, LabelsView,
};
use crate::fit::{letterbox_for, same_ratio, Fit};
use crate::probe::{CookClip, CookClipView};
use crate::text::{decimal, decimal_text, owned, push_arg, push_owned, texts};

verus! {

/// A process to run: the program and its arguments, in order.
#[derive(Debug)]
pub struct Invocation {
    pub program: String,
    pub args: Vec<String>,
}

/// An `Invocation` as a mathematical value.
pub struct InvocationView {
    pub program: Seq<char>,
    pub args: Seq<Seq<char>>,
}

impl View for Invocation {
    type V = InvocationView;

    open spec fn view(&self) -> InvocationView {
        InvocationView { program: self.program@, args: texts(self.args@) }
    }
}

/// The colour setting that is taken where a probe declares none.
pub open spec fn default_color() -> Seq<char> {
    "bt709"@
}

/// A declared colour setting, or the default where none is declared.
pub open spec fn color_or_default(declared: Option<Seq<char>>) -> Seq<char> {
    match declared {
        Some(c) => c,
        None => default_color(),
    }
}

/// The arguments that set the log level and name the input file.
pub open spec fn input_args(video_path: Seq<char>) -> Seq<Seq<char>> {
    seq!["-v"@, "error"@, "-stats"@, "-display_rotation"@, "0"@, "-i"@, video_path]
}

/// The arguments that give the filter graph and map its outputs.
pub open spec fn graph_args(graph: Seq<char>, with_audio: bool) -> Seq<Seq<char>> {
    if with_audio {
        seq!["-filter_complex"@, graph, "-map"@, "[outv]"@, "-map"@, "[outa]"@]
    } else {
        seq!["-filter_complex"@, graph, "-map"@, "[outv]"@]
    }
}

/// The arguments that set the video stream like that of `base`.
pub open spec fn video_args(base: ProbeResultView) -> Seq<Seq<char>> {
    seq![
        "-preset"@,
        "veryfast"@,
        "-crf"@,
        "18"@,
        "-c:v"@,
        "libx264"@,
        "-pix_fmt"@,
        base.pix_fmt,
        "-color_primaries"@,
        color_or_default(base.color_primaries),
        "-color_trc"@,
        color_or_default(base.color_transfer),
        "-colorspace"@,
        color_or_default(base.color_space),
        "-fps_mode"@,
        "vfr"@,
    ]
}

/// The arguments that set the audio stream like `expected`, where the
/// composition has audio.
pub open spec fn audio_args(expected: Option<AudioProbeResultView>) -> Seq<Seq<char>> {
    match expected {
        Some(a) => seq![
            "-c:a"@,
            "aac"@,
            "-ar"@,
            decimal(a.sample_rate as nat),
            "-ac"@,
            decimal(a.channels as nat),
            "-channel_layout"@,
            a.channel_layout,
        ],
        None => Seq::<Seq<char>>::empty(),
    }
}

/// The arguments that make the output fit for concatenation and name it.
pub open spec fn output_args(output_path: Seq<char>) -> Seq<Seq<char>> {
    seq![
        "-metadata:s:v"@,
        "rotate=0"@,
        "-video_track_timescale"@,
        "90000"@,
        "-fflags"@,
        "+genpts"@,
        "-y"@,
        output_path,
    ]
}

/// All arguments of the encoder for `clip` in a composition encoded like
/// `base`, written to `output_path`.
pub open spec fn clip_args(clip: CookClipView, base: ProbeResultView, output_path: Seq<char>) -> Seq<
    Seq<char>,
> {
    input_args(clip.video_path) + graph_args(filter_text(clip, base), base.audio is Some)
        + video_args(base) + audio_args(base.audio) + output_args(output_path)
}

/// The encoder invocation for `clip`.
pub open spec fn clip_invocation(
    clip: CookClipView,
    base: ProbeResultView,
    output_path: Seq<char>,
) -> InvocationView {
    InvocationView { program: "ffmpeg"@, args: clip_args(clip, base, output_path) }
}

/// What `make_clip` answers: an error for a canvas without area, then for a
/// cut without length, and the encoder invocation otherwise.
pub open spec fn make_clip_spec(
    clip: CookClipView,
    base: ProbeResultView,
    output_path: Seq<char>,
) -> Result<InvocationView, GraphBuildError> {
    if base.width == 0 || base.height == 0 {
        Err(GraphBuildError::ZeroCanvas)
    } else if clip.start >= clip.end {
        Err(GraphBuildError::EmptyRange)
    } else {
        Ok(clip_invocation(clip, base, output_path))
    }
}

/// The view of what `make_clip` answers.
pub open spec fn invocation_result(result: Result<Invocation, GraphBuildError>) -> Result<
    InvocationView,
    GraphBuildError,
> {
    match result {
        Ok(invocation) => Ok(invocation@),
        Err(e) => Err(e),
    }
}

fn push_input_args(args: &mut Vec<String>, video_path: &str)
    ensures
        texts(final(args)@) == texts(old(args)@) + input_args(video_path@),
{
    push_arg(args, "-v");
    push_arg(args, "error");
    push_arg(args, "-stats");
    push_arg(args, "-display_rotation");
    push_arg(args, "0");
    push_arg(args, "-i");
    push_arg(args, video_path);
    assert(texts(args@) =~= texts(old(args)@) + input_args(video_path@));
}

pub(crate) fn push_graph_args(args: &mut Vec<String>, graph: String, with_audio: bool)
    ensures
        texts(final(args)@) == texts(old(args)@) + graph_args(graph@, with_audio),
{
    push_arg(args, "-filter_complex");
    push_owned(args, graph);
    push_arg(args, "-map");
    push_arg(args, "[outv]");
    if with_audio {
        push_arg(args, "-map");
        push_arg(args, "[outa]");
    }
    assert(texts(args@) =~= texts(old(args)@) + graph_args(graph@, with_audio));
}

fn push_color(args: &mut Vec<String>, declared: &Option<String>)
    ensures
        texts(final(args)@) == texts(old(args)@).push(color_or_default(opt_text(*declared))),
{
    match declared {
        Some(c) => push_arg(args, c.as_str()),
        None => push_arg(args, "bt709"),
    }
}

pub(crate) fn push_video_args(args: &mut Vec<String>, base: &ProbeResult)
    ensures
        texts(final(args)@) == texts(old(args)@) + video_args(base@),
{
    push_arg(args, "-preset");
    push_arg(args, "veryfast");
    push_arg(args, "-crf");
    push_arg(args, "18");
    push_arg(args, "-c:v");
    push_arg(args, "libx264");
    push_arg(args, "-pix_fmt");
    push_arg(args, base.pix_fmt.as_str());
    push_arg(args, "-color_primaries");
    push_color(args, &base.color_primaries);
    push_arg(args, "-color_trc");
    push_color(args, &base.color_transfer);
    push_arg(args, "-colorspace");
    push_color(args, &base.color_space);
    push_arg(args, "-fps_mode");
    push_arg(args, "vfr");
    assert(texts(args@) =~= texts(old(args)@) + video_args(base@));
}

pub(crate) fn push_audio_args(args: &mut Vec<String>, expected: &Option<AudioProbeResult>)
    ensures
        texts(final(args)@) == texts(old(args)@) + audio_args(crate::common::opt_audio(*expected)),
{
    match expected {
        Some(a) => {
            push_arg(args, "-c:a");
            push_arg(args, "aac");
            push_arg(args, "-ar");
            push_owned(args, decimal_text(a.sample_rate as u64));
            push_arg(args, "-ac");
            push_owned(args, decimal_text(a.channels as u64));
            push_arg(args, "-channel_layout");
            push_arg(args, a.channel_layout.as_str());
            assert(texts(args@) =~= texts(old(args)@) + audio_args(
                crate::common::opt_audio(*expected),
            ));
        },
        None => {
            assert(texts(args@) =~= texts(old(args)@) + audio_args(
                crate::common::opt_audio(*expected),
            ));
        },
    }
}

pub(crate) fn push_output_args(args: &mut Vec<String>, output_path: &str)
    ensures
        texts(final(args)@) == texts(old(args)@) + output_args(output_path@),
{
    push_arg(args, "-metadata:s:v");
    push_arg(args, "rotate=0");
    push_arg(args, "-video_track_timescale");
    push_arg(args, "90000");
    push_arg(args, "-fflags");
    push_arg(args, "+genpts");
    push_arg(args, "-y");
    push_arg(args, output_path);
    assert(texts(args@) =~= texts(old(args)@) + output_args(output_path@));
}

/// The encoder invocation that cuts `clip`, turns it upright, brings it onto
/// the canvas of `base_encode` and encodes it like `base_encode` into
/// `output_path`. A canvas without width or height is refused, and so is a
/// clip that ends at or before its start.
pub fn make_clip(clip: &CookClip, base_encode: &ProbeResult, output_path: &str) -> (result: Result<
    Invocation,
    GraphBuildError,
>)
    ensures
        invocation_result(result) == make_clip_spec(clip@, base_encode@, output_path@),
{
    if base_encode.width == 0 || base_encode.height == 0 {
        return Err(GraphBuildError::ZeroCanvas);
    }
    if clip.start >= clip.end {
        return Err(GraphBuildError::EmptyRange);
    }
    let graph = filter_graph(clip, base_encode);
    let mut args: Vec<String> = Vec::new();
    assert(texts(args@) =~= Seq::<Seq<char>>::empty());
    push_input_args(&mut args, clip.video_path.as_str());
    push_graph_args(&mut args, graph, base_encode.audio.is_some());
    push_video_args(&mut args, base_encode);
    push_audio_args(&mut args, &base_encode.audio);
    push_output_args(&mut args, output_path);
    assert(texts(args@) =~= clip_args(clip@, base_encode@, output_path@));
    Ok(Invocation { program: owned("ffmpeg"), args })
}

/// A clip whose displayed frame has exactly the canvas's proportions takes
/// the short way: its frame is kept or scaled, never letterboxed, and its
/// video chain is the cut, the turn and at most one scale, with no split, no
/// crop, no blur and no overlay.
pub proof fn lemma_same_ratio_skips_background(
    clip: CookClipView,
    base: ProbeResultView,
    labels: LabelsView,
)
    requires
        same_ratio(clip.display_width(), clip.display_height(), base.width, base.height),
    ensures
        !(clip_fit(clip, base) is Letterbox),
        clip_fit(clip, base) == (if clip.display_width() == base.width && clip.display_height()
            == base.height {
            Fit::Keep
        } else {
            Fit::Scale
        }),
        chain_text(clip, base, labels) == audio_text(audio_plan(clip, base), labels) + trim_text(
            clip.start,
            clip.end,
            labels,
        ) + rotation_text(clip.rotation()) + (if clip.display_width() == base.width
            && clip.display_height() == base.height {
            " "@ + labels.label("outv"@)
        } else {
            ", scale = "@ + decimal(base.width as nat) + ":"@ + decimal(base.height as nat)
                + ", setsar = 1 "@ + labels.label("outv"@)
        }),
{
}

/// A clip whose displayed frame has not the canvas's proportions is
/// letterboxed: after the cut and the turn its video is split once, into one
/// foreground branch that is scaled and one background branch that is
/// cropped, scaled and blurred, and the two are laid over each other once.
pub proof fn lemma_other_ratio_gets_background(
    clip: CookClipView,
    base: ProbeResultView,
    labels: LabelsView,
)
    requires
        !same_ratio(clip.display_width(), clip.display_height(), base.width, base.height),
    ensures
        clip_fit(clip, base) == Fit::Letterbox(
            letterbox_for(clip.display_width(), clip.display_height(), base.width, base.height),
        ),
        chain_text(clip, base, labels) == audio_text(audio_plan(clip, base), labels) + trim_text(
            clip.start,
            clip.end,
            labels,
        ) + rotation_text(clip.rotation()) + (split_text(labels) + foreground_text(
            letterbox_for(
                clip.display_width(),
                clip.display_height(),
                base.width,
                base.height,
            ).fix_width,
            base.width,
            base.height,
            labels,
        ) + background_text(
            letterbox_for(clip.display_width(), clip.display_height(), base.width, base.height),
            base.width,
            base.height,
            labels,
        ) + overlay_text(labels)),
{
}

/// A clip without an audio stream, in a composition that has audio, gets
/// silence in the composition's sample rate and channel layout, as long as
/// the cut.
pub proof fn lemma_missing_audio_is_silence(clip: CookClipView, base: ProbeResultView)
    requires
        clip.probe.audio is None,
        base.audio is Some,
    ensures
        audio_plan(clip, base) == (AudioPlan::Silence {
            sample_rate: base.audio->0.sample_rate,
            channel_layout: base.audio->0.channel_layout,
            length: clip.end - clip.start,
        }),
{
}

/// Building twice from the same clip, base and output path gives the same
/// answer, down to every character of the filter graph.
pub proof fn lemma_make_clip_is_deterministic(
    clip: CookClip,
    base: ProbeResult,
    output_path: &str,
    clip_again: CookClip,
    base_again: ProbeResult,
    output_path_again: &str,
    first: Result<Invocation, GraphBuildError>,
    second: Result<Invocation, GraphBuildError>,
)
    requires
        clip@ == clip_again@,
        base@ == base_again@,
        output_path@ == output_path_again@,
        invocation_result(first) == make_clip_spec(clip@, base@, output_path@),
        invocation_result(second) == make_clip_spec(
            clip_again@,
            base_again@,
            output_path_again@,
        ),
    ensures
        invocation_result(first) == invocation_result(second),
        first is Ok ==> second is Ok && first->Ok_0@.args == second->Ok_0@.args,
{
}

} // verus!
