//! The filter graph of one clip, as text.
//!
//! The graph trims the clip's video and audio to the cut, turns the frame
//! upright, and brings it onto the canvas. Its video output is labelled
//! `[outv]`, its audio output `[outa]`.

use vstd::prelude::*;
use crate::common::{AudioProbeResult, ProbeResult, ProbeResultView};
use crate::fit::{fit_for, plan_fit, Fit, Letterbox, DOWNSCALE_FACTOR};
use crate::probe::{CookClip, CookClipView};
use crate::rotation::Rotation;
use crate::text::{decimal, fixed_text, push_decimal, push_fixed, push_text};

verus! {

/// How the streams of one clip are labelled in a filter graph: the number
/// of the input that holds the clip, and what is put behind each label's
/// name to tell the clips of one graph apart.
#[derive(Debug)]
pub struct Labels {
    pub input: usize,
    pub suffix: String,
}

/// `Labels` as a mathematical value.
pub struct LabelsView {
    pub input: nat,
    pub suffix: Seq<char>,
}

impl View for Labels {
    type V = LabelsView;

    open spec fn view(&self) -> LabelsView {
        LabelsView { input: self.input as nat, suffix: self.suffix@ }
    }
}

impl LabelsView {
    /// The labels of a graph that holds one clip: input 0, and plain names.
    pub open spec fn single() -> LabelsView {
        LabelsView { input: 0, suffix: Seq::<char>::empty() }
    }

    /// The labels of clip number `index` in a graph that holds several: its
    /// own input, and its number behind each name.
    pub open spec fn numbered(index: nat) -> LabelsView {
        LabelsView { input: index, suffix: decimal(index) }
    }

    /// The label `[name]` with the suffix behind the name.
    pub open spec fn label(self, name: Seq<char>) -> Seq<char> {
        "["@ + name + self.suffix + "]"@
    }

    /// The label of a stream of the clip's input: `[0:v]`, `[0:a]`.
    pub open spec fn stream(self, kind: Seq<char>) -> Seq<char> {
        "["@ + decimal(self.input) + kind + "]"@
    }
}

impl Labels {
    /// The labels of a graph that holds one clip.
    pub fn single() -> (labels: Labels)
        ensures
            labels@ == LabelsView::single(),
    {
        Labels { input: 0, suffix: String::new() }
    }

    /// The labels of clip number `index` in a graph that holds several.
    pub fn numbered(index: usize) -> (labels: Labels)
        ensures
            labels@ == LabelsView::numbered(index as nat),
    {
        Labels { input: index, suffix: crate::text::decimal_text(index as u64) }
    }

    /// Appends the label `[name]` with the suffix behind the name.
    pub fn push_label(&self, out: &mut String, name: &str)
        ensures
            final(out)@ == old(out)@ + self@.label(name@),
    {
        push_text(out, "[");
        push_text(out, name);
        push_text(out, self.suffix.as_str());
        push_text(out, "]");
        assert(out@ =~= old(out)@ + self@.label(name@));
    }

    /// Appends the label of a stream of the clip's input.
    pub fn push_stream(&self, out: &mut String, kind: &str)
        ensures
            final(out)@ == old(out)@ + self@.stream(kind@),
    {
        push_text(out, "[");
        push_decimal(out, self.input as u64);
        push_text(out, kind);
        push_text(out, "]");
        assert(out@ =~= old(out)@ + self@.stream(kind@));
    }
}

/// Where a clip's audio comes from.
pub enum AudioPlan {
    /// The composition has no audio.
    Absent,
    /// The clip's own audio, cut from `start` to `end` microseconds.
    Trimmed { start: u64, end: u64 },
    /// Silence of `length` microseconds, for a clip without audio in a
    /// composition that has audio.
    Silence { sample_rate: u32, channel_layout: Seq<char>, length: int },
}

/// Where the audio of `clip` comes from in a composition encoded like `base`.
pub open spec fn audio_plan(clip: CookClipView, base: ProbeResultView) -> AudioPlan {
    match base.audio {
        None => AudioPlan::Absent,
        Some(expected) => {
            if clip.probe.audio is Some {
                AudioPlan::Trimmed { start: clip.start, end: clip.end }
            } else {
                AudioPlan::Silence {
                    sample_rate: expected.sample_rate,
                    channel_layout: expected.channel_layout,
                    length: clip.length(),
                }
            }
        },
    }
}

/// How the frame of `clip` is brought onto the canvas of `base`.
pub open spec fn clip_fit(clip: CookClipView, base: ProbeResultView) -> Fit {
    fit_for(clip.display_width(), clip.display_height(), base.width, base.height)
}

/// A time of `micros` microseconds written in seconds.
pub open spec fn seconds_text(micros: int) -> Seq<char> {
    if micros < 0 {
        decimal(0)
    } else {
        fixed_text(micros as nat, 1_000_000)
    }
}

/// The audio chain of a clip.
pub open spec fn audio_text(plan: AudioPlan, labels: LabelsView) -> Seq<char> {
    match plan {
        AudioPlan::Absent => Seq::<char>::empty(),
        AudioPlan::Trimmed { start, end } => labels.stream(":a"@) + " atrim = start="@
            + seconds_text(start as int) + " : end="@ + seconds_text(end as int)
            + ", asetpts=PTS-STARTPTS "@ + labels.label("outa"@) + "; "@,
        AudioPlan::Silence { sample_rate, channel_layout, length } => "anullsrc = r="@ + decimal(
            sample_rate as nat,
        ) + " : cl="@ + channel_layout + ", atrim = start=0 : end="@ + seconds_text(length)
            + ", asetpts=PTS-STARTPTS "@ + labels.label("outa"@) + "; "@,
    }
}

/// The start of the video chain: the cut from `start` to `end` microseconds.
pub open spec fn trim_text(start: u64, end: u64, labels: LabelsView) -> Seq<char> {
    labels.stream(":v"@) + " trim = start="@ + seconds_text(start as int) + " : end="@
        + seconds_text(end as int) + ", setpts=PTS-STARTPTS"@
}

/// The filters that turn a frame with the given rotation upright.
pub open spec fn rotation_text(rotation: Rotation) -> Seq<char> {
    match rotation {
        Rotation::Unrotated => Seq::<char>::empty(),
        Rotation::Neg90 => ", transpose = dir=clock"@,
        Rotation::Pos90 => ", transpose = dir=cclock"@,
        Rotation::Neg180 => ", hflip, vflip"@,
    }
}

/// The foreground branch of a letterbox: the frame scaled to fit inside the
/// canvas.
pub open spec fn foreground_text(
    fix_width: bool,
    canvas_width: u32,
    canvas_height: u32,
    labels: LabelsView,
) -> Seq<char> {
    if fix_width {
        labels.label("v_trimmed"@) + " scale = "@ + decimal(canvas_width as nat) + ":-1"@
            + ", setsar = 1 "@ + labels.label("v_scaled"@) + "; "@
    } else {
        labels.label("v_trimmed"@) + " scale = "@ + "-1:"@ + decimal(canvas_height as nat)
            + ", setsar = 1 "@ + labels.label("v_scaled"@) + "; "@
    }
}

/// The blur's radius for a canvas of the given width: a tenth of the width
/// of the scaled-down copy.
pub open spec fn sigma_text(canvas_width: u32) -> Seq<char> {
    fixed_text((canvas_width / DOWNSCALE_FACTOR) as nat, 10)
}

/// The crop of a letterbox's background branch.
pub open spec fn crop_text(lb: Letterbox, labels: LabelsView) -> Seq<char> {
    labels.label("v_trimmed_copy"@) + " crop = "@ + decimal(lb.crop_width as nat) + ":"@ + decimal(
        lb.crop_height as nat,
    ) + ":"@ + decimal(lb.crop_x as nat) + ":"@ + decimal(lb.crop_y as nat) + ", "@
}

/// The background branch of a letterbox: the frame cropped to the canvas's
/// proportions, scaled down, blurred and scaled to the canvas.
pub open spec fn background_text(
    lb: Letterbox,
    canvas_width: u32,
    canvas_height: u32,
    labels: LabelsView,
) -> Seq<char> {
    crop_text(lb, labels) + "scale = "@ + decimal((canvas_width / DOWNSCALE_FACTOR) as nat) + ":"@
        + decimal((canvas_height / DOWNSCALE_FACTOR) as nat) + ", gblur = sigma="@ + sigma_text(
        canvas_width,
    ) + ", scale = "@ + decimal(canvas_width as nat) + ":"@ + decimal(canvas_height as nat)
        + ", setsar = 1 "@ + labels.label("v_blurred"@) + "; "@
}

/// The step that lays the foreground over the background.
pub open spec fn overlay_text(labels: LabelsView) -> Seq<char> {
    labels.label("v_blurred"@) + " "@ + labels.label("v_scaled"@)
        + " overlay = (main_w-overlay_w)/2:(main_h-overlay_h)/2 "@ + labels.label("outv"@) + "; "@
}

/// The step that splits the video into the two branches of a letterbox.
pub open spec fn split_text(labels: LabelsView) -> Seq<char> {
    ", split "@ + labels.label("v_trimmed"@) + " "@ + labels.label("v_trimmed_copy"@) + "; "@
}

/// The end of the video chain: how the frame is brought onto the canvas.
pub open spec fn fit_text(fit: Fit, canvas_width: u32, canvas_height: u32, labels: LabelsView) -> Seq<
    char,
> {
    match fit {
        Fit::Keep => " "@ + labels.label("outv"@),
        Fit::Scale => ", scale = "@ + decimal(canvas_width as nat) + ":"@ + decimal(
            canvas_height as nat,
        ) + ", setsar = 1 "@ + labels.label("outv"@),
        Fit::Letterbox(lb) => split_text(labels) + foreground_text(
            lb.fix_width,
            canvas_width,
            canvas_height,
            labels,
        ) + background_text(lb, canvas_width, canvas_height, labels) + overlay_text(labels),
    }
}

/// The chains of `clip` in a composition encoded like `base`, under the
/// given labels: the audio chain, then the video chain.
pub open spec fn chain_text(clip: CookClipView, base: ProbeResultView, labels: LabelsView) -> Seq<
    char,
> {
    audio_text(audio_plan(clip, base), labels) + trim_text(clip.start, clip.end, labels)
        + rotation_text(clip.rotation()) + fit_text(
        clip_fit(clip, base),
        base.width,
        base.height,
        labels,
    )
}

/// The filter graph that holds `clip` alone, in a composition encoded like
/// `base`. Its video output is `[outv]`, its audio output `[outa]`.
pub open spec fn filter_text(clip: CookClipView, base: ProbeResultView) -> Seq<char> {
    chain_text(clip, base, LabelsView::single())
}

/// Appends a time of `micros` microseconds, written in seconds.
pub fn push_seconds(out: &mut String, micros: u64)
    ensures
        final(out)@ == old(out)@ + seconds_text(micros as int),
{
    push_fixed(out, micros, 1_000_000);
}

/// Appends the audio chain that cuts the clip's own audio.
pub fn push_trimmed_audio(out: &mut String, start: u64, end: u64, labels: &Labels)
    ensures
        final(out)@ == old(out)@ + audio_text(AudioPlan::Trimmed { start, end }, labels@),
{
    labels.push_stream(out, ":a");
    push_text(out, " atrim = start=");
    push_seconds(out, start);
    push_text(out, " : end=");
    push_seconds(out, end);
    push_text(out, ", asetpts=PTS-STARTPTS ");
    labels.push_label(out, "outa");
    push_text(out, "; ");
    assert(out@ =~= old(out)@ + audio_text(AudioPlan::Trimmed { start, end }, labels@));
}

/// Appends the audio chain that makes `length` microseconds of silence in
/// the format of `expected`.
pub fn push_silence(out: &mut String, expected: &AudioProbeResult, length: u64, labels: &Labels)
    ensures
        final(out)@ == old(out)@ + audio_text(
            AudioPlan::Silence {
                sample_rate: expected.sample_rate,
                channel_layout: expected.channel_layout@,
                length: length as int,
            },
            labels@,
        ),
{
    push_text(out, "anullsrc = r=");
    push_decimal(out, expected.sample_rate as u64);
    push_text(out, " : cl=");
    push_text(out, expected.channel_layout.as_str());
    push_text(out, ", atrim = start=0 : end=");
    push_seconds(out, length);
    push_text(out, ", asetpts=PTS-STARTPTS ");
    labels.push_label(out, "outa");
    push_text(out, "; ");
    assert(out@ =~= old(out)@ + audio_text(
        AudioPlan::Silence {
            sample_rate: expected.sample_rate,
            channel_layout: expected.channel_layout@,
            length: length as int,
        },
        labels@,
    ));
}

/// Appends the audio chain of `clip` in a composition encoded like `base`.
pub fn push_audio(out: &mut String, clip: &CookClip, base: &ProbeResult, labels: &Labels)
    requires
        clip.start <= clip.end,
    ensures
        final(out)@ == old(out)@ + audio_text(audio_plan(clip@, base@), labels@),
{
    match &base.audio {
        None => {
            assert(out@ =~= old(out)@ + audio_text(AudioPlan::Absent, labels@));
        },
        Some(expected) => {
            if clip.probe.audio.is_some() {
                push_trimmed_audio(out, clip.start, clip.end, labels);
            } else {
                push_silence(out, expected, clip.end - clip.start, labels);
            }
        },
    }
}

/// Appends the start of the video chain.
pub fn push_trim(out: &mut String, start: u64, end: u64, labels: &Labels)
    ensures
        final(out)@ == old(out)@ + trim_text(start, end, labels@),
{
    labels.push_stream(out, ":v");
    push_text(out, " trim = start=");
    push_seconds(out, start);
    push_text(out, " : end=");
    push_seconds(out, end);
    push_text(out, ", setpts=PTS-STARTPTS");
    assert(out@ =~= old(out)@ + trim_text(start, end, labels@));
}

/// Appends the filters that turn the frame upright.
pub fn push_rotation(out: &mut String, rotation: Rotation)
    ensures
        final(out)@ == old(out)@ + rotation_text(rotation),
{
    match rotation {
        Rotation::Unrotated => {
            assert(out@ =~= old(out)@ + rotation_text(rotation));
        },
        Rotation::Neg90 => push_text(out, ", transpose = dir=clock"),
        Rotation::Pos90 => push_text(out, ", transpose = dir=cclock"),
        Rotation::Neg180 => push_text(out, ", hflip, vflip"),
    }
}

/// Appends the foreground branch of a letterbox.
pub fn push_foreground(
    out: &mut String,
    fix_width: bool,
    canvas_width: u32,
    canvas_height: u32,
    labels: &Labels,
)
    ensures
        final(out)@ == old(out)@ + foreground_text(
            fix_width,
            canvas_width,
            canvas_height,
            labels@,
        ),
{
    labels.push_label(out, "v_trimmed");
    push_text(out, " scale = ");
    if fix_width {
        push_decimal(out, canvas_width as u64);
        push_text(out, ":-1");
    } else {
        push_text(out, "-1:");
        push_decimal(out, canvas_height as u64);
    }
    push_text(out, ", setsar = 1 ");
    labels.push_label(out, "v_scaled");
    push_text(out, "; ");
    assert(out@ =~= old(out)@ + foreground_text(
        fix_width,
        canvas_width,
        canvas_height,
        labels@,
    ));
}

/// Appends the crop of a letterbox's background branch.
pub fn push_crop(out: &mut String, lb: &Letterbox, labels: &Labels)
    ensures
        final(out)@ == old(out)@ + crop_text(*lb, labels@),
{
    labels.push_label(out, "v_trimmed_copy");
    push_text(out, " crop = ");
    push_decimal(out, lb.crop_width as u64);
    push_text(out, ":");
    push_decimal(out, lb.crop_height as u64);
    push_text(out, ":");
    push_decimal(out, lb.crop_x as u64);
    push_text(out, ":");
    push_decimal(out, lb.crop_y as u64);
    push_text(out, ", ");
    assert(out@ =~= old(out)@ + crop_text(*lb, labels@));
}

/// Appends the background branch of a letterbox.
pub fn push_background(
    out: &mut String,
    lb: &Letterbox,
    canvas_width: u32,
    canvas_height: u32,
    labels: &Labels,
)
    ensures
        final(out)@ == old(out)@ + background_text(*lb, canvas_width, canvas_height, labels@),
{
    push_crop(out, lb, labels);
    push_text(out, "scale = ");
    push_decimal(out, (canvas_width / DOWNSCALE_FACTOR) as u64);
    push_text(out, ":");
    push_decimal(out, (canvas_height / DOWNSCALE_FACTOR) as u64);
    push_text(out, ", gblur = sigma=");
    push_fixed(out, (canvas_width / DOWNSCALE_FACTOR) as u64, 10);
    push_text(out, ", scale = ");
    push_decimal(out, canvas_width as u64);
    push_text(out, ":");
    push_decimal(out, canvas_height as u64);
    push_text(out, ", setsar = 1 ");
    labels.push_label(out, "v_blurred");
    push_text(out, "; ");
    assert(out@ =~= old(out)@ + background_text(*lb, canvas_width, canvas_height, labels@));
}

/// Appends the step that splits the video into the two branches of a
/// letterbox.
pub fn push_split(out: &mut String, labels: &Labels)
    ensures
        final(out)@ == old(out)@ + split_text(labels@),
{
    push_text(out, ", split ");
    labels.push_label(out, "v_trimmed");
    push_text(out, " ");
    labels.push_label(out, "v_trimmed_copy");
    push_text(out, "; ");
    assert(out@ =~= old(out)@ + split_text(labels@));
}

/// Appends the step that lays the foreground over the background.
pub fn push_overlay(out: &mut String, labels: &Labels)
    ensures
        final(out)@ == old(out)@ + overlay_text(labels@),
{
    labels.push_label(out, "v_blurred");
    push_text(out, " ");
    labels.push_label(out, "v_scaled");
    push_text(out, " overlay = (main_w-overlay_w)/2:(main_h-overlay_h)/2 ");
    labels.push_label(out, "outv");
    push_text(out, "; ");
    assert(out@ =~= old(out)@ + overlay_text(labels@));
}

/// Appends the end of the video chain.
pub fn push_fit(out: &mut String, fit: &Fit, canvas_width: u32, canvas_height: u32, labels: &Labels)
    ensures
        final(out)@ == old(out)@ + fit_text(*fit, canvas_width, canvas_height, labels@),
{
    match fit {
        Fit::Keep => {
            push_text(out, " ");
            labels.push_label(out, "outv");
            assert(out@ =~= old(out)@ + fit_text(*fit, canvas_width, canvas_height, labels@));
        },
        Fit::Scale => {
            push_text(out, ", scale = ");
            push_decimal(out, canvas_width as u64);
            push_text(out, ":");
            push_decimal(out, canvas_height as u64);
            push_text(out, ", setsar = 1 ");
            labels.push_label(out, "outv");
            assert(out@ =~= old(out)@ + fit_text(*fit, canvas_width, canvas_height, labels@));
        },
        Fit::Letterbox(lb) => {
            push_split(out, labels);
            push_foreground(out, lb.fix_width, canvas_width, canvas_height, labels);
            push_background(out, lb, canvas_width, canvas_height, labels);
            push_overlay(out, labels);
            assert(out@ =~= old(out)@ + fit_text(*fit, canvas_width, canvas_height, labels@));
        },
    }
}

/// Appends the chains of `clip` in a composition encoded like `base`, under
/// the given labels.
pub fn push_chain(out: &mut String, clip: &CookClip, base: &ProbeResult, labels: &Labels)
    requires
        clip.start <= clip.end,
        base.width != 0,
        base.height != 0,
    ensures
        final(out)@ == old(out)@ + chain_text(clip@, base@, labels@),
{
    push_audio(out, clip, base, labels);
    push_trim(out, clip.start, clip.end, labels);
    push_rotation(out, clip.rotation());
    let size = clip.display_size();
    let fit = plan_fit(size.0, size.1, base.width, base.height);
    push_fit(out, &fit, base.width, base.height, labels);
    assert(out@ =~= old(out)@ + chain_text(clip@, base@, labels@));
}

/// The filter graph that holds `clip` alone, in a composition encoded like
/// `base`.
pub fn filter_graph(clip: &CookClip, base: &ProbeResult) -> (graph: String)
    requires
        clip.start <= clip.end,
        base.width != 0,
        base.height != 0,
    ensures
        graph@ == filter_text(clip@, base@),
{
    let mut graph = String::new();
    let labels = Labels::single();
    push_chain(&mut graph, clip, base, &labels);
    assert(graph@ =~= filter_text(clip@, base@));
    graph
}

} // verus!
