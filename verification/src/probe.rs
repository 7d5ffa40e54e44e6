//! Probing: what the prober is asked, and how its answer becomes a
//! `ProbeResult`. Also the clip as it enters a composition, joined with its
//! probe.

use vstd::prelude::*;
use crate::common::{
    opt_text, AudioProbeResult, AudioProbeResultView, ProbeResult, ProbeResultView,
};
use crate::error::{ProbeError, ProbeErrorView};
use crate::numbers::{parse_seconds, parse_u32, parsed_seconds, parsed_u32};
use crate::rotation::{display_size, Rotation};
use crate::text::{push_arg, texts};

verus! {

/// One segment of a composition: a source file with its probe, the range to
/// cut out of it, and optionally a rotation that replaces the probed one for
/// this composition. `start` and `end` are in microseconds.
#[derive(Debug)]
pub struct CookClip {
    pub video_path: String,
    pub probe: ProbeResult,
    pub start: u64,
    pub end: u64,
    pub override_rotation: Option<Rotation>,
}

/// A `CookClip` as a mathematical value.
pub struct CookClipView {
    pub video_path: Seq<char>,
    pub probe: ProbeResultView,
    pub start: u64,
    pub end: u64,
    pub override_rotation: Option<Rotation>,
}

impl View for CookClip {
    type V = CookClipView;

    open spec fn view(&self) -> CookClipView {
        CookClipView {
            video_path: self.video_path@,
            probe: self.probe@,
            start: self.start,
            end: self.end,
            override_rotation: self.override_rotation,
        }
    }
}

impl CookClipView {
    /// The rotation that is applied to the clip: the override where there is
    /// one, the probed rotation otherwise.
    pub open spec fn rotation(self) -> Rotation {
        match self.override_rotation {
            Some(r) => r,
            None => self.probe.rotation,
        }
    }

    /// Whether the override turns the frame onto its side relative to the
    /// probe, so that the probed width and height change places.
    pub open spec fn swaps_probe_size(self) -> bool {
        match self.override_rotation {
            Some(r) => r.is_transposed() != self.probe.rotation.is_transposed(),
            None => false,
        }
    }

    /// The width of the frame as it is displayed in this composition.
    pub open spec fn display_width(self) -> u32 {
        if self.swaps_probe_size() {
            self.probe.height
        } else {
            self.probe.width
        }
    }

    /// The height of the frame as it is displayed in this composition.
    pub open spec fn display_height(self) -> u32 {
        if self.swaps_probe_size() {
            self.probe.width
        } else {
            self.probe.height
        }
    }

    /// The length of the cut, in microseconds.
    pub open spec fn length(self) -> int {
        self.end - self.start
    }
}

impl CookClip {
    /// The rotation that is applied to the clip.
    pub fn rotation(&self) -> (r: Rotation)
        ensures
            r == self@.rotation(),
    {
        match self.override_rotation {
            Some(r) => r,
            None => self.probe.rotation,
        }
    }

    /// The width and height of the frame as it is displayed in this
    /// composition.
    pub fn display_size(&self) -> (size: (u32, u32))
        ensures
            size.0 == self@.display_width(),
            size.1 == self@.display_height(),
    {
        let swaps = match self.override_rotation {
            Some(r) => r.transposed() != self.probe.rotation.transposed(),
            None => false,
        };
        if swaps {
            (self.probe.height, self.probe.width)
        } else {
            (self.probe.width, self.probe.height)
        }
    }
}

/// The rotation that the prober reports beside a video stream.
#[derive(Debug)]
pub struct FfprobeVideoStreamSideData {
    pub rotation: i32,
}

/// The first video stream as the prober reports it. `width` and `height` are
/// those of the stored frame, before any rotation.
#[derive(Debug)]
pub struct FfprobeVideoStream {
    pub width: u32,
    pub height: u32,
    pub pix_fmt: String,
    pub color_space: Option<String>,
    pub color_transfer: Option<String>,
    pub color_primaries: Option<String>,
    pub bit_rate: String,
    pub side_data_list: Option<(FfprobeVideoStreamSideData,)>,
}

/// What the prober reports of the file as a whole.
#[derive(Debug)]
pub struct FfprobeOutputFormat {
    pub duration: String,
}

/// The prober's answer about the first video stream.
#[derive(Debug)]
pub struct FfprobeVideo {
    pub streams: (FfprobeVideoStream,),
    pub format: FfprobeOutputFormat,
}

/// An audio stream as the prober reports it.
#[derive(Debug)]
pub struct FfprobeAudioStream {
    pub sample_rate: String,
    pub channels: u32,
    pub channel_layout: String,
    pub bit_rate: String,
}

/// The prober's answer about the first audio stream: no stream where the
/// file has no audio.
#[derive(Debug)]
pub struct FfprobeAudio {
    pub streams: Vec<FfprobeAudioStream>,
}

/// Which stream the prober is asked about.
#[derive(Clone, Copy, Debug, PartialEq, Eq, Structural)]
pub enum StreamKind {
    Video,
    Audio,
}

/// The arguments with which the prober reports the first video stream of
/// the file at `path`.
pub open spec fn video_probe_args_view(path: Seq<char>) -> Seq<Seq<char>> {
    seq![
        "-v"@,
        "error"@,
        "-select_streams"@,
        "v:0"@,
        "-show_entries"@,
        "stream=pix_fmt,width,height,bit_rate,color_space,color_transfer,color_primaries:format=duration:stream_side_data=rotation"@,
        "-output_format"@,
        "json"@,
        path,
    ]
}

/// The arguments with which the prober reports the first audio stream of
/// the file at `path`.
pub open spec fn audio_probe_args_view(path: Seq<char>) -> Seq<Seq<char>> {
    seq![
        "-v"@,
        "error"@,
        "-select_streams"@,
        "a:0"@,
        "-show_entries"@,
        "stream=channels,channel_layout,sample_rate,bit_rate"@,
        "-output_format"@,
        "json"@,
        path,
    ]
}

/// The arguments with which the prober reports the first stream of the
/// given kind of the file at `path`.
pub open spec fn probe_args_view(kind: StreamKind, path: Seq<char>) -> Seq<Seq<char>> {
    match kind {
        StreamKind::Video => video_probe_args_view(path),
        StreamKind::Audio => audio_probe_args_view(path),
    }
}

/// The arguments with which the prober reports, as JSON, the first stream of
/// the given kind of the file at `path`.
pub fn probe_args(kind: StreamKind, path: &str) -> (args: Vec<String>)
    ensures
        texts(args@) == probe_args_view(kind, path@),
{
    let mut args: Vec<String> = Vec::new();
    assert(texts(args@) =~= Seq::<Seq<char>>::empty());
    push_arg(&mut args, "-v");
    push_arg(&mut args, "error");
    push_arg(&mut args, "-select_streams");
    match kind {
        StreamKind::Video => {
            push_arg(&mut args, "v:0");
            push_arg(&mut args, "-show_entries");
            push_arg(
                &mut args,
                "stream=pix_fmt,width,height,bit_rate,color_space,color_transfer,color_primaries:format=duration:stream_side_data=rotation",
            );
        },
        StreamKind::Audio => {
            push_arg(&mut args, "a:0");
            push_arg(&mut args, "-show_entries");
            push_arg(&mut args, "stream=channels,channel_layout,sample_rate,bit_rate");
        },
    }
    push_arg(&mut args, "-output_format");
    push_arg(&mut args, "json");
    push_arg(&mut args, path);
    assert(texts(args@) =~= probe_args_view(kind, path@));
    args
}

/// What becomes of a prober that has exited: an error with what it wrote
/// where it failed.
pub open spec fn exit_checked(kind: StreamKind, success: bool, said: Seq<char>) -> Result<
    (),
    ProbeErrorView,
> {
    if success {
        Ok(())
    } else {
        match kind {
            StreamKind::Video => Err(ProbeErrorView::VideoProbeFailed(said)),
            StreamKind::Audio => Err(ProbeErrorView::AudioProbeFailed(said)),
        }
    }
}

/// The view of an answer that holds nothing or an error.
pub open spec fn unit_result(result: Result<(), ProbeError>) -> Result<(), ProbeErrorView> {
    match result {
        Ok(()) => Ok(()),
        Err(e) => Err(e@),
    }
}

/// Judges a prober that has exited: where it did not succeed, the probe of
/// this clip fails with what the prober wrote about it.
pub fn check_exit(kind: StreamKind, success: bool, said: &str) -> (result: Result<(), ProbeError>)
    ensures
        unit_result(result) == exit_checked(kind, success, said@),
{
    if success {
        Ok(())
    } else {
        match kind {
            StreamKind::Video => Err(ProbeError::VideoProbeFailed(crate::text::owned(said))),
            StreamKind::Audio => Err(ProbeError::AudioProbeFailed(crate::text::owned(said))),
        }
    }
}

/// The rotation that a reported number of degrees means: 90, -90 and -180
/// are the turns that the library knows; no report means no turn; any other
/// number is an error.
pub open spec fn rotation_reported(degrees: Option<i32>) -> Result<Rotation, ProbeErrorView> {
    match degrees {
        None => Ok(Rotation::Unrotated),
        Some(d) => if d == 90 {
            Ok(Rotation::Pos90)
        } else if d == -90 {
            Ok(Rotation::Neg90)
        } else if d == -180 {
            Ok(Rotation::Neg180)
        } else {
            Err(ProbeErrorView::UnknownRotation(d))
        },
    }
}

/// The degrees of rotation that stand beside a video stream.
pub open spec fn reported_degrees(side_data: Option<(FfprobeVideoStreamSideData,)>) -> Option<i32> {
    match side_data {
        Some(data) => Some(data.0.rotation),
        None => None,
    }
}

/// The view of an answer that holds a rotation or an error.
pub open spec fn rotation_result(result: Result<Rotation, ProbeError>) -> Result<
    Rotation,
    ProbeErrorView,
> {
    match result {
        Ok(r) => Ok(r),
        Err(e) => Err(e@),
    }
}

/// The rotation that the prober reports beside the video stream.
pub fn reported_rotation(video: &FfprobeVideo) -> (result: Result<Rotation, ProbeError>)
    ensures
        rotation_result(result) == rotation_reported(
            reported_degrees(video.streams.0.side_data_list),
        ),
{
    match &video.streams.0.side_data_list {
        None => Ok(Rotation::Unrotated),
        Some(data) => {
            let d = data.0.rotation;
            if d == 90 {
                Ok(Rotation::Pos90)
            } else if d == -90 {
                Ok(Rotation::Neg90)
            } else if d == -180 {
                Ok(Rotation::Neg180)
            } else {
                Err(ProbeError::UnknownRotation(d))
            }
        },
    }
}

/// The audio settings that a reported audio stream gives.
pub open spec fn audio_probed(stream: FfprobeAudioStream) -> Result<
    AudioProbeResultView,
    ProbeErrorView,
> {
    match parsed_u32(stream.sample_rate@) {
        None => Err(ProbeErrorView::BadSampleRate),
        Some(sample_rate) => match parsed_u32(stream.bit_rate@) {
            None => Err(ProbeErrorView::BadAudioBitRate),
            Some(bit_rate) => Ok(
                AudioProbeResultView {
                    sample_rate,
                    bit_rate,
                    channels: stream.channels,
                    channel_layout: stream.channel_layout@,
                },
            ),
        },
    }
}

/// The probe that the prober's two answers give. The rotation is read
/// first, then the duration and the bit rate of the video, then the last
/// audio stream that was reported, if any; the first that cannot be read
/// decides the error. The stored width and height change places where the
/// rotation is a quarter turn.
pub open spec fn probed(video: FfprobeVideo, audio: FfprobeAudio) -> Result<
    ProbeResultView,
    ProbeErrorView,
> {
    let stream = video.streams.0;
    match rotation_reported(reported_degrees(stream.side_data_list)) {
        Err(e) => Err(e),
        Ok(rotation) => match parsed_seconds(video.format.duration@) {
            None => Err(ProbeErrorView::BadDuration),
            Some(duration) => match parsed_u32(stream.bit_rate@) {
                None => Err(ProbeErrorView::BadBitRate),
                Some(bit_rate) => {
                    let size = display_size(rotation, stream.width, stream.height);
                    let settings = ProbeResultView {
                        width: size.0,
                        height: size.1,
                        duration,
                        rotation,
                        pix_fmt: stream.pix_fmt@,
                        color_space: opt_text(stream.color_space),
                        color_transfer: opt_text(stream.color_transfer),
                        color_primaries: opt_text(stream.color_primaries),
                        bit_rate,
                        audio: None,
                    };
                    if audio.streams@.len() == 0 {
                        Ok(settings)
                    } else {
                        match audio_probed(audio.streams@.last()) {
                            Err(e) => Err(e),
                            Ok(a) => Ok(ProbeResultView { audio: Some(a), ..settings }),
                        }
                    }
                },
            },
        },
    }
}

/// The view of an answer that holds a probe or an error.
pub open spec fn probe_result_view(result: Result<ProbeResult, ProbeError>) -> Result<
    ProbeResultView,
    ProbeErrorView,
> {
    match result {
        Ok(p) => Ok(p@),
        Err(e) => Err(e@),
    }
}

/// The audio settings that a reported audio stream gives.
fn audio_result(stream: FfprobeAudioStream) -> (result: Result<AudioProbeResult, ProbeError>)
    ensures
        match result {
            Ok(a) => audio_probed(stream) == Ok::<AudioProbeResultView, ProbeErrorView>(a@),
            Err(e) => audio_probed(stream) == Err::<AudioProbeResultView, ProbeErrorView>(e@),
        },
{
    let Some(sample_rate) = parse_u32(stream.sample_rate.as_str()) else {
        return Err(ProbeError::BadSampleRate);
    };
    let Some(bit_rate) = parse_u32(stream.bit_rate.as_str()) else {
        return Err(ProbeError::BadAudioBitRate);
    };
    Ok(
        AudioProbeResult {
            sample_rate,
            bit_rate,
            channels: stream.channels,
            channel_layout: stream.channel_layout,
        },
    )
}

/// Makes the probe of a clip from the prober's two answers. The width and
/// height of the result are those of the frame as it is displayed: the
/// stored ones, changed about where the reported rotation is a quarter
/// turn. A file without an audio stream gives a probe without audio.
pub fn probe_result(video: FfprobeVideo, audio: FfprobeAudio) -> (result: Result<
    ProbeResult,
    ProbeError,
>)
    ensures
        probe_result_view(result) == probed(video, audio),
{
    let rotation = match reported_rotation(&video) {
        Ok(r) => r,
        Err(e) => {
            return Err(e);
        },
    };
    let Some(duration) = parse_seconds(video.format.duration.as_str()) else {
        return Err(ProbeError::BadDuration);
    };
    let stream = video.streams.0;
    let Some(bit_rate) = parse_u32(stream.bit_rate.as_str()) else {
        return Err(ProbeError::BadBitRate);
    };
    let (width, height) = if rotation.transposed() {
        (stream.height, stream.width)
    } else {
        (stream.width, stream.height)
    };
    let mut streams = audio.streams;
    let audio_settings = match streams.pop() {
        None => None,
        Some(last) => match audio_result(last) {
            Ok(a) => Some(a),
            Err(e) => {
                return Err(e);
            },
        },
    };
    Ok(
        ProbeResult {
            width,
            height,
            duration,
            rotation,
            pix_fmt: stream.pix_fmt,
            color_space: stream.color_space,
            color_transfer: stream.color_transfer,
            color_primaries: stream.color_primaries,
            bit_rate,
            audio: audio_settings,
        },
    )
}

/// The quarter turns change width and height about; no turn and the half
/// turn do not.
pub proof fn lemma_transposed_values()
    ensures
        Rotation::Neg90.is_transposed(),
        Rotation::Pos90.is_transposed(),
        !Rotation::Unrotated.is_transposed(),
        !Rotation::Neg180.is_transposed(),
{
}

/// A clip that is stored as `w` by `h` and probed with rotation R is
/// displayed as `h` by `w` where R is a quarter turn, and as `w` by `h`
/// otherwise.
pub proof fn lemma_probe_gives_display_size(
    video: FfprobeVideo,
    audio: FfprobeAudio,
    result: ProbeResultView,
)
    requires
        probed(video, audio) == Ok::<ProbeResultView, ProbeErrorView>(result),
    ensures
        rotation_reported(reported_degrees(video.streams.0.side_data_list)) == Ok::<
            Rotation,
            ProbeErrorView,
        >(result.rotation),
        result.rotation.is_transposed() ==> result.width == video.streams.0.height && result.height
            == video.streams.0.width,
        !result.rotation.is_transposed() ==> result.width == video.streams.0.width && result.height
            == video.streams.0.height,
{
}

} // verus!
