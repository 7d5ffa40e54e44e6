//! What is known of a video's streams once it has been probed.

use vstd::prelude::*;
use crate::rotation::Rotation;

verus! {

/// Where the catalog and its thumbnails are kept.
pub const DIR_PATH: &'static str = "./.video-sort";

/// How many encoder or prober processes may run at any one time.
pub const MAX_CONCURRENT_FFMPEG: usize = 1;

/// How many microseconds make a second. Times are counted in microseconds.
pub const MICROS_PER_SECOND: u64 = 1_000_000;

/// The view of an optional text.
pub open spec fn opt_text(text: Option<String>) -> Option<Seq<char>> {
    match text {
        Some(t) => Some(t@),
        None => None,
    }
}

/// A copy of an optional text.
pub fn clone_opt_text(text: &Option<String>) -> (copy: Option<String>)
    ensures
        opt_text(copy) == opt_text(*text),
{
    match text {
        Some(t) => Some(t.clone()),
        None => None,
    }
}

/// The stream settings of a clip's first audio stream.
#[derive(Debug)]
pub struct AudioProbeResult {
    pub sample_rate: u32,
    pub bit_rate: u32,
    pub channels: u32,
    pub channel_layout: String,
}

/// An `AudioProbeResult` as a mathematical value.
pub struct AudioProbeResultView {
    pub sample_rate: u32,
    pub bit_rate: u32,
    pub channels: u32,
    pub channel_layout: Seq<char>,
}

impl View for AudioProbeResult {
    type V = AudioProbeResultView;

    open spec fn view(&self) -> AudioProbeResultView {
        AudioProbeResultView {
            sample_rate: self.sample_rate,
            bit_rate: self.bit_rate,
            channels: self.channels,
            channel_layout: self.channel_layout@,
        }
    }
}

impl Clone for AudioProbeResult {
    fn clone(&self) -> (copy: Self)
        ensures
            copy@ == self@,
    {
        AudioProbeResult {
            sample_rate: self.sample_rate,
            bit_rate: self.bit_rate,
            channels: self.channels,
            channel_layout: self.channel_layout.clone(),
        }
    }
}

/// The view of an optional audio probe.
pub open spec fn opt_audio(audio: Option<AudioProbeResult>) -> Option<AudioProbeResultView> {
    match audio {
        Some(a) => Some(a@),
        None => None,
    }
}

/// A snapshot of one clip's media characteristics. `width` and `height` are
/// the size of the frame as it is displayed, after the rotation that the
/// container declares; `duration` is in microseconds. A clip without an audio
/// stream has `audio == None`.
#[derive(Debug)]
pub struct ProbeResult {
    pub width: u32,
    pub height: u32,
    pub duration: u64,
    pub rotation: Rotation,
    pub pix_fmt: String,
    pub color_space: Option<String>,
    pub color_transfer: Option<String>,
    pub color_primaries: Option<String>,
    pub bit_rate: u32,
    pub audio: Option<AudioProbeResult>,
}

/// A `ProbeResult` as a mathematical value.
pub struct ProbeResultView {
    pub width: u32,
    pub height: u32,
    pub duration: u64,
    pub rotation: Rotation,
    pub pix_fmt: Seq<char>,
    pub color_space: Option<Seq<char>>,
    pub color_transfer: Option<Seq<char>>,
    pub color_primaries: Option<Seq<char>>,
    pub bit_rate: u32,
    pub audio: Option<AudioProbeResultView>,
}

impl View for ProbeResult {
    type V = ProbeResultView;

    open spec fn view(&self) -> ProbeResultView {
        ProbeResultView {
            width: self.width,
            height: self.height,
            duration: self.duration,
            rotation: self.rotation,
            pix_fmt: self.pix_fmt@,
            color_space: opt_text(self.color_space),
            color_transfer: opt_text(self.color_transfer),
            color_primaries: opt_text(self.color_primaries),
            bit_rate: self.bit_rate,
            audio: opt_audio(self.audio),
        }
    }
}

impl Clone for ProbeResult {
    fn clone(&self) -> (copy: Self)
        ensures
            copy@ == self@,
    {
        let audio = match &self.audio {
            Some(a) => Some(a.clone()),
            None => None,
        };
        ProbeResult {
            width: self.width,
            height: self.height,
            duration: self.duration,
            rotation: self.rotation,
            pix_fmt: self.pix_fmt.clone(),
            color_space: clone_opt_text(&self.color_space),
            color_transfer: clone_opt_text(&self.color_transfer),
            color_primaries: clone_opt_text(&self.color_primaries),
            bit_rate: self.bit_rate,
            audio,
        }
    }
}

/// The view of an optional probe.
pub open spec fn opt_probe(probe: Option<ProbeResult>) -> Option<ProbeResultView> {
    match probe {
        Some(p) => Some(p@),
        None => None,
    }
}

} // verus!
