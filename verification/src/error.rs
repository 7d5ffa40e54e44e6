//! What can go wrong before and while a composition is rendered.

use vstd::prelude::*;
use crate::text::{owned, push_signed_decimal, push_text, signed_decimal};

verus! {

/// A composition that cannot be rendered as it was asked for. It fails the
/// whole request before any process is started.
#[derive(Clone, Copy, Debug, PartialEq, Eq, Structural)]
pub enum GraphBuildError {
    /// The canvas has no width or no height.
    ZeroCanvas,
    /// A clip ends at or before its start.
    EmptyRange,
    /// None of the clips that were asked for is in the catalog with a probe.
    NoValidClips,
}

impl GraphBuildError {
    /// What the error says, as a text.
    pub open spec fn message_text(self) -> Seq<char> {
        match self {
            GraphBuildError::ZeroCanvas => "the canvas has no width or no height"@,
            GraphBuildError::EmptyRange => "a clip ends at or before its start"@,
            GraphBuildError::NoValidClips => "none of the clips has been probed"@,
        }
    }

    /// What the error says.
    pub fn message(&self) -> (text: String)
        ensures
            text@ == self.message_text(),
    {
        match self {
            GraphBuildError::ZeroCanvas => owned("the canvas has no width or no height"),
            GraphBuildError::EmptyRange => owned("a clip ends at or before its start"),
            GraphBuildError::NoValidClips => owned("none of the clips has been probed"),
        }
    }
}

/// A clip that could not be probed. It concerns that one clip only.
#[derive(Debug)]
pub enum ProbeError {
    /// The prober failed on the video stream; with what it wrote about it.
    VideoProbeFailed(String),
    /// The prober failed on the audio stream; with what it wrote about it.
    AudioProbeFailed(String),
    /// The video stream declares a rotation that is no quarter or half turn.
    UnknownRotation(i32),
    /// The duration of the file is no time.
    BadDuration,
    /// The bit rate of the video stream is no number.
    BadBitRate,
    /// The sample rate of the audio stream is no number.
    BadSampleRate,
    /// The bit rate of the audio stream is no number.
    BadAudioBitRate,
}

/// A `ProbeError` as a mathematical value.
pub enum ProbeErrorView {
    VideoProbeFailed(Seq<char>),
    AudioProbeFailed(Seq<char>),
    UnknownRotation(i32),
    BadDuration,
    BadBitRate,
    BadSampleRate,
    BadAudioBitRate,
}

impl View for ProbeError {
    type V = ProbeErrorView;

    open spec fn view(&self) -> ProbeErrorView {
        match self {
            ProbeError::VideoProbeFailed(said) => ProbeErrorView::VideoProbeFailed(said@),
            ProbeError::AudioProbeFailed(said) => ProbeErrorView::AudioProbeFailed(said@),
            ProbeError::UnknownRotation(r) => ProbeErrorView::UnknownRotation(*r),
            ProbeError::BadDuration => ProbeErrorView::BadDuration,
            ProbeError::BadBitRate => ProbeErrorView::BadBitRate,
            ProbeError::BadSampleRate => ProbeErrorView::BadSampleRate,
            ProbeError::BadAudioBitRate => ProbeErrorView::BadAudioBitRate,
        }
    }
}

impl ProbeErrorView {
    /// What the error says, as a text.
    pub open spec fn message_text(self) -> Seq<char> {
        match self {
            ProbeErrorView::VideoProbeFailed(said) => "ffprobe video error:\n"@ + said,
            ProbeErrorView::AudioProbeFailed(said) => "ffprobe audio error:\n"@ + said,
            ProbeErrorView::UnknownRotation(r) => "Unknown rotation "@ + signed_decimal(r as int),
            ProbeErrorView::BadDuration => "the duration is not a time in seconds"@,
            ProbeErrorView::BadBitRate => "the bit rate of the video is not a number"@,
            ProbeErrorView::BadSampleRate => "the sample rate of the audio is not a number"@,
            ProbeErrorView::BadAudioBitRate => "the bit rate of the audio is not a number"@,
        }
    }
}

impl ProbeError {
    /// What the error says.
    pub fn message(&self) -> (text: String)
        ensures
            text@ == self@.message_text(),
    {
        match self {
            ProbeError::VideoProbeFailed(said) => {
                let mut text = owned("ffprobe video error:\n");
                push_text(&mut text, said.as_str());
                text
            },
            ProbeError::AudioProbeFailed(said) => {
                let mut text = owned("ffprobe audio error:\n");
                push_text(&mut text, said.as_str());
                text
            },
            ProbeError::UnknownRotation(r) => {
                let mut text = owned("Unknown rotation ");
                push_signed_decimal(&mut text, *r as i64);
                text
            },
            ProbeError::BadDuration => owned("the duration is not a time in seconds"),
            ProbeError::BadBitRate => owned("the bit rate of the video is not a number"),
            ProbeError::BadSampleRate => owned("the sample rate of the audio is not a number"),
            ProbeError::BadAudioBitRate => owned("the bit rate of the audio is not a number"),
        }
    }
}

} // verus!
