//! What a caller can ask of the catalog and of the composer.

use vstd::prelude::*;
use crate::catalog::{Video, VideoView};
use crate::rotation::Rotation;
use crate::text::{contains_text, same_text, texts};

verus! {

/// Which videos a request is about: one by its thumbnail's name, several by
/// their thumbnails' names, or all that carry a tag.
#[derive(Debug)]
pub enum VideoSelectRequest {
    Thumbnail(String),
    Thumbnails(Vec<String>),
    Tag(String),
}

/// A `VideoSelectRequest` as a mathematical value.
pub enum VideoSelectView {
    Thumbnail(Seq<char>),
    Thumbnails(Seq<Seq<char>>),
    Tag(Seq<char>),
}

impl VideoSelectView {
    /// Whether the request is about `video`.
    pub open spec fn matches(self, video: VideoView) -> bool {
        match self {
            VideoSelectView::Thumbnail(name) => video.thumbnail_name == name,
            VideoSelectView::Thumbnails(names) => names.contains(video.thumbnail_name),
            VideoSelectView::Tag(tag) => video.tags.contains(tag),
        }
    }
}

impl View for VideoSelectRequest {
    type V = VideoSelectView;

    open spec fn view(&self) -> VideoSelectView {
        match self {
            VideoSelectRequest::Thumbnail(name) => VideoSelectView::Thumbnail(name@),
            VideoSelectRequest::Thumbnails(names) => VideoSelectView::Thumbnails(texts(names@)),
            VideoSelectRequest::Tag(tag) => VideoSelectView::Tag(tag@),
        }
    }
}

impl VideoSelectRequest {
    /// Whether the request is about `video`.
    pub fn match_video(&self, video: &Video) -> (matched: bool)
        ensures
            matched == self@.matches(video@),
    {
        match self {
            VideoSelectRequest::Thumbnail(thumbnail_name) => same_text(
                video.thumbnail_name.as_str(),
                thumbnail_name.as_str(),
            ),
            VideoSelectRequest::Thumbnails(thumbnail_names) => contains_text(
                thumbnail_names,
                video.thumbnail_name.as_str(),
            ),
            VideoSelectRequest::Tag(tag) => contains_text(&video.tags, tag.as_str()),
        }
    }
}

/// A request to add a tag to the selected videos, to remove it from them, or
/// to replace their note.
#[derive(Debug)]
pub struct VideoMetadataEditReq {
    pub target: VideoSelectRequest,
    pub tag_or_note: String,
}

/// A request to give a tag another name on every video that carries it.
#[derive(Debug)]
pub struct RenameTagRequest {
    pub old: String,
    pub new: String,
}

/// An error as it is reported to the caller.
#[derive(Debug)]
pub struct JsonError {
    pub error: String,
}

/// A request to probe the videos that carry a tag.
#[derive(Debug)]
pub struct PreparePreviewReq {
    pub tag: String,
}

/// One segment that a composition asks for: the video by its thumbnail's
/// name, the cut from `start` to `end` in microseconds, and optionally a
/// rotation that replaces the probed one for this composition.
#[derive(Debug)]
pub struct Clip {
    pub start: u64,
    pub end: u64,
    pub thumbnail_name: String,
    pub override_rotation: Option<Rotation>,
}

/// A `Clip` as a mathematical value.
pub struct ClipView {
    pub start: u64,
    pub end: u64,
    pub thumbnail_name: Seq<char>,
    pub override_rotation: Option<Rotation>,
}

impl View for Clip {
    type V = ClipView;

    open spec fn view(&self) -> ClipView {
        ClipView {
            start: self.start,
            end: self.end,
            thumbnail_name: self.thumbnail_name@,
            override_rotation: self.override_rotation,
        }
    }
}

/// A composition: the clips in order, the canvas, and the name of the output.
#[derive(Debug)]
pub struct CookReq {
    pub clips: Vec<Clip>,
    pub width: u32,
    pub height: u32,
    pub name: String,
}

/// The views of a list of clips, in order.
pub open spec fn clip_views(clips: Seq<Clip>) -> Seq<ClipView> {
    Seq::new(clips.len(), |i: int| clips[i]@)
}

/// A `CookReq` as a mathematical value.
pub struct CookReqView {
    pub clips: Seq<ClipView>,
    pub width: u32,
    pub height: u32,
    pub name: Seq<char>,
}

impl View for CookReq {
    type V = CookReqView;

    open spec fn view(&self) -> CookReqView {
        CookReqView {
            clips: clip_views(self.clips@),
            width: self.width,
            height: self.height,
            name: self.name@,
        }
    }
}

} // verus!
