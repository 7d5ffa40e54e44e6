//! The catalog: the videos that are tracked, with their tags, notes and
//! probes.

use vstd::prelude::*;
use std::time::SystemTime;
use crate::common::{opt_probe, opt_text, ProbeResult, ProbeResultView};
use crate::text::{contains_text, find_text, first_index, lemma_first_index, lemma_texts_push, texts};

verus! {

/// `std::time::SystemTime`: a point in time as the file system reports it.
/// The library carries it along and never looks inside.
#[verifier::external_type_specification]
#[verifier::external_body]
pub struct ExSystemTime(SystemTime);

/// Where a video's file is: at its own path, or moved elsewhere.
#[derive(Debug)]
pub enum StowState {
    Original,
    Elsewhere(String),
}

impl StowState {
    /// The place the file was moved to, where it was moved.
    pub open spec fn elsewhere(self) -> Option<Seq<char>> {
        match self {
            StowState::Original => None,
            StowState::Elsewhere(p) => Some(p@),
        }
    }
}

/// One tracked video. Its thumbnail's name identifies it.
#[derive(Debug)]
pub struct Video {
    pub path: String,
    pub thumbnail_name: String,
    pub tags: Vec<String>,
    pub note: String,
    pub mtime: SystemTime,
    pub size: u64,
    pub probe: Option<ProbeResult>,
    pub stow_state: StowState,
}

/// A `Video` as a mathematical value. `tags` lists the tags in the order in
/// which they were given.
pub struct VideoView {
    pub path: Seq<char>,
    pub thumbnail_name: Seq<char>,
    pub tags: Seq<Seq<char>>,
    pub note: Seq<char>,
    pub mtime: SystemTime,
    pub size: u64,
    pub probe: Option<ProbeResultView>,
    pub elsewhere: Option<Seq<char>>,
}

impl View for Video {
    type V = VideoView;

    open spec fn view(&self) -> VideoView {
        VideoView {
            path: self.path@,
            thumbnail_name: self.thumbnail_name@,
            tags: texts(self.tags@),
            note: self.note@,
            mtime: self.mtime,
            size: self.size,
            probe: opt_probe(self.probe),
            elsewhere: self.stow_state.elsewhere(),
        }
    }
}

impl VideoView {
    /// Where the file's contents are now.
    pub open spec fn current_loc(self) -> Seq<char> {
        match self.elsewhere {
            Some(p) => p,
            None => self.path,
        }
    }

    /// Whether no tag is listed twice.
    pub open spec fn wf(self) -> bool {
        self.tags.no_duplicates()
    }
}

impl Video {
    /// A video that was just found: without tags, note or probe, at its own
    /// path.
    pub fn new(path: String, thumbnail_name: String, mtime: SystemTime, size: u64) -> (video: Self)
        ensures
            video@ == (VideoView {
                path: path@,
                thumbnail_name: thumbnail_name@,
                tags: Seq::<Seq<char>>::empty(),
                note: Seq::<char>::empty(),
                mtime,
                size,
                probe: None,
                elsewhere: None,
            }),
            video@.wf(),
    {
        let tags: Vec<String> = Vec::new();
        assert(texts(tags@) =~= Seq::<Seq<char>>::empty());
        Video {
            path,
            thumbnail_name,
            tags,
            note: String::new(),
            mtime,
            size,
            probe: None,
            stow_state: StowState::Original,
        }
    }

    /// Where the file's contents are now, which may not be the video's own
    /// path.
    pub fn current_loc(&self) -> (loc: &String)
        ensures
            loc@ == self@.current_loc(),
    {
        match &self.stow_state {
            StowState::Original => &self.path,
            StowState::Elsewhere(path) => path,
        }
    }
}

/// Everything that is kept between runs.
#[derive(Debug)]
pub struct State {
    pub videos: Vec<Video>,
    pub version: Option<String>,
}

/// The views of a list of videos, in order.
pub open spec fn video_views(videos: Seq<Video>) -> Seq<VideoView> {
    Seq::new(videos.len(), |i: int| videos[i]@)
}

/// A `State` as a mathematical value.
pub struct StateView {
    pub videos: Seq<VideoView>,
    pub version: Option<Seq<char>>,
}

impl View for State {
    type V = StateView;

    open spec fn view(&self) -> StateView {
        StateView { videos: video_views(self.videos@), version: opt_text(self.version) }
    }
}

/// `list` without the first place at which `item` stands.
pub open spec fn without_text(list: Seq<Seq<char>>, item: Seq<char>) -> Seq<Seq<char>> {
    match first_index(list, item) {
        Some(i) => list.remove(i),
        None => list,
    }
}

/// `list` with `item` at its end, unless `item` stands in it already.
pub open spec fn with_text(list: Seq<Seq<char>>, item: Seq<char>) -> Seq<Seq<char>> {
    if list.contains(item) {
        list
    } else {
        list.push(item)
    }
}

/// Taking an item out of a list in which nothing stands twice leaves a list
/// in which nothing stands twice and the item does not stand at all.
pub proof fn lemma_without_text(list: Seq<Seq<char>>, item: Seq<char>)
    requires
        list.no_duplicates(),
    ensures
        without_text(list, item).no_duplicates(),
        !without_text(list, item).contains(item),
        forall|other: Seq<char>|
            other != item ==> (without_text(list, item).contains(other) <==> list.contains(other)),
{
    lemma_first_index(list, item);
    let rest = without_text(list, item);
    match first_index(list, item) {
        Some(i) => {
            assert forall|a: int, b: int| 0 <= a < rest.len() && 0 <= b < rest.len() && a
                != b implies rest[a] != rest[b] by {
                let a0 = if a < i {
                    a
                } else {
                    a + 1
                };
                let b0 = if b < i {
                    b
                } else {
                    b + 1
                };
                assert(rest[a] == list[a0] && rest[b] == list[b0]);
            }
            assert forall|k: int| 0 <= k < rest.len() implies rest[k] != item by {
                let k0 = if k < i {
                    k
                } else {
                    k + 1
                };
                assert(rest[k] == list[k0]);
            }
            assert forall|other: Seq<char>| other != item implies (rest.contains(other)
                <==> list.contains(other)) by {
                if rest.contains(other) {
                    let k = choose|k: int| 0 <= k < rest.len() && rest[k] == other;
                    let k0 = if k < i {
                        k
                    } else {
                        k + 1
                    };
                    assert(list[k0] == other);
                }
                if list.contains(other) {
                    let k = choose|k: int| 0 <= k < list.len() && list[k] == other;
                    let k1 = if k < i {
                        k
                    } else {
                        k - 1
                    };
                    assert(rest[k1] == other);
                }
            }
        },
        None => {},
    }
}

/// Adding an item to a list in which nothing stands twice leaves a list in
/// which nothing stands twice and the item stands.
pub proof fn lemma_with_text(list: Seq<Seq<char>>, item: Seq<char>)
    requires
        list.no_duplicates(),
    ensures
        with_text(list, item).no_duplicates(),
        with_text(list, item).contains(item),
        forall|other: Seq<char>|
            other != item ==> (with_text(list, item).contains(other) <==> list.contains(other)),
{
    let more = with_text(list, item);
    if !list.contains(item) {
        assert(more[list.len() as int] == item);
        assert forall|other: Seq<char>| other != item implies (more.contains(other)
            <==> list.contains(other)) by {
            if more.contains(other) {
                let k = choose|k: int| 0 <= k < more.len() && more[k] == other;
                assert(list[k] == other);
            }
            if list.contains(other) {
                let k = choose|k: int| 0 <= k < list.len() && list[k] == other;
                assert(more[k] == other);
            }
        }
    }
}

/// Puts `tag` among `tags`, unless it is there already.
pub fn add_tag(tags: &mut Vec<String>, tag: &str)
    ensures
        texts(final(tags)@) == with_text(texts(old(tags)@), tag@),
{
    if !contains_text(tags, tag) {
        let item = crate::text::owned(tag);
        proof {
            lemma_texts_push(tags@, item);
        }
        tags.push(item);
    }
}

/// Takes `tag` from among `tags`, and answers whether it was there.
pub fn remove_tag(tags: &mut Vec<String>, tag: &str) -> (was_there: bool)
    ensures
        was_there == texts(old(tags)@).contains(tag@),
        texts(final(tags)@) == without_text(texts(old(tags)@), tag@),
{
    proof {
        lemma_first_index(texts(tags@), tag@);
    }
    match find_text(tags, tag) {
        Some(i) => {
            let _ = tags.remove(i);
            assert(texts(tags@) =~= texts(old(tags)@).remove(i as int));
            true
        },
        None => false,
    }
}

/// What a request does to the tags and the note of a video.
#[derive(Clone, Copy, Debug, PartialEq, Eq, Structural)]
pub enum ReqType {
    Add,
    Remove,
    EditNote,
}

impl VideoView {
    /// The video after a request of the given kind with the text
    /// `tag_or_note`.
    pub open spec fn edited(self, kind: ReqType, tag_or_note: Seq<char>) -> VideoView {
        match kind {
            ReqType::Add => VideoView { tags: with_text(self.tags, tag_or_note), ..self },
            ReqType::Remove => VideoView { tags: without_text(self.tags, tag_or_note), ..self },
            ReqType::EditNote => VideoView { note: tag_or_note, ..self },
        }
    }

    /// The video with the tag `old_tag` renamed to `new_tag`, where it
    /// carries `old_tag`.
    pub open spec fn renamed(self, old_tag: Seq<char>, new_tag: Seq<char>) -> VideoView {
        if self.tags.contains(old_tag) {
            VideoView { tags: with_text(without_text(self.tags, old_tag), new_tag), ..self }
        } else {
            self
        }
    }
}

/// An edit keeps the tags of a video a set: where no tag stood twice before,
/// none does after a tag was added or removed, a note was replaced, or a tag
/// was renamed.
pub proof fn lemma_edits_keep_tags_apart(
    video: VideoView,
    kind: ReqType,
    tag_or_note: Seq<char>,
    old_tag: Seq<char>,
    new_tag: Seq<char>,
)
    requires
        video.wf(),
    ensures
        video.edited(kind, tag_or_note).wf(),
        video.renamed(old_tag, new_tag).wf(),
        kind == ReqType::Add ==> video.edited(kind, tag_or_note).tags.contains(tag_or_note),
        kind == ReqType::Remove ==> !video.edited(kind, tag_or_note).tags.contains(tag_or_note),
        video.tags.contains(old_tag) ==> video.renamed(old_tag, new_tag).tags.contains(new_tag),
        old_tag != new_tag ==> !video.renamed(old_tag, new_tag).tags.contains(old_tag),
{
    lemma_with_text(video.tags, tag_or_note);
    lemma_without_text(video.tags, tag_or_note);
    lemma_without_text(video.tags, old_tag);
    lemma_with_text(without_text(video.tags, old_tag), new_tag);
}

impl Video {
    /// Adds the tag `tag_or_note`, removes it, or makes it the note.
    pub fn edit(&mut self, kind: ReqType, tag_or_note: &str)
        ensures
            final(self)@ == old(self)@.edited(kind, tag_or_note@),
    {
        match kind {
            ReqType::Add => add_tag(&mut self.tags, tag_or_note),
            ReqType::Remove => {
                let _ = remove_tag(&mut self.tags, tag_or_note);
            },
            ReqType::EditNote => {
                self.note = crate::text::owned(tag_or_note);
            },
        }
    }

    /// Renames the tag `old_tag` to `new_tag`, where the video carries
    /// `old_tag`.
    pub fn rename_tag(&mut self, old_tag: &str, new_tag: &str)
        ensures
            final(self)@ == old(self)@.renamed(old_tag@, new_tag@),
    {
        proof {
            lemma_first_index(texts(self.tags@), old_tag@);
        }
        if remove_tag(&mut self.tags, old_tag) {
            add_tag(&mut self.tags, new_tag);
        }
    }
}

/// A file to be moved from one place to another.
#[derive(Debug)]
pub struct Rename {
    pub from: String,
    pub to: String,
}

/// Why a video's file cannot be moved.
#[derive(Clone, Copy, Debug, PartialEq, Eq, Structural)]
pub enum StowError {
    /// The file was moved before and has not been brought back.
    AlreadyElsewhere,
}

impl StowError {
    /// What the error says.
    pub fn message(&self) -> (text: String)
        ensures
            text@ == "i'm already elsewhere"@,
    {
        crate::text::owned("i'm already elsewhere")
    }
}

impl Video {
    /// Plans to move the video's file to `new_path`: the move to make, or an
    /// error where the file has been moved already. The catalog learns of the
    /// move by `file_moved`, once it was made.
    pub fn move_file(&self, new_path: &str) -> (plan: Result<Rename, StowError>)
        ensures
            match plan {
                Ok(rename) => self@.elsewhere is None && rename.from@ == self@.path && rename.to@
                    == new_path@,
                Err(e) => self@.elsewhere is Some && e == StowError::AlreadyElsewhere,
            },
    {
        match &self.stow_state {
            StowState::Original => Ok(
                Rename { from: self.path.clone(), to: crate::text::owned(new_path) },
            ),
            StowState::Elsewhere(_) => Err(StowError::AlreadyElsewhere),
        }
    }

    /// Takes note that the video's file is now at `new_path`.
    pub fn file_moved(&mut self, new_path: String)
        ensures
            final(self)@ == (VideoView { elsewhere: Some(new_path@), ..old(self)@ }),
    {
        self.stow_state = StowState::Elsewhere(new_path);
    }

    /// Plans to bring the video's file back to its own path: the move to
    /// make, or none where the file is there. The catalog learns of it by
    /// `file_restored`.
    pub fn restore_file(&self) -> (plan: Option<Rename>)
        ensures
            match plan {
                Some(rename) => self@.elsewhere == Some(rename.from@) && rename.to@ == self@.path,
                None => self@.elsewhere is None,
            },
    {
        match &self.stow_state {
            StowState::Original => None,
            StowState::Elsewhere(path) => Some(
                Rename { from: path.clone(), to: self.path.clone() },
            ),
        }
    }

    /// Takes note that the video's file is at its own path.
    pub fn file_restored(&mut self)
        ensures
            final(self)@ == (VideoView { elsewhere: None, ..old(self)@ }),
    {
        self.stow_state = StowState::Original;
    }
}

/// The place in `path` at which the name of the file starts: behind the
/// last slash, or at the start where the path holds no slash.
pub open spec fn name_start(path: Seq<char>) -> int
    decreases path.len(),
{
    if path.len() == 0 {
        0
    } else if path.last() == '/' {
        path.len() as int
    } else {
        name_start(path.drop_last())
    }
}

/// The name under which the video at `path` is shown: what stands behind the
/// last slash of the path, or `.mp4` where nothing stands there.
pub open spec fn display_name_text(path: Seq<char>) -> Seq<char> {
    if name_start(path) >= path.len() {
        ".mp4"@
    } else {
        path.skip(name_start(path))
    }
}

impl Video {
    /// The name under which the video is shown: the name of its file.
    pub fn display_name(&self) -> (name: String)
        ensures
            name@ == display_name_text(self@.path),
    {
        let list = crate::text::chars_of(self.path.as_str());
        let mut i: usize = list.len();
        assert(list@.take(i as int) =~= list@);
        while i > 0 && list[i - 1] != '/'
            invariant
                i <= list.len(),
                name_start(list@.take(i as int)) == name_start(list@),
            decreases i,
        {
            assert(list@.take(i as int).drop_last() =~= list@.take(i - 1));
            i -= 1;
        }
        assert(name_start(list@) == i) by {
            if i > 0 {
                assert(list@.take(i as int).last() == '/');
            }
        }
        if i == list.len() {
            crate::text::owned(".mp4")
        } else {
            let name = crate::text::text_of(&list, i, list.len());
            assert(name@ =~= list@.skip(i as int));
            name
        }
    }
}

} // verus!
