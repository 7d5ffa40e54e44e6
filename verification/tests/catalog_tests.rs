use std::time::SystemTime;
use video_sort::catalog::{add_tag, remove_tag, ReqType, StowError, Video};
use video_sort::common::ProbeResult;
use video_sort::cook::{find_video_index, plan_composition, resolve_clip, resolve_clips};
use video_sort::defs::{
    Clip, CookReq, RenameTagRequest, VideoMetadataEditReq, VideoSelectRequest,
};
use video_sort::error::GraphBuildError;
use video_sort::handlers::{
    edit_matching, preview_path, removal_of, rename_tag, state_path, store_probe, take_matching,
    thumbnail_path, unprobed_with_tag, youtube_path,
};
use video_sort::rotation::Rotation;

fn probe() -> ProbeResult {
    ProbeResult {
        width: 1920,
        height: 1080,
        duration: 3_000_000,
        rotation: Rotation::Unrotated,
        pix_fmt: String::from("yuv420p"),
        color_space: None,
        color_transfer: None,
        color_primaries: None,
        bit_rate: 1,
        audio: None,
    }
}

fn video(name: &str, tags: &[&str], probed: bool) -> Video {
    let mut v = Video::new(
        format!("/videos/{name}.mp4"),
        format!("{name}.jpg"),
        SystemTime::UNIX_EPOCH,
        1_500_000,
    );
    for tag in tags {
        add_tag(&mut v.tags, tag);
    }
    if probed {
        v.probe = Some(probe());
    }
    v
}

fn names(videos: &[Video]) -> Vec<&str> {
    videos.iter().map(|v| v.thumbnail_name.as_str()).collect()
}

fn clip(name: &str, start: u64, end: u64) -> Clip {
    Clip { start, end, thumbnail_name: String::from(name), override_rotation: None }
}

#[test]
fn a_new_video_has_nothing_but_its_file() {
    let v = Video::new(String::from("/a/b.mp4"), String::from("ab.jpg"), SystemTime::UNIX_EPOCH, 7);
    assert_eq!(v.path, "/a/b.mp4");
    assert_eq!(v.thumbnail_name, "ab.jpg");
    assert!(v.tags.is_empty());
    assert_eq!(v.note, "");
    assert_eq!(v.size, 7);
    assert!(v.probe.is_none());
    assert_eq!(v.current_loc(), "/a/b.mp4");
}

#[test]
fn display_name_is_the_name_of_the_file() {
    let at = |path: &str| {
        Video::new(String::from(path), String::new(), SystemTime::UNIX_EPOCH, 0).display_name()
    };
    assert_eq!(at("/videos/holiday.mp4"), "holiday.mp4");
    assert_eq!(at("holiday.mp4"), "holiday.mp4");
    assert_eq!(at("./a/b/c d.mp4"), "c d.mp4");
    assert_eq!(at("/videos/"), ".mp4");
    assert_eq!(at(""), ".mp4");
    assert_eq!(at("/ü/é.mp4"), "é.mp4");
}

#[test]
fn tags_are_a_set() {
    let mut tags: Vec<String> = Vec::new();
    add_tag(&mut tags, "a");
    add_tag(&mut tags, "b");
    add_tag(&mut tags, "a");
    assert_eq!(tags, vec!["a", "b"]);
    assert!(!remove_tag(&mut tags, "c"));
    assert!(remove_tag(&mut tags, "a"));
    assert_eq!(tags, vec!["b"]);
    assert!(!remove_tag(&mut tags, "a"));
    add_tag(&mut tags, "a");
    assert_eq!(tags, vec!["b", "a"]);
}

#[test]
fn a_request_matches_by_name_names_or_tag() {
    let v = video("one", &["trip", "2024"], false);
    assert!(VideoSelectRequest::Thumbnail(String::from("one.jpg")).match_video(&v));
    assert!(!VideoSelectRequest::Thumbnail(String::from("one")).match_video(&v));
    assert!(VideoSelectRequest::Thumbnails(vec![String::from("x"), String::from("one.jpg")])
        .match_video(&v));
    assert!(!VideoSelectRequest::Thumbnails(Vec::new()).match_video(&v));
    assert!(VideoSelectRequest::Tag(String::from("2024")).match_video(&v));
    assert!(!VideoSelectRequest::Tag(String::from("one.jpg")).match_video(&v));
}

#[test]
fn edits_reach_every_selected_video() {
    let mut videos = vec![video("a", &["x"], false), video("b", &[], false), video("c", &["x"], false)];
    let add = VideoMetadataEditReq {
        target: VideoSelectRequest::Tag(String::from("x")),
        tag_or_note: String::from("y"),
    };
    assert!(edit_matching(&mut videos, &add, ReqType::Add));
    assert_eq!(videos[0].tags, vec!["x", "y"]);
    assert!(videos[1].tags.is_empty());
    assert_eq!(videos[2].tags, vec!["x", "y"]);

    let note = VideoMetadataEditReq {
        target: VideoSelectRequest::Thumbnail(String::from("b.jpg")),
        tag_or_note: String::from("look at this"),
    };
    assert!(edit_matching(&mut videos, &note, ReqType::EditNote));
    assert_eq!(videos[1].note, "look at this");
    assert_eq!(videos[0].note, "");

    let remove = VideoMetadataEditReq {
        target: VideoSelectRequest::Tag(String::from("x")),
        tag_or_note: String::from("x"),
    };
    assert!(edit_matching(&mut videos, &remove, ReqType::Remove));
    assert_eq!(videos[0].tags, vec!["y"]);
    assert_eq!(videos[2].tags, vec!["y"]);
    assert!(!edit_matching(&mut videos, &remove, ReqType::Remove));

    let nobody = VideoMetadataEditReq {
        target: VideoSelectRequest::Thumbnail(String::from("zzz")),
        tag_or_note: String::from("t"),
    };
    assert!(!edit_matching(&mut videos, &nobody, ReqType::Add));
    assert_eq!(videos[0].tags, vec!["y"]);
}

#[test]
fn renaming_a_tag_merges_it_where_the_new_one_is_there() {
    let mut videos =
        vec![video("a", &["old", "new"], false), video("b", &["old"], false), video("c", &["new"], false)];
    let request = RenameTagRequest { old: String::from("old"), new: String::from("new") };
    rename_tag(&mut videos, &request);
    assert_eq!(videos[0].tags, vec!["new"]);
    assert_eq!(videos[1].tags, vec!["new"]);
    assert_eq!(videos[2].tags, vec!["new"]);
    let absent = RenameTagRequest { old: String::from("none"), new: String::from("some") };
    rename_tag(&mut videos, &absent);
    assert_eq!(videos[1].tags, vec!["new"]);
}

#[test]
fn deleting_takes_the_selected_videos_and_keeps_the_order() {
    let mut videos = vec![
        video("a", &["x"], false),
        video("b", &[], false),
        video("c", &["x"], false),
        video("d", &[], false),
    ];
    let taken = take_matching(&mut videos, &VideoSelectRequest::Tag(String::from("x")));
    assert_eq!(names(&taken), vec!["a.jpg", "c.jpg"]);
    assert_eq!(names(&videos), vec!["b.jpg", "d.jpg"]);
    let none = take_matching(&mut videos, &VideoSelectRequest::Tag(String::from("x")));
    assert!(none.is_empty());
    assert_eq!(names(&videos), vec!["b.jpg", "d.jpg"]);
    let removal = removal_of(&taken[0]);
    assert_eq!(removal.preview, "./.video-sort/thumbs/a.jpg.mp4");
    assert_eq!(removal.thumbnail, "./.video-sort/thumbs/a.jpg");
    assert_eq!(removal.video, "/videos/a.mp4");
}

#[test]
fn files_of_the_catalog() {
    assert_eq!(thumbnail_path("a.jpg"), "./.video-sort/thumbs/a.jpg");
    assert_eq!(preview_path("a.jpg"), "./.video-sort/thumbs/a.jpg.mp4");
    assert_eq!(state_path(), "./.video-sort/state.json");
    assert_eq!(youtube_path("a.jpg"), "./storage/downloads/for-youtube/yt_a.jpg.mp4");
}

#[test]
fn a_file_is_moved_once_and_comes_back() {
    let mut v = video("a", &[], false);
    assert!(v.restore_file().is_none());
    let plan = v.move_file("./storage/downloads/for-youtube/yt_a.jpg.mp4").unwrap();
    assert_eq!(plan.from, "/videos/a.mp4");
    assert_eq!(plan.to, "./storage/downloads/for-youtube/yt_a.jpg.mp4");
    assert_eq!(v.current_loc(), "/videos/a.mp4");
    v.file_moved(plan.to);
    assert_eq!(v.current_loc(), "./storage/downloads/for-youtube/yt_a.jpg.mp4");
    assert_eq!(v.path, "/videos/a.mp4");
    let again = v.move_file("/elsewhere.mp4").unwrap_err();
    assert_eq!(again, StowError::AlreadyElsewhere);
    assert_eq!(again.message(), "i'm already elsewhere");
    let back = v.restore_file().unwrap();
    assert_eq!(back.from, "./storage/downloads/for-youtube/yt_a.jpg.mp4");
    assert_eq!(back.to, "/videos/a.mp4");
    v.file_restored();
    assert_eq!(v.current_loc(), "/videos/a.mp4");
    assert!(v.move_file("/x.mp4").is_ok());
}

#[test]
fn only_unprobed_videos_with_the_tag_are_probed() {
    let mut videos = vec![
        video("a", &["x"], false),
        video("b", &["x"], true),
        video("c", &[], false),
        video("d", &["y", "x"], false),
    ];
    assert_eq!(unprobed_with_tag(&videos, "x"), vec![0, 3]);
    assert_eq!(unprobed_with_tag(&videos, "y"), vec![3]);
    assert!(unprobed_with_tag(&videos, "z").is_empty());
    assert!(store_probe(&mut videos, "d.jpg", probe()));
    assert!(videos[3].probe.is_some());
    assert_eq!(unprobed_with_tag(&videos, "x"), vec![0]);
    assert!(!store_probe(&mut videos, "nobody.jpg", probe()));
}

#[test]
fn a_probe_goes_to_the_first_video_of_that_name() {
    let mut videos = vec![video("a", &[], false), video("b", &[], false), video("b", &[], false)];
    assert_eq!(find_video_index(&videos, "b.jpg"), Some(1));
    assert_eq!(find_video_index(&videos, "c.jpg"), None);
    assert!(store_probe(&mut videos, "b.jpg", probe()));
    assert!(videos[1].probe.is_some());
    assert!(videos[2].probe.is_none());
}

#[test]
fn a_clip_without_a_probe_is_left_out() {
    let videos = vec![video("a", &[], true), video("b", &[], false), video("c", &[], true)];
    let clips = vec![clip("a.jpg", 0, 5), clip("b.jpg", 1, 2), clip("c.jpg", 2, 4)];
    let resolved = resolve_clips(&clips, &videos).unwrap();
    assert_eq!(resolved.len(), clips.len() - 1);
    assert_eq!(resolved[0].video_path, "/videos/a.mp4");
    assert_eq!((resolved[0].start, resolved[0].end), (0, 5));
    assert_eq!(resolved[1].video_path, "/videos/c.mp4");
    assert_eq!((resolved[1].start, resolved[1].end), (2, 4));
}

#[test]
fn a_clip_of_an_unknown_video_is_left_out() {
    let videos = vec![video("a", &[], true)];
    let clips = vec![clip("nobody.jpg", 0, 5), clip("a.jpg", 1, 2), clip("a.jpg", 3, 4)];
    let resolved = resolve_clips(&clips, &videos).unwrap();
    assert_eq!(resolved.len(), 2);
    assert_eq!((resolved[0].start, resolved[1].start), (1, 3));
    assert!(resolve_clip(&clips[0], &videos).is_none());
}

#[test]
fn a_composition_without_any_valid_clip_is_refused() {
    let videos = vec![video("a", &[], false)];
    let clips = vec![clip("a.jpg", 0, 5), clip("b.jpg", 0, 5)];
    assert_eq!(resolve_clips(&clips, &videos).unwrap_err(), GraphBuildError::NoValidClips);
    assert_eq!(resolve_clips(&Vec::new(), &videos).unwrap_err(), GraphBuildError::NoValidClips);
}

#[test]
fn a_clip_takes_the_place_where_the_file_is_now() {
    let mut videos = vec![video("a", &[], true)];
    videos[0].file_moved(String::from("/moved/a.mp4"));
    let mut asked = clip("a.jpg", 10, 20);
    asked.override_rotation = Some(Rotation::Neg180);
    let joined = resolve_clip(&asked, &videos).unwrap();
    assert_eq!(joined.video_path, "/moved/a.mp4");
    assert_eq!(joined.override_rotation, Some(Rotation::Neg180));
    assert_eq!(joined.probe.width, 1920);
}

#[test]
fn a_composition_is_planned_before_anything_runs() {
    let videos = vec![video("a", &[], true), video("b", &[], false), video("c", &[], true)];
    let request = CookReq {
        clips: vec![clip("c.jpg", 1_000_000, 2_000_000), clip("b.jpg", 0, 1), clip("a.jpg", 0, 500_000)],
        width: 1920,
        height: 1080,
        name: String::from("best of"),
    };
    let plan = plan_composition(&request, &videos, 99).unwrap();
    assert_eq!(plan.work_dir, "./.video-sort/work/99");
    assert_eq!(plan.concat_path, "./.video-sort/work/99/concat.txt");
    assert_eq!(plan.concat_list, "file 'clip0.mp4'\nfile 'clip1.mp4'\n");
    assert_eq!(plan.encoders.len(), 2);
    assert_eq!(plan.encoders[0].program, "ffmpeg");
    assert_eq!(plan.encoders[0].args[6], "/videos/c.mp4");
    assert_eq!(
        plan.encoders[0].args[8],
        "[0:v] trim = start=1 : end=2, setpts=PTS-STARTPTS [outv]"
    );
    assert_eq!(plan.encoders[0].args.last().unwrap(), "./.video-sort/work/99/clip0.mp4");
    assert_eq!(plan.encoders[1].args[6], "/videos/a.mp4");
    assert_eq!(plan.encoders[1].args.last().unwrap(), "./.video-sort/work/99/clip1.mp4");
    assert_eq!(
        plan.concat.args,
        vec![
            "-v",
            "error",
            "-stats",
            "-f",
            "concat",
            "-i",
            "./.video-sort/work/99/concat.txt",
            "-c",
            "copy",
            "-y",
            "./storage/downloads/best of.mp4",
        ]
    );
}

#[test]
fn a_composition_that_cannot_be_rendered_is_refused_at_once() {
    let videos = vec![video("a", &[], true), video("b", &[], false)];
    let ask = |clips: Vec<Clip>, width: u32, height: u32| {
        let request = CookReq { clips, width, height, name: String::from("x") };
        plan_composition(&request, &videos, 1).map(|plan| plan.encoders.len())
    };
    assert_eq!(ask(vec![clip("a.jpg", 0, 1)], 0, 1080), Err(GraphBuildError::ZeroCanvas));
    assert_eq!(ask(vec![clip("a.jpg", 0, 1)], 1920, 0), Err(GraphBuildError::ZeroCanvas));
    assert_eq!(ask(vec![clip("b.jpg", 0, 1)], 0, 0), Err(GraphBuildError::ZeroCanvas));
    assert_eq!(ask(vec![clip("b.jpg", 0, 1)], 1920, 1080), Err(GraphBuildError::NoValidClips));
    assert_eq!(ask(Vec::new(), 1920, 1080), Err(GraphBuildError::NoValidClips));
    assert_eq!(
        ask(vec![clip("a.jpg", 0, 1), clip("a.jpg", 2, 2)], 1920, 1080),
        Err(GraphBuildError::EmptyRange)
    );
    assert_eq!(ask(vec![clip("b.jpg", 2, 2), clip("a.jpg", 0, 1)], 1920, 1080), Ok(1));
    assert_eq!(ask(vec![clip("a.jpg", 0, 1), clip("a.jpg", 1, 2)], 1920, 1080), Ok(2));
}
