use video_sort::common::{AudioProbeResult, ProbeResult};
use video_sort::error::GraphBuildError;
use video_sort::probe::CookClip;
use video_sort::rotation::Rotation;
use video_sort::timeline::{build, timeline_invocation};

fn probe(width: u32, height: u32, audio: bool) -> ProbeResult {
    ProbeResult {
        width,
        height,
        duration: 10_000_000,
        rotation: Rotation::Unrotated,
        pix_fmt: String::from("yuv420p"),
        color_space: None,
        color_transfer: None,
        color_primaries: None,
        bit_rate: 4_000_000,
        audio: if audio {
            Some(AudioProbeResult {
                sample_rate: 48000,
                bit_rate: 128000,
                channels: 2,
                channel_layout: String::from("stereo"),
            })
        } else {
            None
        },
    }
}

fn clip(path: &str, probe: ProbeResult, start: u64, end: u64) -> CookClip {
    CookClip { video_path: String::from(path), probe, start, end, override_rotation: None }
}

#[test]
fn timeline_of_two_clips_joins_two_pairs() {
    let base = probe(1080, 1920, true);
    let clips = vec![
        clip("/v/a.mp4", probe(1920, 1080, true), 0, 5_000_000),
        clip("/v/b.mp4", probe(1080, 1920, true), 2_000_000, 4_000_000),
    ];
    let timeline = build(&base, &clips).unwrap();
    assert_eq!(timeline.inputs, vec!["/v/a.mp4", "/v/b.mp4"]);
    assert_eq!(
        timeline.program,
        "[0:a] atrim = start=0 : end=5, asetpts=PTS-STARTPTS [outa0]; \
         [0:v] trim = start=0 : end=5, setpts=PTS-STARTPTS\
         , split [v_trimmed0] [v_trimmed_copy0]; \
         [v_trimmed0] scale = 1080:-1, setsar = 1 [v_scaled0]; \
         [v_trimmed_copy0] crop = 607:1080:656:0, \
         scale = 360:640, gblur = sigma=36, scale = 1080:1920, \
         setsar = 1 [v_blurred0]; \
         [v_blurred0] [v_scaled0] \
         overlay = (main_w-overlay_w)/2:(main_h-overlay_h)/2 [outv0]; \
         [1:a] atrim = start=2 : end=4, asetpts=PTS-STARTPTS [outa1]; \
         [1:v] trim = start=2 : end=4, setpts=PTS-STARTPTS [outv1]; \
         [outv0] [outa0] [outv1] [outa1] concat = n=2 : v=1 : a=1 [outv] [outa]"
    );
    assert_eq!(timeline.program.matches("gblur").count(), 1);
    assert_eq!(timeline.program.matches("overlay = ").count(), 1);
}

#[test]
fn timeline_without_audio_joins_video_only() {
    let base = probe(640, 480, false);
    let clips = vec![
        clip("a", probe(640, 480, true), 0, 1_000_000),
        clip("b", probe(320, 240, false), 500_000, 1_000_000),
        clip("c", probe(640, 480, false), 0, 1),
    ];
    let timeline = build(&base, &clips).unwrap();
    assert_eq!(
        timeline.program,
        "[0:v] trim = start=0 : end=1, setpts=PTS-STARTPTS [outv0]; \
         [1:v] trim = start=0.5 : end=1, setpts=PTS-STARTPTS, scale = 640:480, setsar = 1 [outv1]; \
         [2:v] trim = start=0 : end=0.000001, setpts=PTS-STARTPTS [outv2]; \
         [outv0] [outv1] [outv2] concat = n=3 : v=1 : a=0 [outv]"
    );
}

#[test]
fn timeline_gives_silence_to_a_clip_without_audio() {
    let base = probe(640, 480, true);
    let clips = vec![clip("a", probe(640, 480, false), 1_000_000, 3_500_000)];
    let timeline = build(&base, &clips).unwrap();
    assert_eq!(
        timeline.program,
        "anullsrc = r=48000 : cl=stereo, atrim = start=0 : end=2.5, \
         asetpts=PTS-STARTPTS [outa0]; \
         [0:v] trim = start=1 : end=3.5, setpts=PTS-STARTPTS [outv0]; \
         [outv0] [outa0] concat = n=1 : v=1 : a=1 [outv] [outa]"
    );
}

#[test]
fn timeline_labels_carry_numbers_of_several_digits() {
    let base = probe(640, 480, false);
    let clips: Vec<CookClip> =
        (0..11).map(|i| clip(&format!("{i}.mp4"), probe(640, 480, false), 0, 1_000_000)).collect();
    let timeline = build(&base, &clips).unwrap();
    assert!(timeline.program.contains("[10:v] trim = start=0 : end=1, setpts=PTS-STARTPTS [outv10]; "));
    assert!(timeline.program.ends_with("[outv9] [outv10] concat = n=11 : v=1 : a=0 [outv]"));
    assert_eq!(timeline.inputs.len(), 11);
}

#[test]
fn timeline_is_the_same_twice() {
    let base = probe(1080, 1920, true);
    let clips = vec![
        clip("/v/a.mp4", probe(1920, 1080, false), 0, 5_000_000),
        clip("/v/b.mp4", probe(1080, 1920, true), 2_000_000, 4_000_000),
    ];
    let first = build(&base, &clips).unwrap();
    let second = build(&base, &clips).unwrap();
    assert_eq!(first.program.as_bytes(), second.program.as_bytes());
    assert_eq!(first.inputs, second.inputs);
}

#[test]
fn timeline_refuses_what_cannot_be_rendered() {
    let good = vec![clip("a", probe(640, 480, false), 0, 1)];
    assert_eq!(build(&probe(0, 480, false), &good).unwrap_err(), GraphBuildError::ZeroCanvas);
    assert_eq!(build(&probe(640, 0, false), &good).unwrap_err(), GraphBuildError::ZeroCanvas);
    assert_eq!(
        build(&probe(640, 480, false), &Vec::new()).unwrap_err(),
        GraphBuildError::NoValidClips
    );
    assert_eq!(
        build(&probe(0, 0, false), &Vec::new()).unwrap_err(),
        GraphBuildError::ZeroCanvas
    );
    let bad = vec![
        clip("a", probe(640, 480, false), 0, 1),
        clip("b", probe(640, 480, false), 5, 5),
    ];
    assert_eq!(build(&probe(640, 480, false), &bad).unwrap_err(), GraphBuildError::EmptyRange);
}

#[test]
fn timeline_invocation_reads_every_input() {
    let base = probe(640, 480, false);
    let clips = vec![
        clip("a.mp4", probe(640, 480, false), 0, 1_000_000),
        clip("b.mp4", probe(640, 480, false), 0, 1_000_000),
    ];
    let timeline = build(&base, &clips).unwrap();
    let program = timeline.program.clone();
    let made = timeline_invocation(timeline, &base, "out.mp4");
    assert_eq!(made.program, "ffmpeg");
    assert_eq!(
        made.args,
        vec![
            "-v",
            "error",
            "-stats",
            "-display_rotation",
            "0",
            "-i",
            "a.mp4",
            "-display_rotation",
            "0",
            "-i",
            "b.mp4",
            "-filter_complex",
            program.as_str(),
            "-map",
            "[outv]",
            "-preset",
            "veryfast",
            "-crf",
            "18",
            "-c:v",
            "libx264",
            "-pix_fmt",
            "yuv420p",
            "-color_primaries",
            "bt709",
            "-color_trc",
            "bt709",
            "-colorspace",
            "bt709",
            "-fps_mode",
            "vfr",
            "-metadata:s:v",
            "rotate=0",
            "-video_track_timescale",
            "90000",
            "-fflags",
            "+genpts",
            "-y",
            "out.mp4",
        ]
    );
}
