use video_sort::common::MAX_CONCURRENT_FFMPEG;
use video_sort::batch::{Batch, Step};
use video_sort::pipeline::{Action, CookError, Forwarder, Phase, Pipeline};

#[test]
fn a_failed_clip_means_no_concat_but_a_cleanup() {
    let mut pipeline = Pipeline::new(3, 1);
    assert_eq!(pipeline.phase(), Phase::Pending);
    assert_eq!(pipeline.next_action(), Action::StartClip(0));
    assert_eq!(pipeline.phase(), Phase::PerClipEncoding);
    assert_eq!(pipeline.next_action(), Action::Wait);
    assert!(pipeline.clip_exited(true));
    assert_eq!(pipeline.next_action(), Action::StartClip(1));
    assert!(pipeline.clip_exited(true));
    assert_eq!(pipeline.next_action(), Action::StartClip(2));
    assert!(pipeline.clip_exited(false));
    assert_eq!(pipeline.next_action(), Action::CleanUp);
    assert_eq!(pipeline.phase(), Phase::Failed);
    assert_eq!(pipeline.next_action(), Action::Finish(false));
    assert_eq!(pipeline.next_action(), Action::Finish(false));
    assert!(!pipeline.concat_exited(true));
    assert_eq!(pipeline.phase(), Phase::Failed);
}

#[test]
fn a_failure_in_the_middle_still_lets_the_others_run() {
    let mut pipeline = Pipeline::new(3, 3);
    assert_eq!(pipeline.next_action(), Action::StartClip(0));
    assert_eq!(pipeline.next_action(), Action::StartClip(1));
    assert_eq!(pipeline.next_action(), Action::StartClip(2));
    assert!(pipeline.clip_exited(false));
    assert_eq!(pipeline.next_action(), Action::Wait);
    assert!(pipeline.clip_exited(true));
    assert_eq!(pipeline.next_action(), Action::Wait);
    assert!(pipeline.clip_exited(true));
    assert_eq!(pipeline.next_action(), Action::CleanUp);
    assert_eq!(pipeline.next_action(), Action::Finish(false));
}

#[test]
fn never_more_processes_than_the_limit() {
    let limit = 2;
    let clips = 5;
    let mut pipeline = Pipeline::new(clips, limit);
    let mut started = Vec::new();
    let mut most = 0;
    loop {
        match pipeline.next_action() {
            Action::StartClip(index) => {
                started.push(index);
                assert!(pipeline.running() <= limit);
                most = most.max(pipeline.running());
            }
            Action::Wait => {
                assert_eq!(pipeline.running(), limit.min(clips - (started.len() - pipeline.running())));
                assert!(pipeline.clip_exited(true));
            }
            Action::StartConcat => break,
            other => panic!("unexpected {:?}", other),
        }
    }
    assert_eq!(started, vec![0, 1, 2, 3, 4]);
    assert_eq!(most, limit);
    assert_eq!(pipeline.running(), 0);
}

#[test]
fn one_at_a_time_by_default() {
    assert_eq!(MAX_CONCURRENT_FFMPEG, 1);
    let mut pipeline = Pipeline::new(2, MAX_CONCURRENT_FFMPEG);
    assert_eq!(pipeline.next_action(), Action::StartClip(0));
    assert_eq!(pipeline.running(), 1);
    assert_eq!(pipeline.next_action(), Action::Wait);
    assert_eq!(pipeline.next_action(), Action::Wait);
    assert_eq!(pipeline.running(), 1);
}

#[test]
fn all_clips_done_then_concat_then_cleanup() {
    let mut pipeline = Pipeline::new(2, 4);
    assert_eq!(pipeline.next_action(), Action::StartClip(0));
    assert_eq!(pipeline.next_action(), Action::StartClip(1));
    assert_eq!(pipeline.next_action(), Action::Wait);
    assert!(!pipeline.concat_exited(true));
    assert!(pipeline.clip_exited(true));
    assert_eq!(pipeline.next_action(), Action::Wait);
    assert!(pipeline.clip_exited(true));
    assert!(!pipeline.clip_exited(true));
    assert_eq!(pipeline.next_action(), Action::StartConcat);
    assert_eq!(pipeline.phase(), Phase::Concatenating);
    assert_eq!(pipeline.next_action(), Action::Wait);
    assert!(!pipeline.clip_exited(false));
    assert!(pipeline.concat_exited(true));
    assert_eq!(pipeline.phase(), Phase::Done);
    assert_eq!(pipeline.next_action(), Action::CleanUp);
    assert_eq!(pipeline.next_action(), Action::Finish(true));
}

#[test]
fn a_failed_concat_fails_the_composition_and_cleans_up() {
    let mut pipeline = Pipeline::new(1, 1);
    assert_eq!(pipeline.next_action(), Action::StartClip(0));
    assert!(pipeline.clip_exited(true));
    assert_eq!(pipeline.next_action(), Action::StartConcat);
    assert!(pipeline.concat_exited(false));
    assert_eq!(pipeline.phase(), Phase::Failed);
    assert_eq!(pipeline.next_action(), Action::CleanUp);
    assert_eq!(pipeline.next_action(), Action::Finish(false));
}

#[test]
fn an_exit_that_nothing_waits_for_changes_nothing() {
    let mut pipeline = Pipeline::new(2, 1);
    assert!(!pipeline.clip_exited(true));
    assert!(!pipeline.concat_exited(true));
    assert_eq!(pipeline.phase(), Phase::Pending);
    assert_eq!(pipeline.running(), 0);
    assert_eq!(pipeline.next_action(), Action::StartClip(0));
}

#[test]
fn without_a_permit_nothing_starts() {
    let mut pipeline = Pipeline::new(2, 0);
    assert_eq!(pipeline.next_action(), Action::Wait);
    assert_eq!(pipeline.next_action(), Action::Wait);
    assert_eq!(pipeline.running(), 0);
}

#[test]
fn a_caller_that_has_gone_gets_no_more_lines() {
    let mut forwarder = Forwarder::new();
    assert!(forwarder.listening);
    forwarder.sent(true);
    assert!(forwarder.listening);
    forwarder.sent(false);
    assert!(!forwarder.listening);
    forwarder.sent(true);
    assert!(!forwarder.listening);
}

#[test]
fn a_batch_never_runs_more_than_its_limit() {
    let mut batch = Batch::new(5, 2);
    assert_eq!(batch.next_step(), Step::Start(0));
    assert_eq!(batch.next_step(), Step::Start(1));
    assert_eq!(batch.next_step(), Step::Wait);
    assert_eq!(batch.running(), 2);
    assert!(batch.task_ended(true));
    assert_eq!(batch.next_step(), Step::Start(2));
    assert_eq!(batch.next_step(), Step::Wait);
    assert!(batch.task_ended(false));
    assert!(batch.task_ended(true));
    assert!(!batch.task_ended(true));
    assert_eq!(batch.running(), 0);
    assert_eq!(batch.next_step(), Step::Start(3));
    assert_eq!(batch.next_step(), Step::Start(4));
    assert_eq!(batch.next_step(), Step::Wait);
    assert!(batch.task_ended(true));
    assert!(batch.task_ended(false));
    assert_eq!(batch.next_step(), Step::Done);
    assert_eq!(batch.next_step(), Step::Done);
    assert_eq!(batch.failed(), 2);
    let mut empty = Batch::new(0, 3);
    assert_eq!(empty.next_step(), Step::Done);
    let mut stuck = Batch::new(1, 0);
    assert_eq!(stuck.next_step(), Step::Wait);
    assert!(!stuck.task_ended(true));
}

#[test]
fn a_failed_composition_says_which_stage_failed() {
    let mut encode = Pipeline::new(1, 1);
    assert_eq!(encode.failure(), None);
    assert_eq!(encode.next_action(), Action::StartClip(0));
    assert!(encode.clip_exited(false));
    assert_eq!(encode.failure(), None);
    assert_eq!(encode.next_action(), Action::CleanUp);
    assert_eq!(encode.failure(), Some(CookError::Encode));
    assert_eq!(CookError::Encode.message(), "a clip could not be encoded");

    let mut concat = Pipeline::new(1, 1);
    assert_eq!(concat.next_action(), Action::StartClip(0));
    assert!(concat.clip_exited(true));
    assert_eq!(concat.next_action(), Action::StartConcat);
    assert!(concat.concat_exited(false));
    assert_eq!(concat.failure(), Some(CookError::Concat));
    assert_eq!(CookError::Concat.message(), "the clips could not be joined");

    let mut fine = Pipeline::new(0, 1);
    assert_eq!(fine.next_action(), Action::StartConcat);
    assert!(fine.concat_exited(true));
    assert_eq!(fine.failure(), None);
}
