//! The order of work in one composition.
//!
//! Every clip is encoded by a process of its own, at most `limit` of them at
//! a time. When all have exited and none has failed, one more process joins
//! the encoded clips. Whatever happened, the working directory is removed
//! before the composition reports how it ended. The caller runs the
//! processes and tells the pipeline what became of them; the pipeline
//! decides what is done next.

use vstd::prelude::*;

verus! {

/// How far a composition has come.
#[derive(Clone, Copy, Debug, PartialEq, Eq, Structural)]
pub enum Phase {
    /// Nothing has been started.
    Pending,
    /// Clips are being encoded.
    PerClipEncoding,
    /// All clips were encoded and are being joined.
    Concatenating,
    /// The clips were joined.
    Done,
    /// A clip could not be encoded, or the clips could not be joined.
    Failed,
}

/// What the caller is to do next.
#[derive(Clone, Copy, Debug, PartialEq, Eq, Structural)]
pub enum Action {
    /// Start the process that encodes the clip with this number.
    StartClip(usize),
    /// Start nothing; come back when a running process has exited.
    Wait,
    /// Start the process that joins the encoded clips.
    StartConcat,
    /// Remove the working directory.
    CleanUp,
    /// Report how the composition ended: `true` where the output was
    /// written.
    Finish(bool),
}

/// A `Pipeline` as a mathematical value.
pub struct PipelineView {
    /// How many processes may run at a time.
    pub limit: nat,
    /// How many clips the composition has.
    pub total: nat,
    /// How many clips have been handed to a process, in order from clip 0.
    pub started: nat,
    /// How many of these processes have exited.
    pub finished: nat,
    /// Whether the process of any clip has failed.
    pub clip_failed: bool,
    pub phase: Phase,
    /// Whether the working directory has been removed.
    pub cleaned: bool,
}

impl PipelineView {
    /// How many encoder processes are running.
    pub open spec fn running(self) -> int {
        self.started - self.finished
    }

    /// What holds of a pipeline at every moment: no more processes run than
    /// the limit allows, clips are joined only after every one of them was
    /// encoded without failure, and nothing is removed while work goes on.
    pub open spec fn wf(self) -> bool {
        &&& self.finished <= self.started <= self.total
        &&& self.running() <= self.limit
        &&& match self.phase {
            Phase::Pending => self.started == 0 && !self.clip_failed && !self.cleaned,
            Phase::PerClipEncoding => !self.cleaned,
            Phase::Concatenating => self.finished == self.total && !self.clip_failed
                && !self.cleaned,
            Phase::Done => self.finished == self.total && !self.clip_failed,
            Phase::Failed => self.finished == self.total,
        }
    }

    /// The pipeline of a composition of `total` clips of which nothing has
    /// been started.
    pub open spec fn initial(total: nat, limit: nat) -> PipelineView {
        PipelineView {
            limit,
            total,
            started: 0,
            finished: 0,
            clip_failed: false,
            phase: Phase::Pending,
            cleaned: false,
        }
    }

    /// The pipeline after the caller has asked what to do next, and the
    /// answer.
    pub open spec fn next(self) -> (PipelineView, Action) {
        match self.phase {
            Phase::Pending | Phase::PerClipEncoding => {
                if self.started < self.total && self.running() < self.limit {
                    (
                        PipelineView {
                            started: self.started + 1,
                            phase: Phase::PerClipEncoding,
                            ..self
                        },
                        Action::StartClip(self.started as usize),
                    )
                } else if self.finished < self.total {
                    (PipelineView { phase: Phase::PerClipEncoding, ..self }, Action::Wait)
                } else if self.clip_failed {
                    (PipelineView { phase: Phase::Failed, cleaned: true, ..self }, Action::CleanUp)
                } else {
                    (PipelineView { phase: Phase::Concatenating, ..self }, Action::StartConcat)
                }
            },
            Phase::Concatenating => (self, Action::Wait),
            Phase::Done => if self.cleaned {
                (self, Action::Finish(true))
            } else {
                (PipelineView { cleaned: true, ..self }, Action::CleanUp)
            },
            Phase::Failed => if self.cleaned {
                (self, Action::Finish(false))
            } else {
                (PipelineView { cleaned: true, ..self }, Action::CleanUp)
            },
        }
    }

    /// Whether a process that encodes a clip is running.
    pub open spec fn awaits_clip(self) -> bool {
        self.phase == Phase::PerClipEncoding && self.finished < self.started
    }

    /// The pipeline after the process of a clip has exited. A process that
    /// could not be started counts as one that failed.
    pub open spec fn clip_exited(self, success: bool) -> PipelineView {
        if self.awaits_clip() {
            PipelineView {
                finished: self.finished + 1,
                clip_failed: self.clip_failed || !success,
                ..self
            }
        } else {
            self
        }
    }

    /// The pipeline after the process that joins the clips has exited. A
    /// process that could not be started counts as one that failed.
    pub open spec fn concat_exited(self, success: bool) -> PipelineView {
        if self.phase == Phase::Concatenating {
            PipelineView {
                phase: if success {
                    Phase::Done
                } else {
                    Phase::Failed
                },
                ..self
            }
        } else {
            self
        }
    }
}

/// The order of work in one composition.
#[derive(Debug)]
pub struct Pipeline {
    limit: usize,
    total: usize,
    started: usize,
    finished: usize,
    clip_failed: bool,
    phase: Phase,
    cleaned: bool,
}

impl View for Pipeline {
    type V = PipelineView;

    closed spec fn view(&self) -> PipelineView {
        PipelineView {
            limit: self.limit as nat,
            total: self.total as nat,
            started: self.started as nat,
            finished: self.finished as nat,
            clip_failed: self.clip_failed,
            phase: self.phase,
            cleaned: self.cleaned,
        }
    }
}

impl Pipeline {
    #[verifier::type_invariant]
    spec fn inv(self) -> bool {
        self@.wf()
    }

    /// The pipeline of a composition of `total` clips, of whose encoders at
    /// most `limit` may run at a time.
    pub fn new(total: usize, limit: usize) -> (pipeline: Pipeline)
        ensures
            pipeline@ == PipelineView::initial(total as nat, limit as nat),
            pipeline@.wf(),
    {
        Pipeline {
            limit,
            total,
            started: 0,
            finished: 0,
            clip_failed: false,
            phase: Phase::Pending,
            cleaned: false,
        }
    }

    /// How far the composition has come.
    pub fn phase(&self) -> (phase: Phase)
        ensures
            phase == self@.phase,
    {
        self.phase
    }

    /// How many encoder processes are running: never more than the limit.
    pub fn running(&self) -> (count: usize)
        ensures
            count == self@.running(),
            count <= self@.limit,
            self@.wf(),
    {
        proof {
            use_type_invariant(self);
        }
        self.started - self.finished
    }

    /// Decides what the caller does next.
    pub fn next_action(&mut self) -> (action: Action)
        ensures
            old(self)@.wf(),
            final(self)@.wf(),
            final(self)@ == old(self)@.next().0,
            action == old(self)@.next().1,
    {
        proof {
            use_type_invariant(&*self);
        }
        match self.phase {
            Phase::Pending | Phase::PerClipEncoding => {
                if self.started < self.total && self.started - self.finished < self.limit {
                    let index = self.started;
                    *self = Pipeline {
                        limit: self.limit,
                        total: self.total,
                        started: self.started + 1,
                        finished: self.finished,
                        clip_failed: self.clip_failed,
                        phase: Phase::PerClipEncoding,
                        cleaned: self.cleaned,
                    };
                    Action::StartClip(index)
                } else if self.finished < self.total {
                    *self = Pipeline {
                        limit: self.limit,
                        total: self.total,
                        started: self.started,
                        finished: self.finished,
                        clip_failed: self.clip_failed,
                        phase: Phase::PerClipEncoding,
                        cleaned: self.cleaned,
                    };
                    Action::Wait
                } else if self.clip_failed {
                    *self = Pipeline {
                        limit: self.limit,
                        total: self.total,
                        started: self.started,
                        finished: self.finished,
                        clip_failed: self.clip_failed,
                        phase: Phase::Failed,
                        cleaned: true,
                    };
                    Action::CleanUp
                } else {
                    *self = Pipeline {
                        limit: self.limit,
                        total: self.total,
                        started: self.started,
                        finished: self.finished,
                        clip_failed: self.clip_failed,
                        phase: Phase::Concatenating,
                        cleaned: self.cleaned,
                    };
                    Action::StartConcat
                }
            },
            Phase::Concatenating => Action::Wait,
            Phase::Done => {
                if self.cleaned {
                    Action::Finish(true)
                } else {
                    self.cleaned = true;
                    Action::CleanUp
                }
            },
            Phase::Failed => {
                if self.cleaned {
                    Action::Finish(false)
                } else {
                    self.cleaned = true;
                    Action::CleanUp
                }
            },
        }
    }

    /// Takes note that the process of a clip has exited, with `success`
    /// where it encoded the clip. Answers whether such a process was
    /// running; where none was, nothing changes.
    pub fn clip_exited(&mut self, success: bool) -> (taken: bool)
        ensures
            final(self)@.wf(),
            taken == old(self)@.awaits_clip(),
            final(self)@ == old(self)@.clip_exited(success),
    {
        proof {
            use_type_invariant(&*self);
        }
        let awaited = match self.phase {
            Phase::PerClipEncoding => self.finished < self.started,
            _ => false,
        };
        if awaited {
            *self = Pipeline {
                limit: self.limit,
                total: self.total,
                started: self.started,
                finished: self.finished + 1,
                clip_failed: self.clip_failed || !success,
                phase: self.phase,
                cleaned: self.cleaned,
            };
        }
        awaited
    }

    /// Takes note that the process that joins the clips has exited, with
    /// `success` where it wrote the output. Answers whether that process was
    /// running; where it was not, nothing changes.
    pub fn concat_exited(&mut self, success: bool) -> (taken: bool)
        ensures
            final(self)@.wf(),
            taken == (old(self)@.phase == Phase::Concatenating),
            final(self)@ == old(self)@.concat_exited(success),
    {
        proof {
            use_type_invariant(&*self);
        }
        match self.phase {
            Phase::Concatenating => {
                *self = Pipeline {
                    limit: self.limit,
                    total: self.total,
                    started: self.started,
                    finished: self.finished,
                    clip_failed: self.clip_failed,
                    phase: if success {
                        Phase::Done
                    } else {
                        Phase::Failed
                    },
                    cleaned: self.cleaned,
                };
                true
            },
            _ => false,
        }
    }
}

/// Which stage of a composition failed.
#[derive(Clone, Copy, Debug, PartialEq, Eq, Structural)]
pub enum CookError {
    /// The process of a clip ended with an error or could not be started.
    Encode,
    /// The process that joins the clips ended with an error or could not be
    /// started.
    Concat,
}

impl PipelineView {
    /// Why the composition failed, where it did.
    pub open spec fn failure(self) -> Option<CookError> {
        if self.phase != Phase::Failed {
            None
        } else if self.clip_failed {
            Some(CookError::Encode)
        } else {
            Some(CookError::Concat)
        }
    }
}

impl Pipeline {
    /// Why the composition failed, where it did: in the encoding of a clip,
    /// or in the joining of the clips.
    pub fn failure(&self) -> (cause: Option<CookError>)
        ensures
            cause == self@.failure(),
    {
        match self.phase {
            Phase::Failed => if self.clip_failed {
                Some(CookError::Encode)
            } else {
                Some(CookError::Concat)
            },
            _ => None,
        }
    }
}

impl CookError {
    /// What the error says.
    pub fn message(&self) -> (text: String)
        ensures
            text@ == (match self {
                CookError::Encode => "a clip could not be encoded"@,
                CookError::Concat => "the clips could not be joined"@,
            }),
    {
        match self {
            CookError::Encode => crate::text::owned("a clip could not be encoded"),
            CookError::Concat => crate::text::owned("the clips could not be joined"),
        }
    }
}

/// What can happen to a pipeline.
pub enum Event {
    /// The caller asks what to do next.
    Ask,
    /// The process of a clip has exited, with `true` where it encoded the
    /// clip.
    ClipExited(bool),
    /// The process that joins the clips has exited, with `true` where it
    /// wrote the output.
    ConcatExited(bool),
}

impl PipelineView {
    /// The pipeline after `event`.
    pub open spec fn after(self, event: Event) -> PipelineView {
        match event {
            Event::Ask => self.next().0,
            Event::ClipExited(success) => self.clip_exited(success),
            Event::ConcatExited(success) => self.concat_exited(success),
        }
    }

    /// The pipeline after all of `events`, in order.
    pub open spec fn after_all(self, events: Seq<Event>) -> PipelineView
        decreases events.len(),
    {
        if events.len() == 0 {
            self
        } else {
            self.after_all(events.drop_last()).after(events.last())
        }
    }
}

/// Whatever happens to a pipeline, what holds of it at every moment goes on
/// holding.
pub proof fn lemma_event_keeps_wf(pipeline: PipelineView, event: Event)
    requires
        pipeline.wf(),
    ensures
        pipeline.after(event).wf(),
{
}

/// With a limit of K, at most K encoder processes are running at any moment
/// of a composition, however many clips it has and whatever becomes of their
/// processes.
pub proof fn lemma_bounded_concurrency(total: nat, limit: nat, events: Seq<Event>)
    ensures
        PipelineView::initial(total, limit).after_all(events).wf(),
        PipelineView::initial(total, limit).after_all(events).running() <= limit,
        PipelineView::initial(total, limit).after_all(events).limit == limit,
    decreases events.len(),
{
    if events.len() > 0 {
        lemma_bounded_concurrency(total, limit, events.drop_last());
        lemma_event_keeps_wf(
            PipelineView::initial(total, limit).after_all(events.drop_last()),
            events.last(),
        );
    }
}

/// A clip is started only while fewer processes run than the limit allows,
/// and the clips are started in order.
pub proof fn lemma_start_respects_limit(pipeline: PipelineView)
    requires
        pipeline.wf(),
        pipeline.next().1 is StartClip,
    ensures
        pipeline.running() < pipeline.limit,
        pipeline.next().1 == Action::StartClip(pipeline.started as usize),
        pipeline.next().0.running() == pipeline.running() + 1,
{
}

/// A clip that fails holds up no other clip: while clips are left to start
/// or to wait for, the answer is the same whether a clip was encoded or
/// not.
pub proof fn lemma_failure_holds_up_no_clip(pipeline: PipelineView)
    requires
        pipeline.wf(),
        pipeline.clip_exited(true).finished < pipeline.total,
    ensures
        pipeline.clip_exited(false).next().1 == pipeline.clip_exited(true).next().1,
        pipeline.clip_exited(false).running() == pipeline.clip_exited(true).running(),
{
}

/// The clips are joined only when the process of every clip has exited and
/// none of them has failed.
pub proof fn lemma_concat_waits_for_all(pipeline: PipelineView)
    requires
        pipeline.wf(),
        pipeline.next().1 == Action::StartConcat,
    ensures
        pipeline.finished == pipeline.total,
        pipeline.running() == 0,
        !pipeline.clip_failed,
{
}

/// Once the process of a clip has failed, the clips are never joined: no
/// later answer is to start the concat stage, and the composition cannot end
/// well.
pub proof fn lemma_failed_clip_stops_concat(pipeline: PipelineView, events: Seq<Event>)
    requires
        pipeline.wf(),
        pipeline.clip_failed,
    ensures
        pipeline.after_all(events).wf(),
        pipeline.after_all(events).clip_failed,
        pipeline.after_all(events).next().1 != Action::StartConcat,
        pipeline.after_all(events).next().1 != Action::Finish(true),
        pipeline.after_all(events).phase != Phase::Concatenating,
        pipeline.after_all(events).phase != Phase::Done,
    decreases events.len(),
{
    if events.len() > 0 {
        lemma_failed_clip_stops_concat(pipeline, events.drop_last());
        lemma_event_keeps_wf(pipeline.after_all(events.drop_last()), events.last());
    }
}

/// A composition reports how it ended only after its working directory was
/// removed, and reports success only where the clips were joined.
pub proof fn lemma_finish_follows_cleanup(pipeline: PipelineView)
    requires
        pipeline.wf(),
        pipeline.next().1 is Finish,
    ensures
        pipeline.cleaned,
        pipeline.next().1 == Action::Finish(pipeline.phase == Phase::Done),
{
}

/// Whether the progress of a process is still passed on to the caller.
#[derive(Clone, Copy, Debug, PartialEq, Eq, Structural)]
pub struct Forwarder {
    /// Whether the caller was still listening when the last line was sent.
    pub listening: bool,
}

impl Forwarder {
    /// A forwarder whose caller listens.
    pub fn new() -> (forwarder: Forwarder)
        ensures
            forwarder.listening,
    {
        Forwarder { listening: true }
    }

    /// Takes note of how sending a line went. Once a line could not be
    /// delivered the caller has gone, and no later line is passed on; the
    /// process itself goes on to its end.
    pub fn sent(&mut self, delivered: bool)
        ensures
            final(self).listening == (old(self).listening && delivered),
    {
        self.listening = self.listening && delivered;
    }
}

} // verus!
