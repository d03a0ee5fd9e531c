//! The mathematical model of a run and its transition function.

use crate::adapter::{AdapterState, LoadStep, request_of};
use crate::batch::events::{BatchError, BatchState, CommandView, EventView, ProblemScripts,
    StepView};
use crate::config::{GenType, ProblemConfig, Scale, effective_config_of};
use crate::drill::{ConvertError, SegmentKind, conversion_of};
use crate::naming::{dir_name_of, file_name_of};
use crate::notice::{Channel, NoticeView, complete_notice_of, generating_notice_of,
    loading_notice_of};
use crate::wave::{Clip, wav_payload};
use vstd::prelude::*;

verus! {

/// The mathematical model of what a run is waiting for.
#[verifier::ext_equal]
pub enum StageView {
    Idle,
    AwaitProblem,
    AwaitModelStatus(ProblemScripts),
    AwaitModelLoad(ProblemScripts),
    AwaitDirectory(ProblemScripts),
    AwaitAnnouncement(ProblemScripts),
    AwaitStatement(ProblemScripts, Seq<u8>),
    AwaitAnswer(ProblemScripts, Seq<u8>, Seq<u8>),
    AwaitWrite,
    AwaitCancel,
    Completed,
    Cancelled,
    Failed(BatchError),
}

/// The mathematical model of a run.
#[verifier::ext_equal]
pub struct RunView {
    /// The configured generator settings.
    pub config: ProblemConfig,
    /// The number of problems of the batch.
    pub count: u32,
    /// The generation policy.
    pub policy: GenType,
    /// The requested speed of the problem statement.
    pub speed: Scale,
    /// The directory under which the batch directory stands.
    pub root: Seq<char>,
    /// The name of the batch directory; empty until the batch starts.
    pub dir: Seq<char>,
    /// The synthesis adapter.
    pub adapter: AdapterState,
    /// The position, counted from zero, of the problem in work.
    pub index: u32,
    /// The number of files written.
    pub files_written: u32,
    /// What the run is waiting for.
    pub stage: StageView,
}

/// A step without notifications.
pub open spec fn quiet_step(command: CommandView) -> StepView {
    StepView { notices: Seq::empty(), command }
}

impl RunView {
    /// The state of the batch.
    pub open spec fn state(self) -> BatchState {
        match self.stage {
            StageView::Idle => BatchState::Idle,
            StageView::Completed => BatchState::Completed,
            StageView::Cancelled => BatchState::Cancelled,
            StageView::Failed(error) => BatchState::Failed(error),
            _ => BatchState::Running,
        }
    }

    /// The counters agree with the stage: while a problem is in work, as many
    /// files are written as problems came before it; once its file is
    /// written, one more; and a completed batch has written them all.
    pub open spec fn wf(self) -> bool {
        match self.stage {
            StageView::Idle => self.index == 0 && self.files_written == 0,
            StageView::AwaitCancel => self.index < self.count && self.files_written == self.index
                + 1,
            StageView::Cancelled => self.index < self.count && self.files_written == self.index
                + 1,
            StageView::Completed => self.files_written == self.count,
            StageView::Failed(_) => self.files_written <= self.count,
            _ => self.index < self.count && self.files_written == self.index,
        }
    }

    /// The run in the given stage.
    pub open spec fn at(self, stage: StageView) -> RunView {
        RunView { stage, ..self }
    }

    /// The failure of the run: no notification, nothing more to do.
    pub open spec fn failed_of(self, error: BatchError) -> (RunView, StepView) {
        (self.at(StageView::Failed(error)), quiet_step(CommandView::Stop))
    }

    /// The start of the problem at position `index`: the progress
    /// notification, and the request for a problem with the settings in force
    /// at that position.
    pub open spec fn problem_started_of(self, index: u32) -> (RunView, StepView) {
        (
            RunView { index, stage: StageView::AwaitProblem, ..self },
            StepView {
                notices: seq![generating_notice_of(index, self.count)],
                command: CommandView::Generate(
                    effective_config_of(self.policy, self.config, index),
                ),
            },
        )
    }

    /// The model is loaded: on to the batch directory.
    pub open spec fn model_ready_of(self, problem: ProblemScripts, notices: Seq<NoticeView>) -> (
        RunView,
        StepView,
    ) {
        (
            self.at(StageView::AwaitDirectory(problem)),
            StepView {
                notices,
                command: CommandView::CreateDirectory { root: self.root, dir: self.dir },
            },
        )
    }

    /// The request for one clip of the problem in work.
    pub open spec fn clip_request_of(self, kind: SegmentKind, text: Seq<char>) -> StepView {
        quiet_step(
            CommandView::Synthesize(request_of(self.adapter.speaker_id, kind, text, self.speed)),
        )
    }

    /// The three clips are rendered and converted: the drill is to be
    /// written under the name of the problem's number and type, or the batch
    /// fails. A clip that is no clip is the engine's failure; a drill too
    /// large to be written is a failure to write.
    pub open spec fn concluded_of(self, problem: ProblemScripts, drill: Result<Clip, ConvertError>)
        -> (RunView, StepView) {
        match drill {
            Ok(audio) => (
                self.at(StageView::AwaitWrite),
                quiet_step(
                    CommandView::WriteFile {
                        root: self.root,
                        dir: self.dir,
                        file: file_name_of(problem.config.subtractions, (self.index + 1) as u32),
                        audio,
                    },
                ),
            ),
            Err(ConvertError::Segment(_, _)) => self.failed_of(BatchError::Engine),
            Err(ConvertError::FormatMismatch) => self.failed_of(BatchError::FormatMismatch),
            Err(ConvertError::TooLarge) => self.failed_of(BatchError::Io),
        }
    }

    /// The end of a batch that produced all its files.
    pub open spec fn completed_of(self) -> (RunView, StepView) {
        (
            self.at(StageView::Completed),
            StepView {
                notices: seq![
                    complete_notice_of(Channel::Progress),
                    complete_notice_of(Channel::Finish),
                ],
                command: CommandView::Stop,
            },
        )
    }

    /// The start of the batch: it is named after the time stamp; a batch of
    /// no problems is complete at once, with the one notification that it
    /// has finished.
    pub open spec fn started_of(self, stamp: Seq<char>) -> (RunView, StepView) {
        let named = RunView { dir: dir_name_of(self.config, stamp), ..self };
        if self.count == 0 {
            (
                named.at(StageView::Completed),
                StepView {
                    notices: seq![complete_notice_of(Channel::Finish)],
                    command: CommandView::Stop,
                },
            )
        } else {
            named.problem_started_of(0)
        }
    }

    /// The cancellation flag was read after the file of a problem was
    /// written: a raised flag stops the batch, otherwise the next problem
    /// starts, or the batch is complete.
    pub open spec fn polled_of(self, raised: bool) -> (RunView, StepView) {
        if raised {
            (self.at(StageView::Cancelled), quiet_step(CommandView::Stop))
        } else if self.index + 1 < self.count {
            self.problem_started_of((self.index + 1) as u32)
        } else {
            self.completed_of()
        }
    }

    /// The answer to a drill that was converted elsewhere: as if the last clip
    /// of the problem in work had come and the conversion had given `drill`.
    pub open spec fn concluding_of(self, drill: Result<Clip, ConvertError>) -> (RunView, StepView) {
        match self.stage {
            StageView::AwaitAnswer(problem, _, _) => self.concluded_of(problem, drill),
            StageView::Completed => (self, quiet_step(CommandView::Stop)),
            StageView::Cancelled => (self, quiet_step(CommandView::Stop)),
            StageView::Failed(_) => (self, quiet_step(CommandView::Stop)),
            _ => self.failed_of(BatchError::Unexpected),
        }
    }

    /// The answer of a run that has not started.
    pub open spec fn on_idle_of(self, event: EventView) -> (RunView, StepView) {
        match event {
            EventView::Start(stamp) => self.started_of(stamp),
            _ => self.failed_of(BatchError::Unexpected),
        }
    }

    /// The answer of a run that waits for a problem: with the problem in
    /// hand the model is made sure of, and the engine is asked unless the
    /// adapter knows the model to be loaded.
    pub open spec fn on_problem_of(self, event: EventView) -> (RunView, StepView) {
        match event {
            EventView::Generated(problem) => match self.adapter.first_step() {
                LoadStep::Query => (
                    self.at(StageView::AwaitModelStatus(problem)),
                    quiet_step(CommandView::QueryModel(self.adapter.speaker_id)),
                ),
                _ => self.model_ready_of(problem, Seq::empty()),
            },
            EventView::GeneratorFailed => self.failed_of(BatchError::Generator),
            _ => self.failed_of(BatchError::Unexpected),
        }
    }

    /// The answer of a run that waits for the engine to say whether it holds
    /// the model: a missing model is loaded, and the listener is told so.
    pub open spec fn on_model_status_of(self, problem: ProblemScripts, event: EventView) -> (
        RunView,
        StepView,
    ) {
        match event {
            EventView::ModelStatus(engine_has_model) => {
                let (adapter, next) = self.adapter.after_report(engine_has_model);
                let informed = RunView { adapter, ..self };
                match next {
                    LoadStep::Load => (
                        informed.at(StageView::AwaitModelLoad(problem)),
                        StepView {
                            notices: seq![loading_notice_of()],
                            command: CommandView::LoadModel(self.adapter.speaker_id),
                        },
                    ),
                    _ => informed.model_ready_of(problem, Seq::empty()),
                }
            },
            EventView::EngineFailed => self.failed_of(BatchError::Engine),
            _ => self.failed_of(BatchError::Unexpected),
        }
    }

    /// The answer of a run that waits for the model to be loaded: once it
    /// is, the listener is told that the problem is in work again.
    pub open spec fn on_model_load_of(self, problem: ProblemScripts, event: EventView) -> (
        RunView,
        StepView,
    ) {
        match event {
            EventView::ModelLoaded => (RunView {
                adapter: self.adapter.after_load(),
                ..self
            }).model_ready_of(problem, seq![generating_notice_of(self.index, self.count)]),
            EventView::EngineFailed => self.failed_of(BatchError::Engine),
            _ => self.failed_of(BatchError::Unexpected),
        }
    }

    /// The answer of a run that waits for the batch directory: the
    /// announcement is rendered first.
    pub open spec fn on_directory_of(self, problem: ProblemScripts, event: EventView) -> (
        RunView,
        StepView,
    ) {
        match event {
            EventView::DirectoryReady => (
                self.at(StageView::AwaitAnnouncement(problem)),
                self.clip_request_of(SegmentKind::Announcement, problem.announcement),
            ),
            EventView::IoFailed => self.failed_of(BatchError::Io),
            _ => self.failed_of(BatchError::Unexpected),
        }
    }

    /// The answer of a run that waits for the announcement: the problem
    /// statement is rendered next.
    pub open spec fn on_announcement_of(self, problem: ProblemScripts, event: EventView) -> (
        RunView,
        StepView,
    ) {
        match event {
            EventView::Rendered(bytes) => (
                self.at(StageView::AwaitStatement(problem, bytes)),
                self.clip_request_of(SegmentKind::Problem, problem.problem),
            ),
            EventView::EngineFailed => self.failed_of(BatchError::Engine),
            _ => self.failed_of(BatchError::Unexpected),
        }
    }

    /// The answer of a run that waits for the problem statement: the answer
    /// is rendered last.
    pub open spec fn on_statement_of(
        self,
        problem: ProblemScripts,
        announcement: Seq<u8>,
        event: EventView,
    ) -> (RunView, StepView) {
        match event {
            EventView::Rendered(bytes) => (
                self.at(StageView::AwaitAnswer(problem, announcement, bytes)),
                self.clip_request_of(SegmentKind::Answer, problem.answer),
            ),
            EventView::EngineFailed => self.failed_of(BatchError::Engine),
            _ => self.failed_of(BatchError::Unexpected),
        }
    }

    /// The answer of a run that waits for the answer: the three clips are
    /// converted into the drill.
    pub open spec fn on_answer_of(
        self,
        problem: ProblemScripts,
        announcement: Seq<u8>,
        statement: Seq<u8>,
        event: EventView,
    ) -> (RunView, StepView) {
        match event {
            EventView::Rendered(bytes) => self.concluded_of(
                problem,
                conversion_of(
                    wav_payload(announcement),
                    wav_payload(statement),
                    wav_payload(bytes),
                ),
            ),
            EventView::EngineFailed => self.failed_of(BatchError::Engine),
            _ => self.failed_of(BatchError::Unexpected),
        }
    }

    /// The answer of a run that waits for the file: once it is written it
    /// counts, and the cancellation flag is read.
    pub open spec fn on_write_of(self, event: EventView) -> (RunView, StepView) {
        match event {
            EventView::Written => (
                RunView {
                    files_written: (self.files_written + 1) as u32,
                    stage: StageView::AwaitCancel,
                    ..self
                },
                quiet_step(CommandView::PollCancel),
            ),
            EventView::IoFailed => self.failed_of(BatchError::Io),
            _ => self.failed_of(BatchError::Unexpected),
        }
    }

    /// The answer of a run that waits for the cancellation flag.
    pub open spec fn on_cancel_of(self, event: EventView) -> (RunView, StepView) {
        match event {
            EventView::CancelFlag(raised) => self.polled_of(raised),
            _ => self.failed_of(BatchError::Unexpected),
        }
    }

    /// The transition function of the run: the run after the event and the
    /// step that answers it. A run that has ended stays as it is; an event
    /// that does not answer the pending command fails the batch.
    pub open spec fn advance_of(self, event: EventView) -> (RunView, StepView) {
        match self.stage {
            StageView::Idle => self.on_idle_of(event),
            StageView::AwaitProblem => self.on_problem_of(event),
            StageView::AwaitModelStatus(problem) => self.on_model_status_of(problem, event),
            StageView::AwaitModelLoad(problem) => self.on_model_load_of(problem, event),
            StageView::AwaitDirectory(problem) => self.on_directory_of(problem, event),
            StageView::AwaitAnnouncement(problem) => self.on_announcement_of(problem, event),
            StageView::AwaitStatement(problem, announcement) => self.on_statement_of(
                problem,
                announcement,
                event,
            ),
            StageView::AwaitAnswer(problem, announcement, statement) => self.on_answer_of(
                problem,
                announcement,
                statement,
                event,
            ),
            StageView::AwaitWrite => self.on_write_of(event),
            StageView::AwaitCancel => self.on_cancel_of(event),
            _ => (self, quiet_step(CommandView::Stop)),
        }
    }
}

/// A run that has not started: no directory name, no problem in work, no
/// file written.
pub open spec fn idle_run_of(
    config: ProblemConfig,
    count: u32,
    policy: GenType,
    speed: Scale,
    root: Seq<char>,
    adapter: AdapterState,
) -> RunView {
    RunView {
        config,
        count,
        policy,
        speed,
        root,
        dir: Seq::empty(),
        adapter,
        index: 0,
        files_written: 0,
        stage: StageView::Idle,
    }
}

impl RunView {
    /// The run after a sequence of events, taken in order.
    pub open spec fn run_through(self, events: Seq<EventView>) -> RunView
        decreases events.len(),
    {
        if events.len() == 0 {
            self
        } else {
            self.run_through(events.drop_last()).advance_of(events.last()).0
        }
    }

    /// Whether the batch has ended.
    pub open spec fn ended(self) -> bool {
        self.state() != BatchState::Idle && self.state() != BatchState::Running
    }

    /// How many commands of the problem in work are still to be answered,
    /// the pending one included.
    pub open spec fn stage_rank(self) -> nat {
        match self.stage {
            StageView::AwaitProblem => 9,
            StageView::AwaitModelStatus(_) => 8,
            StageView::AwaitModelLoad(_) => 7,
            StageView::AwaitDirectory(_) => 6,
            StageView::AwaitAnnouncement(_) => 5,
            StageView::AwaitStatement(_, _) => 4,
            StageView::AwaitAnswer(_, _, _) => 3,
            StageView::AwaitWrite => 2,
            StageView::AwaitCancel => 1,
            _ => 0,
        }
    }

    /// A bound on the number of events that the run can still take before it
    /// has ended: nine for each problem still to come, and those left of the
    /// problem in work.
    pub open spec fn events_left(self) -> nat {
        if self.ended() {
            0
        } else if self.stage == StageView::Idle {
            9 * self.count as nat + 1
        } else {
            (9 * (self.count - self.index - 1) + self.stage_rank()) as nat
        }
    }
}

} // verus!
