//! The run itself: the executable state machine.

use crate::adapter::{LoadStep, SynthesisAdapter};
use crate::batch::events::{BatchError, BatchState, Command, CommandView, Event, EventView,
    Problem, Step, StepView};
use crate::batch::machine::{RunView, StageView, idle_run_of, quiet_step};
use crate::config::{GenConfig, GenType, ProblemConfig, Scale, effective_config};
use crate::drill::{ConvertError, SegmentKind, convert_audio};
use crate::naming::{get_dir_name, get_file_name, get_timestamp};
use crate::notice::{Channel, Notice, NoticeView, complete_notice, generating_notice,
    loading_notice, notice_views};
use crate::wave::{Segment, clip_result};
use vstd::prelude::*;

verus! {

/// What a run is waiting for, with what it holds meanwhile.
#[derive(Debug)]
enum Stage {
    Idle,
    AwaitProblem,
    AwaitModelStatus(Problem),
    AwaitModelLoad(Problem),
    AwaitDirectory(Problem),
    AwaitAnnouncement(Problem),
    AwaitStatement(Problem, Vec<u8>),
    AwaitAnswer(Problem, Vec<u8>, Vec<u8>),
    AwaitWrite,
    AwaitCancel,
    Completed,
    Cancelled,
    Failed(BatchError),
}

impl View for Stage {
    type V = StageView;

    closed spec fn view(&self) -> StageView {
        match *self {
            Stage::Idle => StageView::Idle,
            Stage::AwaitProblem => StageView::AwaitProblem,
            Stage::AwaitModelStatus(problem) => StageView::AwaitModelStatus(problem@),
            Stage::AwaitModelLoad(problem) => StageView::AwaitModelLoad(problem@),
            Stage::AwaitDirectory(problem) => StageView::AwaitDirectory(problem@),
            Stage::AwaitAnnouncement(problem) => StageView::AwaitAnnouncement(problem@),
            Stage::AwaitStatement(problem, announcement) => StageView::AwaitStatement(
                problem@,
                announcement@,
            ),
            Stage::AwaitAnswer(problem, announcement, statement) => StageView::AwaitAnswer(
                problem@,
                announcement@,
                statement@,
            ),
            Stage::AwaitWrite => StageView::AwaitWrite,
            Stage::AwaitCancel => StageView::AwaitCancel,
            Stage::Completed => StageView::Completed,
            Stage::Cancelled => StageView::Cancelled,
            Stage::Failed(error) => StageView::Failed(error),
        }
    }
}

/// What a run holds in every stage.
#[derive(Debug)]
struct Context {
    config: ProblemConfig,
    count: u32,
    policy: GenType,
    speed: Scale,
    root: String,
    dir: String,
    adapter: SynthesisAdapter,
    index: u32,
    files_written: u32,
}

/// The model of a run, from its two parts.
spec fn run_of(context: Context, stage: StageView) -> RunView {
    RunView {
        config: context.config,
        count: context.count,
        policy: context.policy,
        speed: context.speed,
        root: context.root@,
        dir: context.dir@,
        adapter: context.adapter@,
        index: context.index,
        files_written: context.files_written,
        stage,
    }
}

/// One batch, from the request to its end.
#[derive(Debug)]
pub struct BatchRun {
    context: Context,
    stage: Stage,
}

impl View for BatchRun {
    type V = RunView;

    closed spec fn view(&self) -> RunView {
        run_of(self.context, self.stage@)
    }
}

/// A step without notifications.
fn quiet(command: Command) -> (step: Step)
    ensures
        step@ == quiet_step(command@),
{
    let step = Step { notices: Vec::new(), command };
    assert(notice_views(step.notices@) =~= Seq::<NoticeView>::empty());
    step
}

/// A step with one notification.
fn announce(notice: Notice, command: Command) -> (step: Step)
    ensures
        step@ == (StepView { notices: seq![notice@], command: command@ }),
{
    let mut notices: Vec<Notice> = Vec::new();
    notices.push(notice);
    assert(notice_views(notices@) =~= seq![notice@]);
    Step { notices, command }
}

/// A step with two notifications.
fn announce_both(first: Notice, second: Notice, command: Command) -> (step: Step)
    ensures
        step@ == (StepView { notices: seq![first@, second@], command: command@ }),
{
    let mut notices: Vec<Notice> = Vec::new();
    notices.push(first);
    notices.push(second);
    assert(notice_views(notices@) =~= seq![first@, second@]);
    Step { notices, command }
}

/// The run fails.
fn fail(context: Context, error: BatchError) -> (r: (BatchRun, Step))
    requires
        context.files_written <= context.count,
    ensures
        r.0@ == run_of(context, StageView::Idle).failed_of(error).0,
        r.1@ == run_of(context, StageView::Idle).failed_of(error).1,
{
    (BatchRun { context, stage: Stage::Failed(error) }, quiet(Command::Stop))
}

/// The run stays as it is: it has ended.
fn rest(context: Context, stage: Stage) -> (r: (BatchRun, Step))
    requires
        run_of(context, stage@).wf(),
    ensures
        r.0@ == run_of(context, stage@),
        r.1@ == quiet_step(CommandView::Stop),
{
    (BatchRun { context, stage }, quiet(Command::Stop))
}

/// The problem at position `index` starts.
fn start_problem(context: Context, index: u32) -> (r: (BatchRun, Step))
    requires
        index < context.count,
        context.files_written == index,
    ensures
        r.0@ == run_of(context, StageView::Idle).problem_started_of(index).0,
        r.1@ == run_of(context, StageView::Idle).problem_started_of(index).1,
{
    let notice = generating_notice(index, context.count);
    let command = Command::Generate(effective_config(context.policy, context.config, index));
    let context = Context { index, ..context };
    (BatchRun { context, stage: Stage::AwaitProblem }, announce(notice, command))
}

/// The batch starts.
fn start(context: Context, stamp: String) -> (r: (BatchRun, Step))
    requires
        context.index == 0,
        context.files_written == 0,
    ensures
        r.0@ == run_of(context, StageView::Idle).started_of(stamp@).0,
        r.1@ == run_of(context, StageView::Idle).started_of(stamp@).1,
{
    let dir = get_dir_name(&context.config, stamp.as_str());
    let context = Context { dir, ..context };
    if context.count == 0 {
        let notice = complete_notice(Channel::Finish);
        (BatchRun { context, stage: Stage::Completed }, announce(notice, Command::Stop))
    } else {
        start_problem(context, 0)
    }
}

/// The model is loaded: the batch directory comes next.
fn model_ready(context: Context, problem: Problem, notices: Vec<Notice>) -> (r: (BatchRun, Step))
    requires
        context.index < context.count,
        context.files_written == context.index,
    ensures
        r.0@ == run_of(context, StageView::Idle).model_ready_of(
            problem@,
            notice_views(notices@),
        ).0,
        r.1@ == run_of(context, StageView::Idle).model_ready_of(
            problem@,
            notice_views(notices@),
        ).1,
{
    let command = Command::CreateDirectory {
        root: context.root.clone(),
        dir: context.dir.clone(),
    };
    (BatchRun { context, stage: Stage::AwaitDirectory(problem) }, Step { notices, command })
}

/// The request for one clip of the problem in work.
fn clip_request(context: &Context, kind: SegmentKind, text: &String) -> (step: Step)
    ensures
        step@ == run_of(*context, StageView::Idle).clip_request_of(kind, text@),
{
    quiet(Command::Synthesize(context.adapter.synthesize(kind, text.clone(), context.speed)))
}

/// The drill of the problem in work is converted.
fn conclude(context: Context, problem: Problem, drill: Result<Segment, ConvertError>) -> (r: (
    BatchRun,
    Step,
))
    requires
        context.index < context.count,
        context.files_written == context.index,
    ensures
        r.0@ == run_of(context, StageView::Idle).concluded_of(problem@, clip_result(drill)).0,
        r.1@ == run_of(context, StageView::Idle).concluded_of(problem@, clip_result(drill)).1,
{
    match drill {
        Ok(audio) => {
            let command = Command::WriteFile {
                root: context.root.clone(),
                dir: context.dir.clone(),
                file: get_file_name(problem.config.subtractions, context.index + 1),
                audio,
            };
            (BatchRun { context, stage: Stage::AwaitWrite }, quiet(command))
        },
        Err(ConvertError::Segment(_, _)) => fail(context, BatchError::Engine),
        Err(ConvertError::FormatMismatch) => fail(context, BatchError::FormatMismatch),
        Err(ConvertError::TooLarge) => fail(context, BatchError::Io),
    }
}

/// The cancellation flag was read.
fn polled(context: Context, raised: bool) -> (r: (BatchRun, Step))
    requires
        context.index < context.count,
        context.files_written == context.index + 1,
    ensures
        r.0@ == run_of(context, StageView::Idle).polled_of(raised).0,
        r.1@ == run_of(context, StageView::Idle).polled_of(raised).1,
{
    if raised {
        (BatchRun { context, stage: Stage::Cancelled }, quiet(Command::Stop))
    } else if context.index + 1 < context.count {
        let next = context.index + 1;
        start_problem(context, next)
    } else {
        let progress = complete_notice(Channel::Progress);
        let finish = complete_notice(Channel::Finish);
        (
            BatchRun { context, stage: Stage::Completed },
            announce_both(progress, finish, Command::Stop),
        )
    }
}

/// The answer of a run that has not started.
fn on_idle(context: Context, event: Event) -> (r: (BatchRun, Step))
    requires
        run_of(context, StageView::Idle).wf(),
    ensures
        r.0@ == run_of(context, StageView::Idle).on_idle_of(event@).0,
        r.1@ == run_of(context, StageView::Idle).on_idle_of(event@).1,
{
    match event {
        Event::Start(stamp) => start(context, stamp),
        _ => fail(context, BatchError::Unexpected),
    }
}

/// The answer of a run that waits for a problem.
fn on_problem(context: Context, event: Event) -> (r: (BatchRun, Step))
    requires
        run_of(context, StageView::AwaitProblem).wf(),
    ensures
        r.0@ == run_of(context, StageView::AwaitProblem).on_problem_of(event@).0,
        r.1@ == run_of(context, StageView::AwaitProblem).on_problem_of(event@).1,
{
    match event {
        Event::Generated(problem) => match context.adapter.ensure_model_loaded() {
            LoadStep::Query => {
                let command = Command::QueryModel(context.adapter.speaker_id());
                (BatchRun { context, stage: Stage::AwaitModelStatus(problem) }, quiet(command))
            },
            _ => {
                let notices: Vec<Notice> = Vec::new();
                assert(notice_views(notices@) =~= Seq::<NoticeView>::empty());
                model_ready(context, problem, notices)
            },
        },
        Event::GeneratorFailed => fail(context, BatchError::Generator),
        _ => fail(context, BatchError::Unexpected),
    }
}

/// The answer of a run that waits for the engine's word on the model.
fn on_model_status(context: Context, problem: Problem, event: Event) -> (r: (BatchRun, Step))
    requires
        run_of(context, StageView::AwaitModelStatus(problem@)).wf(),
    ensures
        r.0@ == run_of(context, StageView::AwaitModelStatus(problem@)).on_model_status_of(
            problem@,
            event@,
        ).0,
        r.1@ == run_of(context, StageView::AwaitModelStatus(problem@)).on_model_status_of(
            problem@,
            event@,
        ).1,
{
    match event {
        Event::ModelStatus(engine_has_model) => {
            let mut context = context;
            let speaker_id = context.adapter.speaker_id();
            match context.adapter.engine_reported(engine_has_model) {
                LoadStep::Load => (
                    BatchRun { context, stage: Stage::AwaitModelLoad(problem) },
                    announce(loading_notice(), Command::LoadModel(speaker_id)),
                ),
                _ => {
                    let notices: Vec<Notice> = Vec::new();
                    assert(notice_views(notices@) =~= Seq::<NoticeView>::empty());
                    model_ready(context, problem, notices)
                },
            }
        },
        Event::EngineFailed => fail(context, BatchError::Engine),
        _ => fail(context, BatchError::Unexpected),
    }
}

/// The answer of a run that waits for the model to be loaded.
fn on_model_load(context: Context, problem: Problem, event: Event) -> (r: (BatchRun, Step))
    requires
        run_of(context, StageView::AwaitModelLoad(problem@)).wf(),
    ensures
        r.0@ == run_of(context, StageView::AwaitModelLoad(problem@)).on_model_load_of(
            problem@,
            event@,
        ).0,
        r.1@ == run_of(context, StageView::AwaitModelLoad(problem@)).on_model_load_of(
            problem@,
            event@,
        ).1,
{
    match event {
        Event::ModelLoaded => {
            let mut context = context;
            context.adapter.model_loaded();
            let mut notices: Vec<Notice> = Vec::new();
            let notice = generating_notice(context.index, context.count);
            notices.push(notice);
            assert(notice_views(notices@) =~= seq![notice@]);
            model_ready(context, problem, notices)
        },
        Event::EngineFailed => fail(context, BatchError::Engine),
        _ => fail(context, BatchError::Unexpected),
    }
}

/// The answer of a run that waits for the batch directory.
fn on_directory(context: Context, problem: Problem, event: Event) -> (r: (BatchRun, Step))
    requires
        run_of(context, StageView::AwaitDirectory(problem@)).wf(),
    ensures
        r.0@ == run_of(context, StageView::AwaitDirectory(problem@)).on_directory_of(
            problem@,
            event@,
        ).0,
        r.1@ == run_of(context, StageView::AwaitDirectory(problem@)).on_directory_of(
            problem@,
            event@,
        ).1,
{
    match event {
        Event::DirectoryReady => {
            let step = clip_request(&context, SegmentKind::Announcement, &problem.announcement);
            (BatchRun { context, stage: Stage::AwaitAnnouncement(problem) }, step)
        },
        Event::IoFailed => fail(context, BatchError::Io),
        _ => fail(context, BatchError::Unexpected),
    }
}

/// The answer of a run that waits for the announcement.
fn on_announcement(context: Context, problem: Problem, event: Event) -> (r: (BatchRun, Step))
    requires
        run_of(context, StageView::AwaitAnnouncement(problem@)).wf(),
    ensures
        r.0@ == run_of(context, StageView::AwaitAnnouncement(problem@)).on_announcement_of(
            problem@,
            event@,
        ).0,
        r.1@ == run_of(context, StageView::AwaitAnnouncement(problem@)).on_announcement_of(
            problem@,
            event@,
        ).1,
{
    match event {
        Event::Rendered(bytes) => {
            let step = clip_request(&context, SegmentKind::Problem, &problem.problem);
            (BatchRun { context, stage: Stage::AwaitStatement(problem, bytes) }, step)
        },
        Event::EngineFailed => fail(context, BatchError::Engine),
        _ => fail(context, BatchError::Unexpected),
    }
}

/// The answer of a run that waits for the problem statement.
fn on_statement(context: Context, problem: Problem, announcement: Vec<u8>, event: Event) -> (r: (
    BatchRun,
    Step,
))
    requires
        run_of(context, StageView::AwaitStatement(problem@, announcement@)).wf(),
    ensures
        r.0@ == run_of(
            context,
            StageView::AwaitStatement(problem@, announcement@),
        ).on_statement_of(problem@, announcement@, event@).0,
        r.1@ == run_of(
            context,
            StageView::AwaitStatement(problem@, announcement@),
        ).on_statement_of(problem@, announcement@, event@).1,
{
    match event {
        Event::Rendered(bytes) => {
            let step = clip_request(&context, SegmentKind::Answer, &problem.answer);
            (BatchRun { context, stage: Stage::AwaitAnswer(problem, announcement, bytes) }, step)
        },
        Event::EngineFailed => fail(context, BatchError::Engine),
        _ => fail(context, BatchError::Unexpected),
    }
}

/// The answer of a run that waits for the answer.
fn on_answer(
    context: Context,
    problem: Problem,
    announcement: Vec<u8>,
    statement: Vec<u8>,
    event: Event,
) -> (r: (BatchRun, Step))
    requires
        run_of(context, StageView::AwaitAnswer(problem@, announcement@, statement@)).wf(),
    ensures
        r.0@ == run_of(
            context,
            StageView::AwaitAnswer(problem@, announcement@, statement@),
        ).on_answer_of(problem@, announcement@, statement@, event@).0,
        r.1@ == run_of(
            context,
            StageView::AwaitAnswer(problem@, announcement@, statement@),
        ).on_answer_of(problem@, announcement@, statement@, event@).1,
{
    match event {
        Event::Rendered(bytes) => {
            let drill = convert_audio(&announcement, &statement, &bytes);
            conclude(context, problem, drill)
        },
        Event::EngineFailed => fail(context, BatchError::Engine),
        _ => fail(context, BatchError::Unexpected),
    }
}

/// The answer of a run that waits for the file.
fn on_write(context: Context, event: Event) -> (r: (BatchRun, Step))
    requires
        run_of(context, StageView::AwaitWrite).wf(),
    ensures
        r.0@ == run_of(context, StageView::AwaitWrite).on_write_of(event@).0,
        r.1@ == run_of(context, StageView::AwaitWrite).on_write_of(event@).1,
{
    match event {
        Event::Written => {
            let files_written = context.files_written + 1;
            let context = Context { files_written, ..context };
            (BatchRun { context, stage: Stage::AwaitCancel }, quiet(Command::PollCancel))
        },
        Event::IoFailed => fail(context, BatchError::Io),
        _ => fail(context, BatchError::Unexpected),
    }
}

/// The answer of a run that waits for the cancellation flag.
fn on_cancel(context: Context, event: Event) -> (r: (BatchRun, Step))
    requires
        run_of(context, StageView::AwaitCancel).wf(),
    ensures
        r.0@ == run_of(context, StageView::AwaitCancel).on_cancel_of(event@).0,
        r.1@ == run_of(context, StageView::AwaitCancel).on_cancel_of(event@).1,
{
    match event {
        Event::CancelFlag(raised) => polled(context, raised),
        _ => fail(context, BatchError::Unexpected),
    }
}

impl BatchRun {
    #[verifier::type_invariant]
    spec fn inv(self) -> bool {
        self@.wf()
    }

    /// A run for the request made of `problem_config` and `gen_config`, not
    /// yet started, that renders through `adapter`.
    pub fn new(problem_config: ProblemConfig, gen_config: GenConfig, adapter: SynthesisAdapter)
        -> (run: BatchRun)
        ensures
            run@ == idle_run_of(
                problem_config,
                gen_config.count_problems,
                GenType::of_code(gen_config.gen_type),
                gen_config.speed_scale,
                gen_config.output_path@,
                adapter@,
            ),
            run@.wf(),
    {
        let policy = gen_config.policy();
        let context = Context {
            config: problem_config,
            count: gen_config.count_problems,
            policy,
            speed: gen_config.speed_scale,
            root: gen_config.output_path,
            dir: String::new(),
            adapter,
            index: 0,
            files_written: 0,
        };
        BatchRun { context, stage: Stage::Idle }
    }

    /// The state of the batch.
    pub fn state(&self) -> (state: BatchState)
        ensures
            state == self@.state(),
    {
        match &self.stage {
            Stage::Idle => BatchState::Idle,
            Stage::Completed => BatchState::Completed,
            Stage::Cancelled => BatchState::Cancelled,
            Stage::Failed(error) => BatchState::Failed(*error),
            _ => BatchState::Running,
        }
    }

    /// Whether the batch has ended.
    pub fn is_finished(&self) -> (finished: bool)
        ensures
            finished == (self@.state() != BatchState::Idle && self@.state()
                != BatchState::Running),
    {
        match &self.stage {
            Stage::Completed => true,
            Stage::Cancelled => true,
            Stage::Failed(_) => true,
            _ => false,
        }
    }

    /// The number of problems of the batch.
    pub fn count(&self) -> (count: u32)
        ensures
            count == self@.count,
    {
        self.context.count
    }

    /// The position, counted from zero, of the problem in work.
    pub fn index(&self) -> (index: u32)
        ensures
            index == self@.index,
    {
        self.context.index
    }

    /// The number of files written so far; never more than the number of
    /// problems.
    pub fn files_written(&self) -> (files: u32)
        ensures
            files == self@.files_written,
            files <= self@.count,
            self@.wf(),
    {
        proof {
            use_type_invariant(self);
        }
        self.context.files_written
    }

    /// The name of the batch directory; empty before the start.
    pub fn dir_name(&self) -> (dir: &String)
        ensures
            dir@ == self@.dir,
    {
        &self.context.dir
    }

    /// Ends the run and hands back its adapter, which still knows whether the
    /// model is loaded.
    pub fn into_adapter(self) -> (adapter: SynthesisAdapter)
        ensures
            adapter@ == self@.adapter,
    {
        self.context.adapter
    }

    /// Takes an event and answers with the next step.
    pub fn advance(self, event: Event) -> (r: (BatchRun, Step))
        ensures
            r.0@ == self@.advance_of(event@).0,
            r.1@ == self@.advance_of(event@).1,
            r.0@.wf(),
    {
        proof {
            use_type_invariant(&self);
        }
        let BatchRun { context, stage } = self;
        let r = match stage {
            Stage::Idle => on_idle(context, event),
            Stage::AwaitProblem => on_problem(context, event),
            Stage::AwaitModelStatus(problem) => on_model_status(context, problem, event),
            Stage::AwaitModelLoad(problem) => on_model_load(context, problem, event),
            Stage::AwaitDirectory(problem) => on_directory(context, problem, event),
            Stage::AwaitAnnouncement(problem) => on_announcement(context, problem, event),
            Stage::AwaitStatement(problem, announcement) => on_statement(
                context,
                problem,
                announcement,
                event,
            ),
            Stage::AwaitAnswer(problem, announcement, statement) => on_answer(
                context,
                problem,
                announcement,
                statement,
                event,
            ),
            Stage::AwaitWrite => on_write(context, event),
            Stage::AwaitCancel => on_cancel(context, event),
            Stage::Completed => rest(context, Stage::Completed),
            Stage::Cancelled => rest(context, Stage::Cancelled),
            Stage::Failed(error) => rest(context, Stage::Failed(error)),
        };
        proof {
            use_type_invariant(&r.0);
        }
        r
    }

    /// Answers a drill that the caller has converted: as [`BatchRun::advance`]
    /// does when the last clip of a problem comes, with `drill` in place of
    /// the conversion of the three clips.
    pub fn conclude(self, drill: Result<Segment, ConvertError>) -> (r: (BatchRun, Step))
        ensures
            r.0@ == self@.concluding_of(clip_result(drill)).0,
            r.1@ == self@.concluding_of(clip_result(drill)).1,
            r.0@.wf(),
    {
        proof {
            use_type_invariant(&self);
        }
        let BatchRun { context, stage } = self;
        let r = match stage {
            Stage::AwaitAnswer(problem, _, _) => conclude(context, problem, drill),
            Stage::Completed => rest(context, Stage::Completed),
            Stage::Cancelled => rest(context, Stage::Cancelled),
            Stage::Failed(error) => rest(context, Stage::Failed(error)),
            _ => fail(context, BatchError::Unexpected),
        };
        proof {
            use_type_invariant(&r.0);
        }
        r
    }

    /// Starts the batch now: reads the clock for the time stamp and takes the
    /// event [`Event::Start`] with it.
    pub fn begin(self) -> (r: (BatchRun, Step))
        ensures
            exists|stamp: Seq<char>|
                r.0@ == (#[trigger] self@.advance_of(EventView::Start(stamp))).0 && r.1@
                    == self@.advance_of(EventView::Start(stamp)).1,
            r.0@.wf(),
    {
        let stamp = get_timestamp();
        self.advance(Event::Start(stamp))
    }
}

} // verus!
