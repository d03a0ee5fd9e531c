//! What passes between a run and its driver: events, commands and steps.

use crate::adapter::{SynthesisPlan, SynthesisRequest};
use crate::config::ProblemConfig;
use crate::notice::{Notice, NoticeView, notice_views};
use crate::wave::{Clip, Segment};
use vstd::prelude::*;

verus! {

/// Why a batch failed.
#[derive(Clone, Copy, Debug, PartialEq, Eq, Structural)]
pub enum BatchError {
    /// The problem generator refused the configuration.
    Generator,
    /// The engine failed to load the model or to render a clip, or rendered
    /// what is no clip.
    Engine,
    /// The three clips of a problem do not share one format.
    FormatMismatch,
    /// The directory or a file could not be written.
    Io,
    /// The driver answered a command with an event of another kind.
    Unexpected,
}

/// The state of a batch.
#[derive(Clone, Copy, Debug, PartialEq, Eq, Structural)]
pub enum BatchState {
    /// Not started.
    Idle,
    /// Producing files.
    Running,
    /// All files were produced.
    Completed,
    /// Stopped between two problems because cancellation was asked for.
    Cancelled,
    /// Aborted by an error.
    Failed(BatchError),
}

/// The mathematical model of a generated problem.
#[verifier::ext_equal]
pub struct ProblemScripts {
    pub config: ProblemConfig,
    pub announcement: Seq<char>,
    pub problem: Seq<char>,
    pub answer: Seq<char>,
}

/// A generated problem: the settings it was made with and the three texts to
/// be spoken.
#[derive(Debug)]
pub struct Problem {
    pub config: ProblemConfig,
    pub announcement: String,
    pub problem: String,
    pub answer: String,
}

impl View for Problem {
    type V = ProblemScripts;

    open spec fn view(&self) -> ProblemScripts {
        ProblemScripts {
            config: self.config,
            announcement: self.announcement@,
            problem: self.problem@,
            answer: self.answer@,
        }
    }
}

/// The mathematical model of an event.
#[verifier::ext_equal]
pub enum EventView {
    Start(Seq<char>),
    Generated(ProblemScripts),
    GeneratorFailed,
    ModelStatus(bool),
    ModelLoaded,
    EngineFailed,
    DirectoryReady,
    Rendered(Seq<u8>),
    Written,
    IoFailed,
    CancelFlag(bool),
}

/// What the driver reports to the run.
#[derive(Debug)]
pub enum Event {
    /// The batch is to start; the text is the time stamp of the start.
    Start(String),
    /// The generator made the problem that was asked for.
    Generated(Problem),
    /// The generator refused to make a problem.
    GeneratorFailed,
    /// The engine said whether it holds the voice model.
    ModelStatus(bool),
    /// The engine loaded the voice model.
    ModelLoaded,
    /// The engine failed at what it was asked.
    EngineFailed,
    /// The batch directory exists.
    DirectoryReady,
    /// The engine rendered the clip that was asked for; these are its bytes.
    Rendered(Vec<u8>),
    /// The file was written and is complete.
    Written,
    /// The directory could not be created or the file not be written.
    IoFailed,
    /// The cancellation flag was read; `true` asks the batch to stop.
    CancelFlag(bool),
}

impl View for Event {
    type V = EventView;

    open spec fn view(&self) -> EventView {
        match *self {
            Event::Start(stamp) => EventView::Start(stamp@),
            Event::Generated(problem) => EventView::Generated(problem@),
            Event::GeneratorFailed => EventView::GeneratorFailed,
            Event::ModelStatus(loaded) => EventView::ModelStatus(loaded),
            Event::ModelLoaded => EventView::ModelLoaded,
            Event::EngineFailed => EventView::EngineFailed,
            Event::DirectoryReady => EventView::DirectoryReady,
            Event::Rendered(bytes) => EventView::Rendered(bytes@),
            Event::Written => EventView::Written,
            Event::IoFailed => EventView::IoFailed,
            Event::CancelFlag(raised) => EventView::CancelFlag(raised),
        }
    }
}

/// The mathematical model of a command.
#[verifier::ext_equal]
pub enum CommandView {
    Generate(ProblemConfig),
    QueryModel(u32),
    LoadModel(u32),
    CreateDirectory { root: Seq<char>, dir: Seq<char> },
    Synthesize(SynthesisPlan),
    WriteFile { root: Seq<char>, dir: Seq<char>, file: Seq<char>, audio: Clip },
    PollCancel,
    Stop,
}

/// What the driver is to do next. Each command is answered by one event.
#[derive(Debug)]
pub enum Command {
    /// Have a problem generated with these settings; answered by
    /// [`Event::Generated`] or [`Event::GeneratorFailed`].
    Generate(ProblemConfig),
    /// Ask the engine whether it holds the model of this voice; answered by
    /// [`Event::ModelStatus`].
    QueryModel(u32),
    /// Have the engine load the model of this voice; answered by
    /// [`Event::ModelLoaded`] or [`Event::EngineFailed`].
    LoadModel(u32),
    /// Create the directory `dir` under `root`, with all missing directories
    /// above it, unless it exists; answered by [`Event::DirectoryReady`] or
    /// [`Event::IoFailed`].
    CreateDirectory { root: String, dir: String },
    /// Have the engine render a clip; answered by [`Event::Rendered`] or
    /// [`Event::EngineFailed`].
    Synthesize(SynthesisRequest),
    /// Store the waveform as the WAVE file `file` in the directory `dir`
    /// under `root`, so that the file is visible only when it is complete;
    /// answered by [`Event::Written`] or [`Event::IoFailed`].
    WriteFile { root: String, dir: String, file: String, audio: Segment },
    /// Read the cancellation flag; answered by [`Event::CancelFlag`].
    PollCancel,
    /// Nothing: the batch has ended.
    Stop,
}

impl View for Command {
    type V = CommandView;

    open spec fn view(&self) -> CommandView {
        match *self {
            Command::Generate(config) => CommandView::Generate(config),
            Command::QueryModel(speaker_id) => CommandView::QueryModel(speaker_id),
            Command::LoadModel(speaker_id) => CommandView::LoadModel(speaker_id),
            Command::CreateDirectory { root, dir } => CommandView::CreateDirectory {
                root: root@,
                dir: dir@,
            },
            Command::Synthesize(request) => CommandView::Synthesize(request@),
            Command::WriteFile { root, dir, file, audio } => CommandView::WriteFile {
                root: root@,
                dir: dir@,
                file: file@,
                audio: audio@,
            },
            Command::PollCancel => CommandView::PollCancel,
            Command::Stop => CommandView::Stop,
        }
    }
}

/// The mathematical model of a step.
#[verifier::ext_equal]
pub struct StepView {
    pub notices: Seq<NoticeView>,
    pub command: CommandView,
}

/// The answer of the run to an event: the notifications to send, in order,
/// and then the command to perform.
#[derive(Debug)]
pub struct Step {
    pub notices: Vec<Notice>,
    pub command: Command,
}

impl View for Step {
    type V = StepView;

    open spec fn view(&self) -> StepView {
        StepView { notices: notice_views(self.notices@), command: self.command@ }
    }
}

} // verus!
