//! The batch orchestrator: a state machine that takes the results of the
//! outside work as events and answers each with the notifications to send and
//! the next command to perform.
//!
//! A driver creates a [`BatchRun`], starts it, and then repeats: send the
//! notifications of the step, perform its command, hand the outcome back as
//! an event. The run ends with the command [`Command::Stop`].
//!
//! The problems of a batch are worked strictly in order. For each one the
//! run tells the listener, has the problem generated with the settings in
//! force at its position, makes sure that the voice model is loaded, has the
//! batch directory created, has the announcement, the problem statement and
//! the answer rendered, in that order, converts the three clips into the
//! drill, has it written, and then has the cancellation flag read. A raised
//! flag ends the batch there, with the file just written kept; any failure
//! ends it at once, with the files written before kept.

pub mod events;
pub mod laws;
pub mod machine;
pub mod run;

pub use events::{
    BatchError, BatchState, Command, CommandView, Event, EventView, Problem, ProblemScripts, Step,
    StepView,
};
pub use machine::{RunView, StageView};
pub use run::BatchRun;
