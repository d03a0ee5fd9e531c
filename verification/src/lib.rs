//! Batch generation of spoken arithmetic drills: the verified core.
//!
//! For each problem of a batch three rendered speech clips (announcement,
//! problem statement, answer) are joined, with silence between and after
//! them, into one waveform that is stored under a name derived from the
//! configuration. This crate holds the decisions of that pipeline; a driver
//! performs the outside work (speech engine, problem generator,
//! notifications, files).
//!
//! - [`config`]: the request, and the rule that derives the subtraction
//!   setting of each problem.
//! - [`naming`]: the names of the batch directory and of its files.
//! - [`wave`]: clips, and the decoding of rendered bytes.
//! - [`assembler`]: joining clips and silences into one waveform.
//! - [`drill`]: the layout of one drill.
//! - [`adapter`]: what is asked of the speech engine, and the guard that has
//!   the voice model loaded once.
//! - [`notice`]: the notifications sent to the listener.
//! - [`batch`]: the orchestrator.
//! - [`text`]: decimal notation.

pub mod adapter;
pub mod assembler;
pub mod batch;
pub mod config;
pub mod drill;
pub mod naming;
pub mod notice;
pub mod text;
pub mod wave;
