//! The synthesis adapter: what is asked of the speech engine for each clip,
//! and the guard that has the voice model loaded once.

use crate::config::Scale;
use crate::drill::SegmentKind;
use vstd::prelude::*;

verus! {

/// The voice of all clips.
pub const SPEAKER_ID: u32 = 13;

/// The amount by which the pitch of every clip is raised above the engine's
/// default: the bit pattern of the number one tenth.
pub const PITCH_OFFSET_BITS: u64 = 0x3FB9_9999_9999_999A;

/// The pitch offset of every clip.
pub open spec fn pitch_offset() -> Scale {
    Scale { bits: PITCH_OFFSET_BITS }
}

/// The speed that overrides the engine's default: the requested speed for
/// the problem statement, none for the announcement and the answer.
pub open spec fn speed_override_of(kind: SegmentKind, speed: Scale) -> Option<Scale> {
    match kind {
        SegmentKind::Problem => Some(speed),
        SegmentKind::Announcement => None,
        SegmentKind::Answer => None,
    }
}

/// The mathematical model of a synthesis request.
#[verifier::ext_equal]
pub struct SynthesisPlan {
    pub text: Seq<char>,
    pub speaker_id: u32,
    pub pitch_offset: Scale,
    pub speed_override: Option<Scale>,
}

/// What the engine is asked to render: a text, the voice, the amount to add
/// to the default pitch, and the speed that replaces the default, if any.
#[derive(Debug)]
pub struct SynthesisRequest {
    pub text: String,
    pub speaker_id: u32,
    pub pitch_offset: Scale,
    pub speed_override: Option<Scale>,
}

impl View for SynthesisRequest {
    type V = SynthesisPlan;

    open spec fn view(&self) -> SynthesisPlan {
        SynthesisPlan {
            text: self.text@,
            speaker_id: self.speaker_id,
            pitch_offset: self.pitch_offset,
            speed_override: self.speed_override,
        }
    }
}

/// The request for one clip of a drill.
pub open spec fn request_of(speaker_id: u32, kind: SegmentKind, text: Seq<char>, speed: Scale)
    -> SynthesisPlan {
    SynthesisPlan {
        text,
        speaker_id,
        pitch_offset: pitch_offset(),
        speed_override: speed_override_of(kind, speed),
    }
}

/// What has to happen next so that the voice model is loaded.
#[derive(Clone, Copy, Debug, PartialEq, Eq, Structural)]
pub enum LoadStep {
    /// Nothing: the model is known to be loaded.
    Ready,
    /// Ask the engine whether it holds the model.
    Query,
    /// Have the engine load the model.
    Load,
}

/// The mathematical model of the adapter: its voice, and whether it knows the
/// voice model to be loaded.
pub struct AdapterState {
    pub speaker_id: u32,
    pub loaded: bool,
}

impl AdapterState {
    /// The first step of making sure that the model is loaded.
    pub open spec fn first_step(self) -> LoadStep {
        if self.loaded {
            LoadStep::Ready
        } else {
            LoadStep::Query
        }
    }

    /// The adapter and the next step once the engine has said whether it
    /// holds the model.
    pub open spec fn after_report(self, engine_has_model: bool) -> (AdapterState, LoadStep) {
        if self.loaded || engine_has_model {
            (AdapterState { loaded: true, ..self }, LoadStep::Ready)
        } else {
            (self, LoadStep::Load)
        }
    }

    /// The adapter once the engine has loaded the model.
    pub open spec fn after_load(self) -> AdapterState {
        AdapterState { loaded: true, ..self }
    }

    /// A whole, successful run of making sure that the model is loaded, with
    /// an engine that answers `engine_has_model` if asked: the adapter
    /// afterwards and the number of loads performed.
    pub open spec fn ensured(self, engine_has_model: bool) -> (AdapterState, nat) {
        match self.first_step() {
            LoadStep::Query => {
                let (reported, step) = self.after_report(engine_has_model);
                match step {
                    LoadStep::Load => (reported.after_load(), 1),
                    _ => (reported, 0),
                }
            },
            _ => (self, 0),
        }
    }
}

/// The handle on the speech engine's voice model. It remembers that the model
/// was loaded, so that the load is asked for once.
#[derive(Debug)]
pub struct SynthesisAdapter {
    speaker_id: u32,
    loaded: bool,
}

impl View for SynthesisAdapter {
    type V = AdapterState;

    closed spec fn view(&self) -> AdapterState {
        AdapterState { speaker_id: self.speaker_id, loaded: self.loaded }
    }
}

impl SynthesisAdapter {
    /// An adapter for the voice `speaker_id`, whose model is not known to be
    /// loaded.
    pub fn new(speaker_id: u32) -> (adapter: SynthesisAdapter)
        ensures
            adapter@ == (AdapterState { speaker_id, loaded: false }),
    {
        SynthesisAdapter { speaker_id, loaded: false }
    }

    /// The voice of the adapter.
    pub fn speaker_id(&self) -> (id: u32)
        ensures
            id == self@.speaker_id,
    {
        self.speaker_id
    }

    /// Whether the model is known to be loaded.
    pub fn is_loaded(&self) -> (loaded: bool)
        ensures
            loaded == self@.loaded,
    {
        self.loaded
    }

    /// Starts making sure that the model is loaded: says whether the engine
    /// has to be asked.
    pub fn ensure_model_loaded(&self) -> (step: LoadStep)
        ensures
            step == self@.first_step(),
    {
        if self.loaded {
            LoadStep::Ready
        } else {
            LoadStep::Query
        }
    }

    /// Takes the engine's answer to the question whether it holds the model,
    /// and says whether the model has to be loaded.
    pub fn engine_reported(&mut self, engine_has_model: bool) -> (step: LoadStep)
        ensures
            (final(self)@, step) == old(self)@.after_report(engine_has_model),
    {
        if self.loaded || engine_has_model {
            self.loaded = true;
            LoadStep::Ready
        } else {
            LoadStep::Load
        }
    }

    /// Records that the engine has loaded the model.
    pub fn model_loaded(&mut self)
        ensures
            final(self)@ == old(self)@.after_load(),
    {
        self.loaded = true;
    }

    /// The request for one clip: the pitch is raised for every clip, the
    /// speed is set for the problem statement only.
    pub fn synthesize(&self, kind: SegmentKind, text: String, speed: Scale) -> (request:
        SynthesisRequest)
        ensures
            request@ == request_of(self@.speaker_id, kind, text@, speed),
    {
        let speed_override = match kind {
            SegmentKind::Problem => Some(speed),
            SegmentKind::Announcement => None,
            SegmentKind::Answer => None,
        };
        SynthesisRequest {
            text,
            speaker_id: self.speaker_id,
            pitch_offset: Scale { bits: PITCH_OFFSET_BITS },
            speed_override,
        }
    }
}

/// Making sure twice that the model is loaded loads it at most once, and
/// exactly once where neither the adapter nor the engine had it: after the
/// first run the adapter knows the model to be loaded, and the second run
/// does nothing, whatever the engine would answer.
pub proof fn law_ensure_is_idempotent(adapter: AdapterState, first_answer: bool, second_answer: bool)
    ensures
        ({
            let (once, first_loads) = adapter.ensured(first_answer);
            let (twice, second_loads) = once.ensured(second_answer);
            &&& once.loaded
            &&& once.speaker_id == adapter.speaker_id
            &&& twice == once
            &&& once.first_step() == LoadStep::Ready
            &&& second_loads == 0
            &&& first_loads + second_loads <= 1
            &&& (first_loads + second_loads == 1 <==> !adapter.loaded && !first_answer)
        }),
{
}

/// The speed is overridden for the problem statement and for no other clip,
/// and the pitch offset is the same for all.
pub proof fn law_speed_only_for_problem(speaker_id: u32, kind: SegmentKind, text: Seq<char>, speed: Scale)
    ensures
        request_of(speaker_id, kind, text, speed).speed_override == (if kind
            == SegmentKind::Problem {
            Some(speed)
        } else {
            None
        }),
        request_of(speaker_id, kind, text, speed).pitch_offset == pitch_offset(),
{
}

} // verus!
