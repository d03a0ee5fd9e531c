//! The waveform of one drill: announcement, problem statement and answer,
//! with the pauses between and after them.

use crate::assembler::{AssembleError, MAX_SAMPLES, Placed, PlacedClip, assemble, assembled_of,
    assembly_of, formats_agree, law_assembled_keeps_frames, lemma_body_step, placed, placed_clips,
    silence_of};
use crate::wave::{Clip, Segment, SegmentError, clip_result, decode_segment, decoding_of,
    wav_payload};
use vstd::prelude::*;

verus! {

/// The three clips of a drill.
#[derive(Clone, Copy, Debug, PartialEq, Eq, Structural)]
pub enum SegmentKind {
    /// Announces the problem.
    Announcement,
    /// Reads the problem out.
    Problem,
    /// Gives the answer.
    Answer,
}

/// Milliseconds of silence between the announcement and the problem.
pub const PROBLEM_LEAD_MILLIS: u32 = 500;

/// Milliseconds of silence between the problem and the answer.
pub const ANSWER_LEAD_MILLIS: u32 = 3000;

/// Milliseconds of silence after the answer.
pub const TAIL_MILLIS: u32 = 1000;

/// Why three rendered clips did not become a drill.
#[derive(Clone, Copy, Debug, PartialEq, Eq, Structural)]
pub enum ConvertError {
    /// One of the clips was not accepted; the first such clip is named.
    Segment(SegmentKind, SegmentError),
    /// The clips do not share one format.
    FormatMismatch,
    /// The drill would be longer than a waveform may be.
    TooLarge,
}

/// The problem and the answer, placed behind their pauses.
pub open spec fn drill_parts(problem: Clip, answer: Clip) -> Seq<PlacedClip> {
    seq![placed(PROBLEM_LEAD_MILLIS, problem), placed(ANSWER_LEAD_MILLIS, answer)]
}

/// The samples of a drill: announcement, half a second of silence, problem,
/// three seconds of silence, answer, one second of silence.
pub open spec fn drill_samples_of(announcement: Clip, problem: Clip, answer: Clip) -> Seq<i16> {
    assembled_of(announcement, drill_parts(problem, answer), TAIL_MILLIS)
}

/// What joining three clips gives.
pub open spec fn drill_of(announcement: Clip, problem: Clip, answer: Clip) -> Result<
    Clip,
    AssembleError,
> {
    assembly_of(announcement, drill_parts(problem, answer), TAIL_MILLIS)
}

/// What converting three rendered clips gives, from what `hound` reads from
/// each: the clips are decoded in the order announcement, problem, answer,
/// and then joined.
pub open spec fn conversion_of(
    announcement: Option<Clip>,
    problem: Option<Clip>,
    answer: Option<Clip>,
) -> Result<Clip, ConvertError> {
    match decoding_of(announcement) {
        Err(e) => Err(ConvertError::Segment(SegmentKind::Announcement, e)),
        Ok(a) => match decoding_of(problem) {
            Err(e) => Err(ConvertError::Segment(SegmentKind::Problem, e)),
            Ok(p) => match decoding_of(answer) {
                Err(e) => Err(ConvertError::Segment(SegmentKind::Answer, e)),
                Ok(c) => match drill_of(a, p, c) {
                    Err(AssembleError::FormatMismatch) => Err(ConvertError::FormatMismatch),
                    Err(AssembleError::TooLarge) => Err(ConvertError::TooLarge),
                    Ok(drill) => Ok(drill),
                },
            },
        },
    }
}

/// The drill has the announcement's format; its samples are those of the
/// three clips and the three silences, in order; and it is refused exactly
/// where the formats differ or the samples are too many.
pub proof fn law_drill_layout(announcement: Clip, problem: Clip, answer: Clip)
    ensures
        drill_samples_of(announcement, problem, answer) == announcement.samples
            + silence_of(announcement.format, PROBLEM_LEAD_MILLIS)
            + problem.samples + silence_of(
            announcement.format,
            ANSWER_LEAD_MILLIS,
        ) + answer.samples + silence_of(announcement.format, TAIL_MILLIS),
        formats_agree(announcement, drill_parts(problem, answer)) <==> (
        problem.format == announcement.format && answer.format == announcement.format),
        drill_of(announcement, problem, answer) matches Ok(drill) ==> drill.format
            == announcement.format && drill.samples == drill_samples_of(
            announcement,
            problem,
            answer,
        ) && drill.samples.len() <= MAX_SAMPLES,
        announcement.wf() && problem.wf() && answer.wf() ==> (drill_of(
            announcement,
            problem,
            answer,
        ) matches Ok(drill) ==> drill.wf()),
{
    let parts = drill_parts(problem, answer);
    assert(parts.take(0) =~= Seq::<PlacedClip>::empty());
    assert(parts.take(2) =~= parts);
    lemma_body_step(announcement, parts, 0);
    lemma_body_step(announcement, parts, 1);
    assert(drill_samples_of(announcement, problem, answer) =~= announcement.samples
        + silence_of(announcement.format, PROBLEM_LEAD_MILLIS) + problem.samples
        + silence_of(announcement.format, ANSWER_LEAD_MILLIS) + answer.samples
        + silence_of(announcement.format, TAIL_MILLIS));
    assert(parts[0].clip == problem);
    assert(parts[1].clip == answer);
    if announcement.wf() && problem.wf() && answer.wf() && drill_of(
        announcement,
        problem,
        answer,
    ).is_ok() {
        law_assembled_keeps_frames(announcement, parts, TAIL_MILLIS);
    }
}

/// Whatever the three rendered clips hold, a drill that comes out of the
/// conversion is well formed 16-bit PCM in the announcement's format, holds
/// the three clips and the three silences in order, and is not larger than a
/// waveform may be.
pub proof fn law_conversion_gives_a_drill(
    announcement: Option<Clip>,
    problem: Option<Clip>,
    answer: Option<Clip>,
)
    requires
        conversion_of(announcement, problem, answer).is_ok(),
    ensures
        ({
            let drill = conversion_of(announcement, problem, answer).unwrap();
            &&& announcement matches Some(a) && problem matches Some(p) && answer matches Some(c)
                && a.wf() && p.wf() && c.wf() && p.format == a.format && c.format == a.format
                && drill.format == a.format && drill.samples == drill_samples_of(a, p, c)
            &&& drill.wf()
            &&& drill.samples.len() <= MAX_SAMPLES
        }),
{
    let a = announcement.unwrap();
    let p = problem.unwrap();
    let c = answer.unwrap();
    law_drill_layout(a, p, c);
}

/// Joins the three clips of a drill.
pub fn join_drill(announcement: Segment, problem: Segment, answer: Segment) -> (r: Result<
    Segment,
    AssembleError,
>)
    ensures
        clip_result(r) == drill_of(announcement@, problem@, answer@),
{
    let mut rest: Vec<Placed> = Vec::new();
    rest.push(Placed { lead_millis: PROBLEM_LEAD_MILLIS, segment: problem });
    rest.push(Placed { lead_millis: ANSWER_LEAD_MILLIS, segment: answer });
    assert(placed_clips(rest@) =~= drill_parts(problem@, answer@));
    assemble(&announcement, &rest, TAIL_MILLIS)
}

/// Turns the three rendered clips of a problem into the waveform of its
/// drill.
pub fn convert_audio(announcement: &Vec<u8>, problem: &Vec<u8>, answer: &Vec<u8>) -> (r: Result<
    Segment,
    ConvertError,
>)
    ensures
        clip_result(r) == conversion_of(
            wav_payload(announcement@),
            wav_payload(problem@),
            wav_payload(answer@),
        ),
{
    let a = match decode_segment(announcement) {
        Ok(a) => a,
        Err(e) => {
            return Err(ConvertError::Segment(SegmentKind::Announcement, e));
        },
    };
    let p = match decode_segment(problem) {
        Ok(p) => p,
        Err(e) => {
            return Err(ConvertError::Segment(SegmentKind::Problem, e));
        },
    };
    let c = match decode_segment(answer) {
        Ok(c) => c,
        Err(e) => {
            return Err(ConvertError::Segment(SegmentKind::Answer, e));
        },
    };
    match join_drill(a, p, c) {
        Ok(drill) => Ok(drill),
        Err(AssembleError::FormatMismatch) => Err(ConvertError::FormatMismatch),
        Err(AssembleError::TooLarge) => Err(ConvertError::TooLarge),
    }
}

} // verus!
