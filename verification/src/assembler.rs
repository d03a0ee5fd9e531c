//! Joining clips, with silence between them, into one waveform.

use crate::wave::{Clip, Segment, WavFormat, clip_result};
use vstd::prelude::*;

verus! {

/// The largest number of 16-bit samples of an assembled waveform: with the
/// longest header (68 bytes) they still fit the 32-bit size field of a RIFF
/// container.
pub const MAX_SAMPLES: u32 = 2_147_483_613;

/// The number of frames of a silence of `millis` milliseconds at `rate`
/// frames per second: `rate * millis / 1000`, rounded to the nearest integer,
/// halves upwards.
pub open spec fn silence_frames_of(rate: u32, millis: u32) -> nat {
    ((rate as nat * millis as nat + 500) / 1000) as nat
}

/// The number of interleaved samples of a silence: its frames, once for each
/// channel.
pub open spec fn silence_len_of(format: WavFormat, millis: u32) -> nat {
    silence_frames_of(format.sample_rate, millis) * (format.channels as nat)
}

/// A silence: samples of value zero.
pub open spec fn silence_of(format: WavFormat, millis: u32) -> Seq<i16> {
    Seq::new(silence_len_of(format, millis), |i: int| 0i16)
}

/// The mathematical model of a placed clip.
#[verifier::ext_equal]
pub struct PlacedClip {
    pub lead_millis: u32,
    pub clip: Clip,
}

/// A clip and the length in milliseconds of the silence that precedes it.
#[derive(Debug)]
pub struct Placed {
    pub lead_millis: u32,
    pub segment: Segment,
}

impl View for Placed {
    type V = PlacedClip;

    open spec fn view(&self) -> PlacedClip {
        PlacedClip { lead_millis: self.lead_millis, clip: self.segment@ }
    }
}

/// The models of a list of placed clips.
pub open spec fn placed_clips(rest: Seq<Placed>) -> Seq<PlacedClip> {
    Seq::new(rest.len(), |i: int| rest[i]@)
}

/// The clips in order, each later one behind its leading silence. The first
/// clip's format decides how long a silence is.
pub open spec fn body_of(first: Clip, rest: Seq<PlacedClip>) -> Seq<i16>
    decreases rest.len(),
{
    if rest.len() == 0 {
        first.samples
    } else {
        body_of(first, rest.drop_last()) + silence_of(first.format, rest.last().lead_millis)
            + rest.last().clip.samples
    }
}

/// The assembled samples: the clips with their leading silences, then the
/// trailing silence.
pub open spec fn assembled_of(first: Clip, rest: Seq<PlacedClip>, tail_millis: u32) -> Seq<i16> {
    body_of(first, rest) + silence_of(first.format, tail_millis)
}

/// Every later clip has the format of the first.
pub open spec fn formats_agree(first: Clip, rest: Seq<PlacedClip>) -> bool {
    forall|i: int| 0 <= i < rest.len() ==> (#[trigger] rest[i]).clip.format == first.format
}

/// Why clips were not assembled.
#[derive(Clone, Copy, Debug, PartialEq, Eq, Structural)]
pub enum AssembleError {
    /// A clip's format differs from that of the first clip.
    FormatMismatch,
    /// The waveform would hold more than [`MAX_SAMPLES`] samples.
    TooLarge,
}

/// What assembling gives: a format mismatch comes first, then the size.
pub open spec fn assembly_of(first: Clip, rest: Seq<PlacedClip>, tail_millis: u32) -> Result<
    Clip,
    AssembleError,
> {
    if !formats_agree(first, rest) {
        Err(AssembleError::FormatMismatch)
    } else if assembled_of(first, rest, tail_millis).len() > MAX_SAMPLES {
        Err(AssembleError::TooLarge)
    } else {
        Ok(Clip { format: first.format, samples: assembled_of(first, rest, tail_millis) })
    }
}

/// The rounding of [`silence_frames_of`]: the result is the integer nearest
/// to `rate * millis / 1000`, and the larger of the two where both are
/// equally near; for whole seconds it is exact.
pub proof fn law_silence_is_rounded(rate: u32, millis: u32)
    ensures
        ({
            let n = silence_frames_of(rate, millis) as int;
            let exact = rate as int * millis as int;
            -500 < 1000 * n - exact <= 500
        }),
        millis % 1000 == 0 ==> silence_frames_of(rate, millis) == rate as int * (millis as int
            / 1000),
{
    let exact = rate as int * millis as int;
    let n = (exact + 500) / 1000;
    assert(0 <= exact) by (nonlinear_arith)
        requires
            exact == rate as int * millis as int,
    ;
    assert(1000 * n <= exact + 500 < 1000 * n + 1000);
    if millis % 1000 == 0 {
        let secs = millis as int / 1000;
        assert(exact == 1000 * (rate as int * secs)) by (nonlinear_arith)
            requires
                exact == rate as int * millis as int,
                millis as int == 1000 * secs,
        ;
    }
}

/// Adding one more clip to the list appends its silence and its samples.
pub proof fn lemma_body_step(first: Clip, rest: Seq<PlacedClip>, i: int)
    requires
        0 <= i < rest.len(),
    ensures
        body_of(first, rest.take(i + 1)) == body_of(first, rest.take(i)) + silence_of(
            first.format,
            rest[i].lead_millis,
        ) + rest[i].clip.samples,
{
    assert(rest.take(i + 1).drop_last() =~= rest.take(i));
    assert(rest.take(i + 1).last() == rest[i]);
}

/// The samples of a prefix of the list are no more than those of the whole.
pub proof fn lemma_body_len_monotone(first: Clip, rest: Seq<PlacedClip>, i: int)
    requires
        0 <= i <= rest.len(),
    ensures
        body_of(first, rest.take(i)).len() <= body_of(first, rest).len(),
    decreases rest.len() - i,
{
    if i == rest.len() {
        assert(rest.take(i) =~= rest);
    } else {
        lemma_body_step(first, rest, i);
        lemma_body_len_monotone(first, rest, i + 1);
    }
}

/// A multiple of `c` plus multiples of `c` divides as its parts do.
proof fn lemma_frames_add(la: nat, lb: nat, lc: nat, r1: nat, r2: nat, c: nat)
    requires
        c > 0,
        la % c == 0,
        lb % c == 0,
        lc % c == 0,
    ensures
        (la + r1 * c + lb + r2 * c + lc) % c == 0,
        (la + r1 * c + lb + r2 * c + lc) / c == la / c + r1 + lb / c + r2 + lc / c,
{
    let fa = la / c;
    let fb = lb / c;
    let fc = lc / c;
    assert(la == fa * c && lb == fb * c && lc == fc * c) by (nonlinear_arith)
        requires
            c > 0,
            la % c == 0,
            lb % c == 0,
            lc % c == 0,
            fa == la / c,
            fb == lb / c,
            fc == lc / c,
    ;
    let total = la + r1 * c + lb + r2 * c + lc;
    let f = fa + r1 + fb + r2 + fc;
    assert(total == f * c) by (nonlinear_arith)
        requires
            total == la + r1 * c + lb + r2 * c + lc,
            f == fa + r1 + fb + r2 + fc,
            la == fa * c,
            lb == fb * c,
            lc == fc * c,
    ;
    assert(total % c == 0 && total / c == f) by (nonlinear_arith)
        requires
            c > 0,
            total == f * c,
    ;
}

/// The placement of `clip` behind a silence of `lead_millis` milliseconds.
pub open spec fn placed(lead_millis: u32, clip: Clip) -> PlacedClip {
    PlacedClip { lead_millis, clip }
}

/// Three clips `a`, `b`, `c` with a silence of `s1` milliseconds between the
/// first two and one of `s2` milliseconds between the last two, and no
/// trailing silence, give the samples of `a`, the first silence, `b`, the
/// second silence and `c`, in that order and nothing else. So the waveform
/// holds exactly as many samples as the clips and the two silences together,
/// where a silence has `rate * s / 1000` frames, rounded, for each channel.
/// Counted in frames, for well-formed clips of one format, the waveform has
/// the frames of the clips and `rate * s / 1000`, rounded, for each silence.
pub proof fn law_three_clips_length(a: Clip, s1: u32, b: Clip, s2: u32, c: Clip)
    ensures
        ({
            let rest = seq![placed(s1, b), placed(s2, c)];
            let out = assembled_of(a, rest, 0);
            let r1 = silence_frames_of(a.format.sample_rate, s1);
            let r2 = silence_frames_of(a.format.sample_rate, s2);
            let ch = a.format.channels as nat;
            &&& out == a.samples + silence_of(a.format, s1) + b.samples + silence_of(a.format, s2)
                + c.samples
            &&& out.len() == a.samples.len() + r1 * ch + b.samples.len() + r2 * ch
                + c.samples.len()
            &&& ch == 1 ==> out.len() == a.samples.len() + r1 + b.samples.len() + r2
                + c.samples.len()
            &&& a.wf() && b.wf() && c.wf() && b.format == a.format && c.format == a.format ==> {
                let joined = Clip { format: a.format, samples: out };
                joined.wf() && joined.frames() == a.frames() + r1 + b.frames() + r2 + c.frames()
            }
        }),
{
    let rest = seq![placed(s1, b), placed(s2, c)];
    let out = assembled_of(a, rest, 0);
    let r1 = silence_frames_of(a.format.sample_rate, s1);
    let r2 = silence_frames_of(a.format.sample_rate, s2);
    let ch = a.format.channels as nat;
    assert(rest.take(0) =~= Seq::<PlacedClip>::empty());
    assert(rest.take(2) =~= rest);
    lemma_body_step(a, rest, 0);
    lemma_body_step(a, rest, 1);
    assert(silence_frames_of(a.format.sample_rate, 0) == 0);
    assert(silence_len_of(a.format, 0) == 0) by (nonlinear_arith)
        requires
            silence_len_of(a.format, 0) == silence_frames_of(a.format.sample_rate, 0) * (
            a.format.channels as nat),
            silence_frames_of(a.format.sample_rate, 0) == 0,
    ;
    assert(silence_of(a.format, 0) =~= Seq::<i16>::empty());
    assert(out =~= a.samples + silence_of(a.format, s1) + b.samples + silence_of(a.format, s2)
        + c.samples);
    if ch == 1 {
        assert(r1 * ch == r1 && r2 * ch == r2) by (nonlinear_arith)
            requires
                ch == 1,
        ;
    }
    if a.wf() && b.wf() && c.wf() && b.format == a.format && c.format == a.format {
        lemma_frames_add(a.samples.len(), b.samples.len(), c.samples.len(), r1, r2, ch);
    }
}

/// Whole frames stay whole: where the first clip and every later clip consist
/// of whole frames of the first clip's channel count, so does the waveform.
pub proof fn law_assembled_keeps_frames(first: Clip, rest: Seq<PlacedClip>, tail_millis: u32)
    requires
        first.format.channels >= 1,
        first.samples.len() % (first.format.channels as nat) == 0,
        forall|i: int|
            0 <= i < rest.len() ==> (#[trigger] rest[i]).clip.samples.len() % (
            first.format.channels as nat) == 0,
    ensures
        body_of(first, rest).len() % (first.format.channels as nat) == 0,
        assembled_of(first, rest, tail_millis).len() % (first.format.channels as nat) == 0,
    decreases rest.len(),
{
    let ch = first.format.channels as nat;
    let t = silence_frames_of(first.format.sample_rate, tail_millis);
    if rest.len() == 0 {
        lemma_frames_add(first.samples.len(), 0, 0, t, 0, ch);
        assert(first.samples.len() + t * ch + 0 + 0 * ch + 0 == first.samples.len() + t * ch)
            by (nonlinear_arith);
    } else {
        let front = rest.drop_last();
        assert forall|i: int| 0 <= i < front.len() implies (#[trigger] front[i]).clip.samples.len()
            % ch == 0 by {
            assert(front[i] == rest[i]);
        }
        law_assembled_keeps_frames(first, front, tail_millis);
        let g = silence_frames_of(first.format.sample_rate, rest.last().lead_millis);
        let l = rest.last().clip.samples.len();
        lemma_frames_add(body_of(first, front).len(), l, 0, g, t, ch);
        lemma_frames_add(body_of(first, front).len(), l, 0, g, 0, ch);
        assert(body_of(first, front).len() + g * ch + l + 0 * ch + 0 == body_of(first, front).len()
            + g * ch + l) by (nonlinear_arith);
    }
}

/// The number of frames of a silence, computed.
pub fn silence_frames(rate: u32, millis: u32) -> (n: u64)
    ensures
        n == silence_frames_of(rate, millis),
{
    let r: u64 = rate as u64;
    let m: u64 = millis as u64;
    assert(r * m <= 0xFFFF_FFFF * 0xFFFF_FFFF) by (nonlinear_arith)
        requires
            r <= 0xFFFF_FFFF,
            m <= 0xFFFF_FFFF,
    ;
    (r * m + 500) / 1000
}

/// The number of samples of a silence, computed.
pub fn silence_len(format: &WavFormat, millis: u32) -> (n: u128)
    ensures
        n == silence_len_of(*format, millis),
{
    let frames: u128 = silence_frames(format.sample_rate, millis) as u128;
    let channels: u128 = format.channels as u128;
    assert(frames * channels <= 0xFFFF_FFFF_FFFF_FFFF * 0xFFFF) by (nonlinear_arith)
        requires
            frames <= 0xFFFF_FFFF_FFFF_FFFF,
            channels <= 0xFFFF,
    ;
    frames * channels
}

/// Appends the samples of `source` to `out`.
pub fn append_samples(out: &mut Vec<i16>, source: &Vec<i16>)
    ensures
        final(out)@ == old(out)@ + source@,
{
    let mut i: usize = 0;
    while i < source.len()
        invariant
            i <= source.len(),
            out@ == old(out)@ + source@.take(i as int),
        decreases source.len() - i,
    {
        out.push(source[i]);
        assert(source@.take(i + 1) =~= source@.take(i as int).push(source@[i as int]));
        i = i + 1;
    }
    assert(source@.take(i as int) =~= source@);
}

/// Appends `count` samples of value zero to `out`.
pub fn append_zeros(out: &mut Vec<i16>, count: u32)
    ensures
        final(out)@ == old(out)@ + Seq::new(count as nat, |i: int| 0i16),
{
    let mut i: u32 = 0;
    while i < count
        invariant
            i <= count,
            out@ == old(out)@ + Seq::new(i as nat, |k: int| 0i16),
        decreases count - i,
    {
        out.push(0i16);
        assert(Seq::new((i + 1) as nat, |k: int| 0i16) =~= Seq::new(i as nat, |k: int| 0i16).push(
            0i16,
        ));
        i = i + 1;
    }
}

/// Tests that every later clip has the format of the first.
pub fn check_formats(first: &Segment, rest: &Vec<Placed>) -> (ok: bool)
    ensures
        ok == formats_agree(first@, placed_clips(rest@)),
{
    let mut i: usize = 0;
    while i < rest.len()
        invariant
            i <= rest.len(),
            forall|j: int|
                0 <= j < i ==> (#[trigger] placed_clips(rest@)[j]).clip.format == first@.format,
        decreases rest.len() - i,
    {
        if rest[i].segment.format != first.format {
            assert(placed_clips(rest@)[i as int].clip.format != first@.format);
            return false;
        }
        i = i + 1;
    }
    true
}

/// The number of samples of the assembled waveform, or nothing where they
/// are more than [`MAX_SAMPLES`]. Nothing is built.
pub fn measure(first: &Segment, rest: &Vec<Placed>, tail_millis: u32) -> (total: Option<u32>)
    ensures
        match total {
            Some(n) => n == assembled_of(first@, placed_clips(rest@), tail_millis).len() && n
                <= MAX_SAMPLES,
            None => assembled_of(first@, placed_clips(rest@), tail_millis).len() > MAX_SAMPLES,
        },
{
    let ghost head = first@;
    let ghost parts = placed_clips(rest@);
    let limit: u128 = MAX_SAMPLES as u128;
    proof {
        lemma_body_len_monotone(head, parts, 0);
        assert(parts.take(0) =~= Seq::<PlacedClip>::empty());
    }
    if first.samples.len() as u128 > limit {
        return None;
    }
    let mut total: u128 = first.samples.len() as u128;
    let mut i: usize = 0;
    while i < rest.len()
        invariant
            i <= rest.len(),
            limit == MAX_SAMPLES,
            head == first@,
            parts == placed_clips(rest@),
            total == body_of(head, parts.take(i as int)).len(),
            total <= limit,
        decreases rest.len() - i,
    {
        proof {
            lemma_body_step(head, parts, i as int);
            lemma_body_len_monotone(head, parts, i + 1);
        }
        let gap: u128 = silence_len(&first.format, rest[i].lead_millis);
        if gap > limit - total {
            return None;
        }
        total = total + gap;
        let len: u128 = rest[i].segment.samples.len() as u128;
        if len > limit - total {
            return None;
        }
        total = total + len;
        i = i + 1;
    }
    assert(parts.take(i as int) =~= parts);
    let tail: u128 = silence_len(&first.format, tail_millis);
    if tail > limit - total {
        return None;
    }
    Some((total + tail) as u32)
}

/// Joins `first` and the clips of `rest`, each behind its leading silence,
/// and ends with a silence of `tail_millis` milliseconds. A silence is as
/// long as the first clip's sample rate and channel count make it, and the
/// waveform has the first clip's format.
///
/// A clip of another format than the first is refused; otherwise a waveform
/// of more than [`MAX_SAMPLES`] samples is refused, before any of it is
/// built.
pub fn assemble(first: &Segment, rest: &Vec<Placed>, tail_millis: u32) -> (r: Result<
    Segment,
    AssembleError,
>)
    ensures
        clip_result(r) == assembly_of(first@, placed_clips(rest@), tail_millis),
{
    let ghost head = first@;
    let ghost parts = placed_clips(rest@);
    if !check_formats(first, rest) {
        return Err(AssembleError::FormatMismatch);
    }
    if measure(first, rest, tail_millis).is_none() {
        return Err(AssembleError::TooLarge);
    }
    let mut out: Vec<i16> = Vec::new();
    append_samples(&mut out, &first.samples);
    assert(parts.take(0) =~= Seq::<PlacedClip>::empty());
    let mut i: usize = 0;
    while i < rest.len()
        invariant
            i <= rest.len(),
            head == first@,
            parts == placed_clips(rest@),
            body_of(head, parts).len() <= MAX_SAMPLES,
            out@ == body_of(head, parts.take(i as int)),
        decreases rest.len() - i,
    {
        proof {
            lemma_body_step(head, parts, i as int);
            lemma_body_len_monotone(head, parts, i + 1);
        }
        let gap: u128 = silence_len(&first.format, rest[i].lead_millis);
        append_zeros(&mut out, gap as u32);
        append_samples(&mut out, &rest[i].segment.samples);
        i = i + 1;
    }
    assert(parts.take(i as int) =~= parts);
    let tail: u128 = silence_len(&first.format, tail_millis);
    append_zeros(&mut out, tail as u32);
    let joined = Segment { format: first.format, samples: out };
    assert(joined@ =~= Clip {
        format: head.format,
        samples: assembled_of(head, parts, tail_millis),
    });
    Ok(joined)
}

} // verus!
