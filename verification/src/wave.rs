//! Rendered speech clips: their format, their samples, and how the bytes that
//! the speech engine hands out become a clip.

use vstd::prelude::*;

verus! {

/// How a sample is stored.
#[derive(Clone, Copy, Debug, PartialEq, Eq, Structural)]
pub enum SampleKind {
    /// Signed integers.
    Int,
    /// IEEE 754 numbers.
    Float,
}

/// The properties of a stream of samples.
#[derive(Clone, Copy, Debug, PartialEq, Eq, Structural)]
pub struct WavFormat {
    /// Number of interleaved channels.
    pub channels: u16,
    /// Samples per second and channel.
    pub sample_rate: u32,
    /// Bits of one sample.
    pub bits_per_sample: u16,
    /// Whether the samples are integers.
    pub sample_kind: SampleKind,
}

impl WavFormat {
    /// 16-bit integer samples, at least one channel, a rate of at least one
    /// sample per second, and a byte rate that the 32-bit field of a RIFF
    /// header can hold.
    pub open spec fn is_pcm16(self) -> bool {
        &&& self.sample_kind == SampleKind::Int
        &&& self.bits_per_sample == 16
        &&& self.channels >= 1
        &&& self.sample_rate >= 1
        &&& 2 * self.sample_rate * self.channels <= u32::MAX
    }

    /// Tests [`WavFormat::is_pcm16`].
    pub fn check_pcm16(&self) -> (ok: bool)
        ensures
            ok == self.is_pcm16(),
    {
        let doubled: u64 = 2 * (self.sample_rate as u64);
        let channels: u64 = self.channels as u64;
        assert(doubled * channels <= 0x1_FFFF_FFFE * 0xFFFF) by (nonlinear_arith)
            requires
                doubled <= 0x1_FFFF_FFFE,
                channels <= 0xFFFF,
        ;
        let byte_rate: u64 = doubled * channels;
        (match self.sample_kind {
            SampleKind::Int => true,
            SampleKind::Float => false,
        }) && self.bits_per_sample == 16 && self.channels >= 1 && self.sample_rate >= 1
            && byte_rate <= 0xFFFF_FFFF
    }
}

/// The mathematical model of a clip: its format and its interleaved samples.
#[verifier::ext_equal]
pub struct Clip {
    pub format: WavFormat,
    pub samples: Seq<i16>,
}

impl Clip {
    /// A clip that can stand in a drill: 16-bit PCM, with every channel
    /// present in the last frame.
    pub open spec fn wf(self) -> bool {
        &&& self.format.is_pcm16()
        &&& self.samples.len() % (self.format.channels as nat) == 0
    }

    /// The number of frames (samples per channel) of a clip of whole frames.
    pub open spec fn frames(self) -> nat {
        self.samples.len() / (self.format.channels as nat)
    }
}

/// One clip: interleaved samples and their format.
#[derive(Debug)]
pub struct Segment {
    pub format: WavFormat,
    pub samples: Vec<i16>,
}

impl View for Segment {
    type V = Clip;

    open spec fn view(&self) -> Clip {
        Clip { format: self.format, samples: self.samples@ }
    }
}

/// Why bytes were not accepted as a clip.
#[derive(Clone, Copy, Debug, PartialEq, Eq, Structural)]
pub enum SegmentError {
    /// The bytes are no WAVE stream whose samples can be read as 16-bit
    /// integers.
    Undecodable,
    /// The stream is not 16-bit PCM, see [`WavFormat::is_pcm16`].
    NotPcm16,
    /// The last frame lacks a channel.
    Ragged,
}

/// The error type of `hound`, carried through unread: [`decode_segment`]
/// turns every such error into [`SegmentError::Undecodable`].
#[verifier::external_type_specification]
#[verifier::external_body]
pub struct ExHoundError(hound::Error);

/// What `hound` reads from a byte string that holds a whole WAVE stream: the
/// format of its header and all its samples as 16-bit integers, or nothing
/// where `hound` reports an error for the header or for any sample.
pub uninterp spec fn wav_payload(bytes: Seq<u8>) -> Option<Clip>;

/// Reads a WAVE stream from memory with `hound::WavReader`: the header by
/// `WavReader::new`, the format by `spec`, the samples by
/// `into_samples::<i16>` up to the first error. The result is what
/// [`wav_payload`] names; an error of `hound` stands for its absence.
#[verifier::external_body]
fn read_wav(bytes: &Vec<u8>) -> (r: Result<Segment, hound::Error>)
    ensures
        match r {
            Ok(clip) => wav_payload(bytes@) == Some(clip@),
            Err(_) => wav_payload(bytes@).is_none(),
        },
{
    let reader = hound::WavReader::new(std::io::Cursor::new(bytes.as_slice()))?;
    let spec = reader.spec();
    let samples = reader.into_samples::<i16>().collect::<Result<Vec<i16>, hound::Error>>()?;
    let sample_kind = match spec.sample_format {
        hound::SampleFormat::Int => SampleKind::Int,
        hound::SampleFormat::Float => SampleKind::Float,
    };
    let format = WavFormat {
        channels: spec.channels,
        sample_rate: spec.sample_rate,
        bits_per_sample: spec.bits_per_sample,
        sample_kind,
    };
    Ok(Segment { format, samples })
}

/// The verdict on a decoded stream, in the order of the checks.
pub open spec fn admission_of(clip: Clip) -> Result<Clip, SegmentError> {
    if !clip.format.is_pcm16() {
        Err(SegmentError::NotPcm16)
    } else if clip.samples.len() % (clip.format.channels as nat) != 0 {
        Err(SegmentError::Ragged)
    } else {
        Ok(clip)
    }
}

/// The verdict on a byte string, given what `hound` reads from it.
pub open spec fn decoding_of(payload: Option<Clip>) -> Result<Clip, SegmentError> {
    match payload {
        None => Err(SegmentError::Undecodable),
        Some(clip) => admission_of(clip),
    }
}

/// The clip that a result stands for.
pub open spec fn clip_result<E>(r: Result<Segment, E>) -> Result<Clip, E> {
    match r {
        Ok(segment) => Ok(segment@),
        Err(e) => Err(e),
    }
}

/// Accepts a decoded stream as a clip of a drill, or says why not.
pub fn admit_segment(format: WavFormat, samples: Vec<i16>) -> (r: Result<Segment, SegmentError>)
    ensures
        clip_result(r) == admission_of(Clip { format, samples: samples@ }),
        r matches Ok(segment) ==> segment@.wf(),
{
    if !format.check_pcm16() {
        return Err(SegmentError::NotPcm16);
    }
    if samples.len() % (format.channels as usize) != 0 {
        return Err(SegmentError::Ragged);
    }
    Ok(Segment { format, samples })
}

/// Decodes the bytes of a rendered clip.
pub fn decode_segment(bytes: &Vec<u8>) -> (r: Result<Segment, SegmentError>)
    ensures
        clip_result(r) == decoding_of(wav_payload(bytes@)),
        r matches Ok(segment) ==> segment@.wf(),
{
    match read_wav(bytes) {
        Ok(clip) => admit_segment(clip.format, clip.samples),
        Err(_) => Err(SegmentError::Undecodable),
    }
}

} // verus!
