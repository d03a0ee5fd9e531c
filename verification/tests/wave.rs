use std::io::Cursor;
use yish::assembler::{
    append_samples, append_zeros, assemble, check_formats, measure, silence_frames, silence_len,
    AssembleError, Placed, MAX_SAMPLES,
};
use yish::drill::{
    convert_audio, join_drill, ConvertError, SegmentKind, ANSWER_LEAD_MILLIS,
    PROBLEM_LEAD_MILLIS, TAIL_MILLIS,
};
use yish::wave::{admit_segment, decode_segment, SampleKind, Segment, SegmentError, WavFormat};

fn pcm16(channels: u16, sample_rate: u32) -> WavFormat {
    WavFormat { channels, sample_rate, bits_per_sample: 16, sample_kind: SampleKind::Int }
}

fn clip(format: WavFormat, samples: &[i16]) -> Segment {
    Segment { format, samples: samples.to_vec() }
}

fn wav_bytes(channels: u16, sample_rate: u32, bits: u16, samples: &[i16]) -> Vec<u8> {
    let spec = hound::WavSpec {
        channels,
        sample_rate,
        bits_per_sample: bits,
        sample_format: hound::SampleFormat::Int,
    };
    let mut bytes: Vec<u8> = Vec::new();
    {
        let mut writer = hound::WavWriter::new(Cursor::new(&mut bytes), spec).unwrap();
        for s in samples {
            writer.write_sample(*s).unwrap();
        }
        writer.finalize().unwrap();
    }
    bytes
}

#[test]
fn silence_frames_of_common_rates() {
    assert_eq!(silence_frames(24000, 500), 12000);
    assert_eq!(silence_frames(24000, 3000), 72000);
    assert_eq!(silence_frames(24000, 1000), 24000);
    assert_eq!(silence_frames(44100, 500), 22050);
    assert_eq!(silence_frames(48000, 0), 0);
    assert_eq!(silence_frames(0, 1000), 0);
}

#[test]
fn silence_frames_round_to_nearest() {
    assert_eq!(silence_frames(11025, 1), 11);
    assert_eq!(silence_frames(1, 499), 0);
    assert_eq!(silence_frames(1, 501), 1);
    assert_eq!(silence_frames(22050, 333), 7343);
}

#[test]
fn silence_frames_round_halves_upwards() {
    assert_eq!(silence_frames(3, 500), 2);
    assert_eq!(silence_frames(1, 500), 1);
    assert_eq!(silence_frames(1, 1500), 2);
    assert_eq!(silence_frames(44101, 500), 22051);
}

#[test]
fn silence_frames_of_the_largest_inputs() {
    assert_eq!(silence_frames(u32::MAX, u32::MAX), 18_446_744_065_119_617);
}

#[test]
fn silence_len_counts_every_channel() {
    assert_eq!(silence_len(&pcm16(1, 24000), 500), 12000);
    assert_eq!(silence_len(&pcm16(2, 24000), 500), 24000);
    assert_eq!(silence_len(&pcm16(6, 48000), 1000), 288_000);
    assert_eq!(
        silence_len(&pcm16(u16::MAX, u32::MAX), u32::MAX),
        18_446_744_065_119_617u128 * 65535
    );
}

#[test]
fn append_samples_keeps_what_is_there() {
    let mut out = vec![1i16, 2];
    append_samples(&mut out, &vec![3i16, -4, 5]);
    assert_eq!(out, vec![1, 2, 3, -4, 5]);
    append_samples(&mut out, &Vec::new());
    assert_eq!(out, vec![1, 2, 3, -4, 5]);
}

#[test]
fn append_zeros_appends_silence() {
    let mut out = vec![7i16];
    append_zeros(&mut out, 3);
    assert_eq!(out, vec![7, 0, 0, 0]);
    append_zeros(&mut out, 0);
    assert_eq!(out, vec![7, 0, 0, 0]);
}

#[test]
fn assemble_three_clips_with_two_silences() {
    let format = pcm16(1, 1000);
    let a = clip(format, &[1, 2, 3]);
    let rest = vec![
        Placed { lead_millis: 2, segment: clip(format, &[4, 5]) },
        Placed { lead_millis: 3, segment: clip(format, &[6]) },
    ];
    let out = assemble(&a, &rest, 0).unwrap();
    assert_eq!(out.format, format);
    assert_eq!(out.samples, vec![1, 2, 3, 0, 0, 4, 5, 0, 0, 0, 6]);
}

#[test]
fn assemble_length_is_the_sum_of_the_parts() {
    let format = pcm16(1, 24000);
    let a = clip(format, &vec![9i16; 1234]);
    let rest = vec![
        Placed { lead_millis: 500, segment: clip(format, &vec![8i16; 777]) },
        Placed { lead_millis: 3000, segment: clip(format, &vec![7i16; 55]) },
    ];
    let out = assemble(&a, &rest, 0).unwrap();
    assert_eq!(out.samples.len(), 1234 + 12000 + 777 + 72000 + 55);
    assert!(out.samples[..1234].iter().all(|s| *s == 9));
    assert!(out.samples[1234..13234].iter().all(|s| *s == 0));
    assert!(out.samples[13234..14011].iter().all(|s| *s == 8));
    assert!(out.samples[14011..86011].iter().all(|s| *s == 0));
    assert!(out.samples[86011..].iter().all(|s| *s == 7));
}

#[test]
fn assemble_stereo_silence_has_two_samples_a_frame() {
    let format = pcm16(2, 1000);
    let a = clip(format, &[1, -1]);
    let rest = vec![Placed { lead_millis: 2, segment: clip(format, &[2, -2, 3, -3]) }];
    let out = assemble(&a, &rest, 1).unwrap();
    assert_eq!(out.samples, vec![1, -1, 0, 0, 0, 0, 2, -2, 3, -3, 0, 0]);
}

#[test]
fn assemble_a_single_clip_with_a_tail() {
    let format = pcm16(1, 2000);
    let out = assemble(&clip(format, &[5]), &Vec::new(), 1).unwrap();
    assert_eq!(out.samples, vec![5, 0, 0]);
}

#[test]
fn assemble_uses_the_rate_of_the_first_clip() {
    let first = pcm16(1, 4000);
    let out = assemble(&clip(first, &[]), &Vec::new(), 1000).unwrap();
    assert_eq!(out.samples.len(), 4000);
    assert_eq!(out.format, first);
}

#[test]
fn assemble_refuses_another_rate() {
    let a = clip(pcm16(1, 24000), &[1]);
    let rest = vec![Placed { lead_millis: 0, segment: clip(pcm16(1, 48000), &[2]) }];
    assert_eq!(assemble(&a, &rest, 0).unwrap_err(), AssembleError::FormatMismatch);
}

#[test]
fn assemble_refuses_another_channel_count_or_depth() {
    let a = clip(pcm16(1, 24000), &[1]);
    let stereo = vec![
        Placed { lead_millis: 0, segment: clip(pcm16(1, 24000), &[2]) },
        Placed { lead_millis: 0, segment: clip(pcm16(2, 24000), &[2, 2]) },
    ];
    assert_eq!(assemble(&a, &stereo, 0).unwrap_err(), AssembleError::FormatMismatch);
    let shallow = WavFormat { bits_per_sample: 8, ..pcm16(1, 24000) };
    let rest = vec![Placed { lead_millis: 0, segment: clip(shallow, &[2]) }];
    assert_eq!(assemble(&a, &rest, 0).unwrap_err(), AssembleError::FormatMismatch);
}

#[test]
fn assemble_reports_a_mismatch_before_the_size() {
    let a = clip(pcm16(1, 24000), &[1]);
    let rest = vec![
        Placed { lead_millis: u32::MAX, segment: clip(pcm16(1, 24000), &[2]) },
        Placed { lead_millis: 0, segment: clip(pcm16(1, 8000), &[2]) },
    ];
    assert_eq!(assemble(&a, &rest, 0).unwrap_err(), AssembleError::FormatMismatch);
}

#[test]
fn assemble_refuses_a_silence_that_is_too_long() {
    let a = clip(pcm16(1, 48000), &[1]);
    assert_eq!(assemble(&a, &Vec::new(), u32::MAX).unwrap_err(), AssembleError::TooLarge);
    let rest = vec![Placed { lead_millis: u32::MAX, segment: clip(pcm16(1, 48000), &[2]) }];
    assert_eq!(assemble(&a, &rest, 0).unwrap_err(), AssembleError::TooLarge);
}

#[test]
fn the_largest_waveform_fits_a_riff_container() {
    assert_eq!(MAX_SAMPLES, 2_147_483_613);
    assert!(2 * (MAX_SAMPLES as u64) + 68 <= u32::MAX as u64);
    assert!(2 * (MAX_SAMPLES as u64 + 1) + 68 > u32::MAX as u64);
}

#[test]
fn check_formats_compares_with_the_first() {
    let a = clip(pcm16(1, 24000), &[]);
    assert!(check_formats(&a, &Vec::new()));
    let same = vec![Placed { lead_millis: 1, segment: clip(pcm16(1, 24000), &[3]) }];
    assert!(check_formats(&a, &same));
    let other = vec![Placed { lead_millis: 1, segment: clip(pcm16(1, 24001), &[3]) }];
    assert!(!check_formats(&a, &other));
}

#[test]
fn pcm16_is_what_a_drill_takes() {
    assert!(pcm16(1, 24000).check_pcm16());
    assert!(pcm16(2, 44100).check_pcm16());
    assert!(!pcm16(0, 24000).check_pcm16());
    assert!(!pcm16(1, 0).check_pcm16());
    assert!(!WavFormat { bits_per_sample: 8, ..pcm16(1, 24000) }.check_pcm16());
    assert!(!WavFormat { bits_per_sample: 24, ..pcm16(1, 24000) }.check_pcm16());
    assert!(!WavFormat { sample_kind: SampleKind::Float, ..pcm16(1, 24000) }.check_pcm16());
}

#[test]
fn pcm16_byte_rate_must_fit_the_header() {
    assert!(pcm16(1, 2_147_483_647).check_pcm16());
    assert!(!pcm16(1, 2_147_483_648).check_pcm16());
    assert!(!pcm16(2, 1_073_741_824).check_pcm16());
    assert!(pcm16(2, 1_073_741_823).check_pcm16());
    assert!(!pcm16(u16::MAX, u32::MAX).check_pcm16());
}

#[test]
fn admit_segment_takes_whole_frames() {
    let seg = admit_segment(pcm16(2, 24000), vec![1, 2, 3, 4]).unwrap();
    assert_eq!(seg.samples, vec![1, 2, 3, 4]);
    assert_eq!(seg.format, pcm16(2, 24000));
    assert!(admit_segment(pcm16(1, 24000), Vec::new()).is_ok());
}

#[test]
fn admit_segment_refuses_a_ragged_clip() {
    assert_eq!(admit_segment(pcm16(2, 24000), vec![1, 2, 3]).unwrap_err(), SegmentError::Ragged);
}

#[test]
fn admit_segment_refuses_other_formats_first() {
    let shallow = WavFormat { bits_per_sample: 8, ..pcm16(2, 24000) };
    assert_eq!(admit_segment(shallow, vec![1, 2, 3]).unwrap_err(), SegmentError::NotPcm16);
    assert_eq!(admit_segment(pcm16(0, 24000), vec![1]).unwrap_err(), SegmentError::NotPcm16);
}

#[test]
fn decode_segment_reads_format_and_samples() {
    let bytes = wav_bytes(1, 24000, 16, &[2, -3, 5, -7, i16::MAX, i16::MIN]);
    let seg = decode_segment(&bytes).unwrap();
    assert_eq!(seg.format, pcm16(1, 24000));
    assert_eq!(seg.samples, vec![2, -3, 5, -7, i16::MAX, i16::MIN]);
}

#[test]
fn decode_segment_reads_stereo() {
    let bytes = wav_bytes(2, 44100, 16, &[1, -1, 2, -2]);
    let seg = decode_segment(&bytes).unwrap();
    assert_eq!(seg.format, pcm16(2, 44100));
    assert_eq!(seg.samples, vec![1, -1, 2, -2]);
}

#[test]
fn decode_segment_reads_an_empty_clip() {
    let bytes = wav_bytes(1, 8000, 16, &[]);
    let seg = decode_segment(&bytes).unwrap();
    assert!(seg.samples.is_empty());
    assert_eq!(seg.format, pcm16(1, 8000));
}

#[test]
fn decode_segment_refuses_what_is_no_wave_stream() {
    assert_eq!(decode_segment(&Vec::new()).unwrap_err(), SegmentError::Undecodable);
    assert_eq!(decode_segment(&b"RIFF".to_vec()).unwrap_err(), SegmentError::Undecodable);
    assert_eq!(
        decode_segment(&b"not a wave file at all, just text".to_vec()).unwrap_err(),
        SegmentError::Undecodable
    );
}

#[test]
fn decode_segment_refuses_a_truncated_stream() {
    let mut bytes = wav_bytes(1, 24000, 16, &[1, 2, 3, 4]);
    bytes.truncate(bytes.len() - 3);
    assert_eq!(decode_segment(&bytes).unwrap_err(), SegmentError::Undecodable);
}

#[test]
fn decode_segment_refuses_eight_bit_samples() {
    let bytes = wav_bytes(1, 24000, 8, &[1, 2, 3]);
    assert_eq!(decode_segment(&bytes).unwrap_err(), SegmentError::NotPcm16);
}

#[test]
fn decode_segment_refuses_wider_samples() {
    let spec = hound::WavSpec {
        channels: 1,
        sample_rate: 24000,
        bits_per_sample: 24,
        sample_format: hound::SampleFormat::Int,
    };
    let mut bytes: Vec<u8> = Vec::new();
    {
        let mut writer = hound::WavWriter::new(Cursor::new(&mut bytes), spec).unwrap();
        writer.write_sample(70_000i32).unwrap();
        writer.finalize().unwrap();
    }
    assert_eq!(decode_segment(&bytes).unwrap_err(), SegmentError::Undecodable);
}

#[test]
fn drill_pauses() {
    assert_eq!(PROBLEM_LEAD_MILLIS, 500);
    assert_eq!(ANSWER_LEAD_MILLIS, 3000);
    assert_eq!(TAIL_MILLIS, 1000);
}

#[test]
fn join_drill_lays_out_the_three_clips() {
    let format = pcm16(1, 1000);
    let out = join_drill(clip(format, &[1]), clip(format, &[2, 2]), clip(format, &[3])).unwrap();
    assert_eq!(out.format, format);
    assert_eq!(out.samples.len(), 1 + 500 + 2 + 3000 + 1 + 1000);
    assert_eq!(out.samples[0], 1);
    assert!(out.samples[1..501].iter().all(|s| *s == 0));
    assert_eq!(&out.samples[501..503], &[2, 2]);
    assert!(out.samples[503..3503].iter().all(|s| *s == 0));
    assert_eq!(out.samples[3503], 3);
    assert!(out.samples[3504..].iter().all(|s| *s == 0));
}

#[test]
fn join_drill_refuses_mixed_formats() {
    let r = join_drill(
        clip(pcm16(1, 24000), &[1]),
        clip(pcm16(1, 24000), &[2]),
        clip(pcm16(1, 22050), &[3]),
    );
    assert_eq!(r.unwrap_err(), AssembleError::FormatMismatch);
}

#[test]
fn convert_audio_builds_the_drill_of_three_rendered_clips() {
    let a = wav_bytes(1, 24000, 16, &[10, 11, 12]);
    let p = wav_bytes(1, 24000, 16, &[20, 21]);
    let c = wav_bytes(1, 24000, 16, &[30]);
    let out = convert_audio(&a, &p, &c).unwrap();
    assert_eq!(out.format, pcm16(1, 24000));
    assert_eq!(out.samples.len(), 3 + 12000 + 2 + 72000 + 1 + 24000);
    assert_eq!(&out.samples[..3], &[10, 11, 12]);
    assert!(out.samples[3..12003].iter().all(|s| *s == 0));
    assert_eq!(&out.samples[12003..12005], &[20, 21]);
    assert!(out.samples[12005..84005].iter().all(|s| *s == 0));
    assert_eq!(out.samples[84005], 30);
    assert!(out.samples[84006..].iter().all(|s| *s == 0));
}

#[test]
fn convert_audio_names_the_first_bad_clip() {
    let good = wav_bytes(1, 24000, 16, &[1]);
    let bad = b"oops".to_vec();
    let shallow = wav_bytes(1, 24000, 8, &[1]);
    assert_eq!(
        convert_audio(&bad, &shallow, &good).unwrap_err(),
        ConvertError::Segment(SegmentKind::Announcement, SegmentError::Undecodable)
    );
    assert_eq!(
        convert_audio(&good, &shallow, &bad).unwrap_err(),
        ConvertError::Segment(SegmentKind::Problem, SegmentError::NotPcm16)
    );
    assert_eq!(
        convert_audio(&good, &good, &bad).unwrap_err(),
        ConvertError::Segment(SegmentKind::Answer, SegmentError::Undecodable)
    );
}

#[test]
fn convert_audio_refuses_mixed_formats() {
    let a = wav_bytes(1, 24000, 16, &[1]);
    let p = wav_bytes(2, 24000, 16, &[1, 1]);
    assert_eq!(convert_audio(&a, &p, &a).unwrap_err(), ConvertError::FormatMismatch);
    let slow = wav_bytes(1, 8000, 16, &[1]);
    assert_eq!(convert_audio(&a, &a, &slow).unwrap_err(), ConvertError::FormatMismatch);
}

#[test]
fn convert_audio_refuses_a_drill_that_cannot_be_stored() {
    let fast = wav_bytes(1, 1_000_000_000, 16, &[1]);
    assert_eq!(convert_audio(&fast, &fast, &fast).unwrap_err(), ConvertError::TooLarge);
}

#[test]
fn measure_counts_without_building() {
    let format = pcm16(2, 1000);
    let a = clip(format, &[1, -1]);
    let rest = vec![Placed { lead_millis: 2, segment: clip(format, &[2, -2, 3, -3]) }];
    assert_eq!(measure(&a, &rest, 1), Some(12));
    assert_eq!(measure(&a, &Vec::new(), 0), Some(2));
}

#[test]
fn measure_knows_the_limit() {
    let a = clip(pcm16(1, 1000), &[1]);
    assert_eq!(measure(&a, &Vec::new(), 2_147_483_612), Some(MAX_SAMPLES));
    assert_eq!(measure(&a, &Vec::new(), 2_147_483_613), None);
    let wide = clip(pcm16(u16::MAX, u32::MAX), &[1]);
    assert_eq!(measure(&wide, &Vec::new(), u32::MAX), None);
}
