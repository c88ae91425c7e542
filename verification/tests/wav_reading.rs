use dyt::wav::{keep_successful, read_wav, read_wav_spec, SampleFormat, WavContent, WavError, WavSpec};

fn make_wav_i16(sample_rate: u32, channels: u16, samples: &[i16]) -> Vec<u8> {
    let spec = hound::WavSpec {
        channels,
        sample_rate,
        bits_per_sample: 16,
        sample_format: hound::SampleFormat::Int,
    };
    let mut cursor = std::io::Cursor::new(Vec::<u8>::new());
    {
        let mut writer = hound::WavWriter::new(&mut cursor, spec).unwrap();
        for &s in samples {
            writer.write_sample(s).unwrap();
        }
        writer.finalize().unwrap();
    }
    cursor.into_inner()
}

fn make_wav_f32(sample_rate: u32, channels: u16, samples: &[f32]) -> Vec<u8> {
    let spec = hound::WavSpec {
        channels,
        sample_rate,
        bits_per_sample: 32,
        sample_format: hound::SampleFormat::Float,
    };
    let mut cursor = std::io::Cursor::new(Vec::<u8>::new());
    {
        let mut writer = hound::WavWriter::new(&mut cursor, spec).unwrap();
        for &s in samples {
            writer.write_sample(s).unwrap();
        }
        writer.finalize().unwrap();
    }
    cursor.into_inner()
}

fn make_wav_i32(bits: u16, samples: &[i32]) -> Vec<u8> {
    let spec = hound::WavSpec {
        channels: 1,
        sample_rate: 16000,
        bits_per_sample: bits,
        sample_format: hound::SampleFormat::Int,
    };
    let mut cursor = std::io::Cursor::new(Vec::<u8>::new());
    {
        let mut writer = hound::WavWriter::new(&mut cursor, spec).unwrap();
        for &s in samples {
            writer.write_sample(s).unwrap();
        }
        writer.finalize().unwrap();
    }
    cursor.into_inner()
}

#[test]
fn decode_invalid_bytes() {
    let garbage = b"not a wav file at all xxxx".to_vec();
    let result = read_wav(&garbage);
    assert!(result.is_err(), "expected Err for invalid WAV bytes, got Ok");
}

#[test]
fn empty_payload_is_refused() {
    assert!(read_wav(&[]).is_err());
    assert!(read_wav_spec(&[]).is_err());
}

#[test]
fn i16_mono_samples_are_read_exactly() {
    let input = vec![i16::MAX, 0, i16::MIN / 2];
    let wav = make_wav_i16(16000, 1, &input);
    let content = read_wav(&wav).unwrap();
    assert_eq!(
        content,
        WavContent::Int {
            spec: WavSpec {
                channels: 1,
                sample_rate: 16000,
                bits_per_sample: 16,
                sample_format: SampleFormat::Int,
            },
            samples: input,
        }
    );
}

#[test]
fn stereo_samples_stay_interleaved() {
    let input: Vec<i16> = vec![100, -100, 200, -200, 300, -300];
    let wav = make_wav_i16(48000, 2, &input);
    match read_wav(&wav).unwrap() {
        WavContent::Int { spec, samples } => {
            assert_eq!(spec.channels, 2);
            assert_eq!(spec.sample_rate, 48000);
            assert_eq!(samples, input);
        }
        other => panic!("expected integer content, got {other:?}"),
    }
}

#[test]
fn float_payload_gives_header_only() {
    let wav = make_wav_f32(16000, 1, &[0.1, 0.5, -0.3, 0.0, 1.0]);
    let content = read_wav(&wav).unwrap();
    assert_eq!(
        content,
        WavContent::Float {
            spec: WavSpec {
                channels: 1,
                sample_rate: 16000,
                bits_per_sample: 32,
                sample_format: SampleFormat::Float,
            }
        }
    );
}

#[test]
fn spec_reader_agrees_with_full_reader() {
    let wav = make_wav_i16(22050, 1, &[1, 2, 3]);
    let spec = read_wav_spec(&wav).unwrap();
    assert_eq!(spec.sample_rate, 22050);
    assert_eq!(spec.bits_per_sample, 16);
    assert_eq!(spec.sample_format, SampleFormat::Int);
}

#[test]
fn eight_bit_samples_widen_to_i16() {
    let wav = make_wav_i32(8, &[-128, 0, 127]);
    match read_wav(&wav).unwrap() {
        WavContent::Int { samples, .. } => assert_eq!(samples, vec![-128, 0, 127]),
        other => panic!("expected integer content, got {other:?}"),
    }
}

#[test]
fn wide_integer_samples_are_refused() {
    let wav24 = make_wav_i32(24, &[1, 2, 3, 4]);
    assert_eq!(read_wav(&wav24), Err(WavError::TooWide));
    assert_eq!(read_wav_spec(&wav24).unwrap().bits_per_sample, 24);
    let wav32 = make_wav_i32(32, &[1, 2, 3, 4]);
    assert_eq!(read_wav(&wav32), Err(WavError::TooWide));
}

#[test]
fn failed_reads_are_dropped_in_order() {
    let reads = vec![Some(5), None, Some(-7), None, None, Some(0)];
    assert_eq!(keep_successful(&reads), vec![5, -7, 0]);
    assert_eq!(keep_successful(&vec![]), Vec::<i16>::new());
    assert_eq!(keep_successful(&vec![None, None]), Vec::<i16>::new());
}
