use dyt::wav::{encode_pcm16_mono_16k, read_wav, SampleFormat, WavContent, WavSpec};

fn encoded_spec() -> WavSpec {
    WavSpec {
        channels: 1,
        sample_rate: 16000,
        bits_per_sample: 16,
        sample_format: SampleFormat::Int,
    }
}

#[test]
fn encoded_samples_read_back_exactly() {
    let samples: Vec<i16> = vec![0, 1, -1, i16::MAX, i16::MIN, 12345, -32767];
    let bytes = encode_pcm16_mono_16k(&samples);
    assert_eq!(
        read_wav(&bytes).unwrap(),
        WavContent::Int { spec: encoded_spec(), samples: samples.clone() }
    );
}

#[test]
fn hound_reads_the_same_metadata() {
    let bytes = encode_pcm16_mono_16k(&[10, 20, 30]);
    let reader = hound::WavReader::new(std::io::Cursor::new(bytes)).unwrap();
    let spec = reader.spec();
    assert_eq!(spec.channels, 1);
    assert_eq!(spec.sample_rate, 16000);
    assert_eq!(spec.bits_per_sample, 16);
    assert_eq!(spec.sample_format, hound::SampleFormat::Int);
    assert_eq!(reader.len(), 3);
}

#[test]
fn empty_input_gives_a_valid_wav() {
    let bytes = encode_pcm16_mono_16k(&[]);
    assert_eq!(bytes.len(), 44);
    assert_eq!(
        read_wav(&bytes).unwrap(),
        WavContent::Int { spec: encoded_spec(), samples: vec![] }
    );
}

#[test]
fn encoding_matches_a_hound_writer() {
    let samples: Vec<i16> = (-800..800).map(|i| (i * 37) as i16).collect();
    let mut expected = Vec::new();
    {
        let spec = hound::WavSpec {
            channels: 1,
            sample_rate: 16000,
            bits_per_sample: 16,
            sample_format: hound::SampleFormat::Int,
        };
        let mut writer = hound::WavWriter::new(std::io::Cursor::new(&mut expected), spec).unwrap();
        for &s in &samples {
            writer.write_sample(s).unwrap();
        }
        writer.finalize().unwrap();
    }
    assert_eq!(encode_pcm16_mono_16k(&samples), expected);
}
