//! WAV payloads with `hound`: reading the header and 16-bit integer PCM, and
//! writing mono 16-bit PCM.
//!
//! Float samples are outside what this crate handles; for a float file only
//! the header is read here.

use vstd::prelude::*;

verus! {

#[verifier::external_type_specification]
#[verifier::external_body]
#[verifier::reject_recursive_types(T)]
pub struct ExCursor<T>(std::io::Cursor<T>);

#[verifier::external_type_specification]
#[verifier::external_body]
#[verifier::reject_recursive_types(R)]
pub struct ExWavReader<R>(hound::WavReader<R>);

#[verifier::external_type_specification]
#[verifier::external_body]
pub struct ExHoundError(hound::Error);

/// How the samples of a WAV file are stored.
#[derive(Debug, Clone, Copy, PartialEq, Eq)]
pub enum SampleFormat {
    Float,
    Int,
}

/// The format description found in a WAV file's `fmt ` chunk.
#[derive(Debug, Clone, Copy, PartialEq, Eq)]
pub struct WavSpec {
    pub channels: u16,
    pub sample_rate: u32,
    pub bits_per_sample: u16,
    pub sample_format: SampleFormat,
}

impl WavSpec {
    /// The spec as a plain tuple: channels, sample rate, bits per sample,
    /// and whether samples are floats.
    pub open spec fn model(self) -> (u16, u32, u16, bool) {
        (self.channels, self.sample_rate, self.bits_per_sample, self.sample_format is Float)
    }
}

/// Why a WAV payload could not be read.
#[derive(Debug, PartialEq, Eq)]
pub enum WavError {
    /// The bytes ended early or could not be read.
    Io,
    /// Ill-formed WAVE data, with the reader's description.
    Format(String),
    /// Integer samples are wider than 16 bits.
    TooWide,
    /// The sample count is not a multiple of the channel count.
    UnfinishedSample,
    /// A WAVE variant that the reader does not support.
    Unsupported,
    /// The samples are not stored in the requested format.
    InvalidSampleFormat,
}

/// The content of an accepted WAV payload.
#[derive(Debug, PartialEq, Eq)]
pub enum WavContent {
    /// Integer PCM: the samples that decoded as 16-bit values, interleaved.
    Int { spec: WavSpec, samples: Vec<i16> },
    /// Float PCM: only the header; the samples are left to the caller.
    Float { spec: WavSpec },
}

/// What `hound::WavReader::new` finds in the header of `bytes`: channels,
/// sample rate, bits per sample and whether samples are floats; `None` where
/// it refuses the bytes.
pub uninterp spec fn hound_header(bytes: Seq<u8>) -> Option<(u16, u32, u16, bool)>;

/// The results that reading the samples of `bytes` one by one as `i16`
/// gives with `hound`, in order: `Some(sample)`, or `None` for a sample
/// that could not be read as `i16`.
pub uninterp spec fn hound_i16_reads(bytes: Seq<u8>) -> Seq<Option<i16>>;

/// The `i16` read results that an open reader has still to give.
pub uninterp spec fn reader_pending_i16(reader: hound::WavReader<std::io::Cursor<Vec<u8>>>) -> Seq<Option<i16>>;

/// The header that an open reader was created with.
pub uninterp spec fn reader_header(reader: hound::WavReader<std::io::Cursor<Vec<u8>>>) -> (u16, u32, u16, bool);

/// `hound::WavReader::new` over an in-memory copy of `bytes`. It succeeds
/// exactly where `hound_header` names a header, and the reader then holds that
/// header and has all the `i16` reads of `bytes` still to give. Which error
/// comes back is not stated.
#[verifier::external_body]
fn open_reader(bytes: &[u8]) -> (r: Result<hound::WavReader<std::io::Cursor<Vec<u8>>>, hound::Error>)
    ensures
        r is Ok <==> hound_header(bytes@) is Some,
        r matches Ok(reader) ==> {
            &&& reader_header(reader) == hound_header(bytes@)->0
            &&& reader_pending_i16(reader) == hound_i16_reads(bytes@)
        },
{
    hound::WavReader::new(std::io::Cursor::new(bytes.to_vec()))
}

/// `hound::WavReader::spec`: the header the reader was opened with.
#[verifier::external_body]
fn reader_spec(reader: &hound::WavReader<std::io::Cursor<Vec<u8>>>) -> (s: WavSpec)
    ensures
        s.model() == reader_header(*reader),
{
    let spec = reader.spec();
    WavSpec {
        channels: spec.channels,
        sample_rate: spec.sample_rate,
        bits_per_sample: spec.bits_per_sample,
        sample_format: match spec.sample_format {
            hound::SampleFormat::Float => SampleFormat::Float,
            hound::SampleFormat::Int => SampleFormat::Int,
        },
    }
}

/// The next item of `hound::WavReader::samples::<i16>()`: the reader gives
/// its pending reads in order, one per call, and `None` once none is left.
/// The header does not change.
#[verifier::external_body]
fn next_i16(reader: &mut hound::WavReader<std::io::Cursor<Vec<u8>>>) -> (r: Option<Result<i16, hound::Error>>)
    ensures
        reader_header(*final(reader)) == reader_header(*old(reader)),
        reader_pending_i16(*old(reader)).len() == 0 ==> {
            &&& r is None
            &&& reader_pending_i16(*final(reader)) == reader_pending_i16(*old(reader))
        },
        reader_pending_i16(*old(reader)).len() > 0 ==> {
            &&& reader_pending_i16(*final(reader)) == reader_pending_i16(*old(reader)).drop_first()
            &&& match r {
                Some(Ok(sample)) => reader_pending_i16(*old(reader))[0] == Some(sample),
                Some(Err(_)) => reader_pending_i16(*old(reader))[0] is None,
                None => false,
            }
        },
{
    reader.samples::<i16>().next()
}

/// Maps a `hound::Error` to this crate's error, variant by variant.
#[verifier::external_body]
fn wav_error_from(e: hound::Error) -> WavError {
    match e {
        hound::Error::IoError(_) => WavError::Io,
        hound::Error::FormatError(msg) => WavError::Format(msg.to_string()),
        hound::Error::TooWide => WavError::TooWide,
        hound::Error::UnfinishedSample => WavError::UnfinishedSample,
        hound::Error::Unsupported => WavError::Unsupported,
        hound::Error::InvalidSampleFormat => WavError::InvalidSampleFormat,
    }
}

/// The most samples a mono 16-bit WAV file can hold: its data and the
/// 36 header bytes counted in the RIFF size must fit in 32 bits.
pub const MAX_MONO_PCM16_SAMPLES: usize = 2147483629;

/// The sample rate of the audio the daemon transcribes.
pub const TRANSCRIBE_SAMPLE_RATE: u32 = 16000;

/// `hound::WavWriter::new` over an in-memory buffer, `write_sample` for each
/// sample in order, then `finalize`; the buffer's bytes. For mono 16-bit
/// integer PCM at a rate that keeps the byte rate within 32 bits, and within
/// the 32-bit data size, no step can fail. The bytes are a plain PCM WAV file
/// that `hound` reads back with the same header and exactly these samples.
#[verifier::external_body]
fn write_wav_i16(spec: WavSpec, samples: &[i16]) -> (r: Result<Vec<u8>, hound::Error>)
    requires
        spec.channels == 1,
        spec.bits_per_sample == 16,
        spec.sample_format is Int,
        0 < spec.sample_rate <= 0x7fff_ffff,
        samples@.len() <= MAX_MONO_PCM16_SAMPLES,
    ensures
        r is Ok,
        r matches Ok(bytes) ==> hound_header(bytes@) == Some(spec.model()),
        r matches Ok(bytes) ==> hound_i16_reads(bytes@) == samples@.map_values(|s: i16| Some(s)),
{
    let hound_spec = hound::WavSpec {
        channels: spec.channels,
        sample_rate: spec.sample_rate,
        bits_per_sample: spec.bits_per_sample,
        sample_format: hound::SampleFormat::Int,
    };
    let mut buf = Vec::new();
    let mut writer = hound::WavWriter::new(std::io::Cursor::new(&mut buf), hound_spec)?;
    for &sample in samples {
        writer.write_sample(sample)?;
    }
    writer.finalize()?;
    Ok(buf)
}

/// The samples that were read successfully, in order.
pub open spec fn successful_reads(reads: Seq<Option<i16>>) -> Seq<i16>
    decreases reads.len(),
{
    if reads.len() == 0 {
        Seq::empty()
    } else {
        let rest = successful_reads(reads.drop_last());
        match reads.last() {
            Some(s) => rest.push(s),
            None => rest,
        }
    }
}

/// Keeps the samples that were read successfully, in order, and drops the
/// failed reads.
pub fn keep_successful(reads: &Vec<Option<i16>>) -> (samples: Vec<i16>)
    ensures
        samples@ == successful_reads(reads@),
{
    let mut samples: Vec<i16> = Vec::new();
    let n = reads.len();
    for i in 0..n
        invariant
            n == reads@.len(),
            samples@ == successful_reads(reads@.take(i as int)),
    {
        assert(reads@.take(i + 1).drop_last() == reads@.take(i as int));
        match reads[i] {
            Some(s) => samples.push(s),
            None => {},
        }
    }
    assert(reads@.take(n as int) == reads@);
    samples
}

/// Reads the header of a WAV payload.
pub fn read_wav_spec(bytes: &[u8]) -> (r: Result<WavSpec, WavError>)
    ensures
        r is Ok <==> hound_header(bytes@) is Some,
        r matches Ok(spec) ==> spec.model() == hound_header(bytes@)->0,
{
    match open_reader(bytes) {
        Ok(reader) => Ok(reader_spec(&reader)),
        Err(e) => Err(wav_error_from(e)),
    }
}

/// What `read_wav` gives for `bytes` when it succeeds: the header that
/// `hound` reads, and for integer PCM the samples that decode as `i16`, in
/// order.
pub open spec fn reads_as(bytes: Seq<u8>, content: WavContent) -> bool {
    match content {
        WavContent::Int { spec, samples } => {
            &&& spec.model() == hound_header(bytes)->0
            &&& spec.sample_format is Int
            &&& samples@ == successful_reads(hound_i16_reads(bytes))
        },
        WavContent::Float { spec } => {
            &&& spec.model() == hound_header(bytes)->0
            &&& spec.sample_format is Float
        },
    }
}

/// Whether a header describes a payload this crate accepts: float samples,
/// or integer samples of at most 16 bits (8 or 16), which read as `i16`.
pub open spec fn supported_header(header: (u16, u32, u16, bool)) -> bool {
    let (channels, sample_rate, bits_per_sample, is_float) = header;
    is_float || bits_per_sample <= 16
}

/// Which payloads are accepted depends only on how samples are stored:
/// every float header and every integer header of 8 or 16 bits is
/// supported, whatever its channel count and sample rate, and no integer
/// header wider than 16 bits is.
pub proof fn lemma_acceptance_depends_on_sample_storage(
    channels: u16,
    other_channels: u16,
    sample_rate: u32,
    other_rate: u32,
    bits_per_sample: u16,
    is_float: bool,
)
    ensures
        supported_header((channels, sample_rate, bits_per_sample, is_float))
            == supported_header((other_channels, other_rate, bits_per_sample, is_float)),
        supported_header((channels, sample_rate, bits_per_sample, true)),
        supported_header((channels, sample_rate, 8u16, false)),
        supported_header((channels, sample_rate, 16u16, false)),
        bits_per_sample > 16 ==> !supported_header((channels, sample_rate, bits_per_sample, false)),
{
}

/// Reads a WAV payload: the header, and for integer PCM every sample that
/// decodes as a 16-bit value (samples that fail to decode are skipped).
/// Integer PCM wider than 16 bits is refused as `TooWide`.
pub fn read_wav(bytes: &[u8]) -> (r: Result<WavContent, WavError>)
    ensures
        r is Ok <==> (hound_header(bytes@) matches Some(h) && supported_header(h)),
        r matches Ok(content) ==> reads_as(bytes@, content),
        (hound_header(bytes@) matches Some(h) && !supported_header(h)) ==> r == Err::<WavContent, WavError>(
            WavError::TooWide,
        ),
{
    let mut reader = match open_reader(bytes) {
        Ok(reader) => reader,
        Err(e) => return Err(wav_error_from(e)),
    };
    let spec = reader_spec(&reader);
    match spec.sample_format {
        SampleFormat::Float => Ok(WavContent::Float { spec }),
        SampleFormat::Int => {
            if spec.bits_per_sample > 16 {
                return Err(WavError::TooWide);
            }
            let mut reads: Vec<Option<i16>> = Vec::new();
            loop
                invariant
                    reader_header(reader) == hound_header(bytes@)->0,
                    reads@ + reader_pending_i16(reader) == hound_i16_reads(bytes@),
                ensures
                    reads@ == hound_i16_reads(bytes@),
                decreases reader_pending_i16(reader).len(),
            {
                let ghost before = reader_pending_i16(reader);
                match next_i16(&mut reader) {
                    None => break,
                    Some(Ok(sample)) => reads.push(Some(sample)),
                    Some(Err(_)) => reads.push(None),
                }
                assert(reads@ + reader_pending_i16(reader) == hound_i16_reads(bytes@)) by {
                    assert(before == seq![before[0]] + before.drop_first());
                }
            }
            let samples = keep_successful(&reads);
            Ok(WavContent::Int { spec, samples })
        },
    }
}

/// Where every read succeeds, the successful reads are all the samples.
pub proof fn lemma_all_reads_succeed(samples: Seq<i16>)
    ensures
        successful_reads(samples.map_values(|s: i16| Some(s))) == samples,
    decreases samples.len(),
{
    let reads = samples.map_values(|s: i16| Some(s));
    if samples.len() > 0 {
        lemma_all_reads_succeed(samples.drop_last());
        assert(reads.drop_last() == samples.drop_last().map_values(|s: i16| Some(s)));
        assert(samples.drop_last().push(samples.last()) == samples);
    }
}

/// Encodes samples as the WAV file the client sends: mono, 16 kHz, 16-bit
/// integer PCM. Reading the bytes back gives that header and exactly these
/// samples: `read_wav` accepts them as integer content holding `samples`.
pub fn encode_pcm16_mono_16k(samples: &[i16]) -> (bytes: Vec<u8>)
    requires
        samples@.len() <= MAX_MONO_PCM16_SAMPLES,
    ensures
        hound_header(bytes@) == Some((1u16, 16000u32, 16u16, false)),
        hound_i16_reads(bytes@) == samples@.map_values(|s: i16| Some(s)),
        supported_header(hound_header(bytes@)->0),
        successful_reads(hound_i16_reads(bytes@)) == samples@,
{
    let spec = WavSpec {
        channels: 1,
        sample_rate: TRANSCRIBE_SAMPLE_RATE,
        bits_per_sample: 16,
        sample_format: SampleFormat::Int,
    };
    let r = write_wav_i16(spec, samples);
    proof {
        lemma_all_reads_succeed(samples@);
    }
    match r {
        Ok(bytes) => bytes,
        Err(_) => Vec::new(),
    }
}

/// Encoding then reading gives the samples back: for the bytes that
/// `encode_pcm16_mono_16k` gives for `samples`, `read_wav` succeeds, and
/// whatever it returns is integer content with the mono, 16 kHz, 16-bit
/// header holding exactly `samples`.
pub proof fn lemma_encode_read_round_trip(samples: Seq<i16>, bytes: Seq<u8>, content: WavContent)
    requires
        hound_header(bytes) == Some((1u16, 16000u32, 16u16, false)),
        hound_i16_reads(bytes) == samples.map_values(|s: i16| Some(s)),
        reads_as(bytes, content),
    ensures
        supported_header(hound_header(bytes)->0),
        content matches WavContent::Int { spec, samples: read } && spec.model() == (1u16, 16000u32, 16u16, false)
            && read@ == samples,
{
    lemma_all_reads_succeed(samples);
}

} // verus!
