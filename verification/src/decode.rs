//! Format detection and PCM decoding.
//!
//! Decoding always yields mono samples at 16 kHz: integer PCM is scaled to
//! full range by its bit depth, channels are mixed down and the rate is
//! converted as needed.
use crate::error::ErrorKind;
use crate::resample::{
    downmix, downmixed, lemma_resample_halves, resample_audio, resampled, resampled_len,
};
use crate::text::{decimal, lowercase, str_eq, to_decimal, to_lowercase};
use vstd::arithmetic::power2::*;
use vstd::prelude::*;

verus! {

/// Sample rate that the recognition engine expects.
pub const TARGET_SAMPLE_RATE: u32 = 16000;

/// How a WAV file stores its samples.
#[derive(Clone, Copy, Debug, PartialEq, Eq, Structural)]
pub enum SampleFormat {
    /// IEEE floating point.
    Float,
    /// Signed integer PCM.
    Int,
}

/// The header of a WAV file.
#[derive(Clone, Copy, Debug, PartialEq, Eq, Structural)]
pub struct WavSpec {
    /// Number of interleaved channels.
    pub channels: u16,
    /// Frames per second.
    pub sample_rate: u32,
    /// Bits of one sample.
    pub bits_per_sample: u16,
    /// Integer or floating point.
    pub sample_format: SampleFormat,
}

/// An audio container that the pipeline accepts.
#[derive(Clone, Copy, Debug, PartialEq, Eq, Structural)]
pub enum AudioFormat {
    Mp3,
    Wav,
    M4a,
    Webm,
}

/// Why an audio file was turned away before it was read.
#[derive(Clone, Debug, PartialEq, Eq)]
pub enum AudioFileError {
    /// The path names no extension.
    NoExtension,
    /// The extension, given in lower case, is none of the supported ones.
    UnsupportedFormat(String),
    /// No file is at the path.
    FileMissing,
}

/// Why samples could not be decoded.
#[derive(Clone, Copy, Debug, PartialEq, Eq, Structural)]
pub enum DecodeError {
    /// Integer PCM of zero bits or of more than 32.
    UnsupportedBitDepth,
    /// A sample rate of zero on a file that holds samples.
    InvalidSampleRate,
    /// The converted audio would hold more samples than can be addressed.
    TooLong,
}

/// How a run of the external converter ended.
#[derive(Debug, Clone, PartialEq, Eq)]
pub enum ConverterRun {
    /// The converter is not installed.
    NotFound,
    /// The converter could not be started; the cause is given.
    LaunchFailed(String),
    /// The converter ran and failed; what it wrote to its error stream is
    /// given.
    Failed(String),
    /// The converter ran and wrote the WAV file.
    Succeeded,
}

/// Why a file could not be converted to WAV.
#[derive(Debug, Clone, PartialEq, Eq)]
pub enum ConvertError {
    /// The converter is not installed.
    ToolMissing,
    /// The converter could not be started.
    Launch(String),
    /// The converter failed.
    Failed(String),
}

/// Why the audio of a file could not be read.
#[derive(Debug, Clone, PartialEq, Eq)]
pub enum AudioReadError {
    /// The file could not be converted to WAV.
    Convert(ConvertError),
    /// The WAV file could not be opened.
    WavOpen(String),
    /// The samples could not be decoded.
    Decode(DecodeError),
}

/// The format that a lower-case extension stands for.
pub open spec fn format_of(extension: Seq<char>) -> Option<AudioFormat> {
    if extension == "mp3"@ {
        Some(AudioFormat::Mp3)
    } else if extension == "wav"@ {
        Some(AudioFormat::Wav)
    } else if extension == "m4a"@ {
        Some(AudioFormat::M4a)
    } else if extension == "webm"@ {
        Some(AudioFormat::Webm)
    } else {
        None
    }
}

/// An integer PCM sample of `bits` bits scaled to the full range of a
/// sample: the amplitude `value / 2^(bits - 1)`. A value that lies outside
/// the range of its bit depth is clamped to the nearest amplitude.
pub open spec fn normalized(value: i32, bits: nat) -> i32 {
    let scaled = value * pow2((32 - bits) as nat);
    if scaled < i32::MIN {
        i32::MIN
    } else if scaled > i32::MAX {
        i32::MAX
    } else {
        scaled as i32
    }
}

/// Each sample of `raw` scaled to full range.
pub open spec fn normalized_all(raw: Seq<i32>, bits: nat) -> Seq<i32> {
    Seq::new(raw.len(), |i: int| normalized(raw[i], bits))
}

/// The amplitudes that the stored samples of a file stand for. Samples of a
/// floating-point file are amplitudes already.
pub open spec fn amplitudes(spec: WavSpec, samples: Seq<i32>) -> Seq<i32> {
    match spec.sample_format {
        SampleFormat::Float => samples,
        SampleFormat::Int => normalized_all(samples, spec.bits_per_sample as nat),
    }
}

/// The stored samples of a file as one channel of amplitudes at its own rate.
pub open spec fn mono_amplitudes(spec: WavSpec, samples: Seq<i32>) -> Seq<i32> {
    downmixed(amplitudes(spec, samples), spec.channels as nat)
}

/// The stored samples of a file as mono amplitudes at 16 kHz.
pub open spec fn decoded(spec: WavSpec, samples: Seq<i32>) -> Seq<i32> {
    let mono = mono_amplitudes(spec, samples);
    if spec.sample_rate == TARGET_SAMPLE_RATE || mono.len() == 0 {
        mono
    } else {
        resampled(mono, spec.sample_rate as nat, TARGET_SAMPLE_RATE as nat)
    }
}

/// Whether the bit depth of the file can be decoded.
pub open spec fn bit_depth_supported(spec: WavSpec) -> bool {
    spec.sample_format is Float || 1 <= spec.bits_per_sample <= 32
}

/// The error, if any, that decoding the stored samples of a file meets.
pub open spec fn decode_failure(spec: WavSpec, samples: Seq<i32>) -> Option<DecodeError> {
    let mono = mono_amplitudes(spec, samples);
    if !bit_depth_supported(spec) {
        Some(DecodeError::UnsupportedBitDepth)
    } else if spec.sample_rate == TARGET_SAMPLE_RATE || mono.len() == 0 {
        None
    } else if spec.sample_rate == 0 {
        Some(DecodeError::InvalidSampleRate)
    } else if resampled_len(mono.len(), spec.sample_rate as nat, TARGET_SAMPLE_RATE as nat)
        > usize::MAX {
        Some(DecodeError::TooLong)
    } else {
        None
    }
}

/// A sample that lies within the range of its bit depth is scaled exactly.
pub proof fn lemma_normalized_exact(value: i32, bits: nat)
    requires
        1 <= bits <= 32,
        -pow2((bits - 1) as nat) <= value < pow2((bits - 1) as nat),
    ensures
        normalized(value, bits) == value * pow2((32 - bits) as nat),
        normalized(value, bits) * pow2((bits - 1) as nat) == value * pow2(31),
{
    let up = pow2((32 - bits) as nat);
    let half = pow2((bits - 1) as nat);
    lemma_pow2_adds((32 - bits) as nat, (bits - 1) as nat);
    lemma2_to64();
    lemma_pow2_pos((32 - bits) as nat);
    assert(-0x8000_0000 <= value * up < 0x8000_0000 && value * up * half == value * (up * half))
        by (nonlinear_arith)
        requires
            -half <= value < half,
            up * half == 0x8000_0000,
            up > 0,
    ;
}

/// One channel of integer PCM at twice the target rate decodes to half as
/// many samples, rounded down, and to as many as there were at the target
/// rate itself.
pub proof fn lemma_decoded_length(spec: WavSpec, samples: Seq<i32>)
    requires
        spec.channels == 1,
        spec.sample_format is Int,
    ensures
        spec.sample_rate == 2 * TARGET_SAMPLE_RATE ==> decoded(spec, samples).len()
            == samples.len() / 2,
        spec.sample_rate == TARGET_SAMPLE_RATE ==> decoded(spec, samples).len() == samples.len(),
{
    let mono = mono_amplitudes(spec, samples);
    assert(mono.len() == samples.len());
    if spec.sample_rate == 2 * TARGET_SAMPLE_RATE {
        lemma_resample_halves(mono, spec.sample_rate as nat, TARGET_SAMPLE_RATE as nat);
    }
}

impl AudioFileError {
    /// The kind of the failure: the file is turned away before it is read.
    pub fn kind(&self) -> (kind: ErrorKind)
        ensures
            kind == ErrorKind::Validation,
    {
        ErrorKind::Validation
    }

    /// The message shown to the user.
    pub open spec fn spec_message(&self) -> Seq<char> {
        match *self {
            AudioFileError::NoExtension => "File has no extension"@,
            AudioFileError::UnsupportedFormat(extension) => "Unsupported file format: ."@
                + extension@ + ". Supported formats: mp3, wav, m4a, webm"@,
            AudioFileError::FileMissing => "File does not exist"@,
        }
    }

    /// The message shown to the user.
    pub fn message(&self) -> (text: String)
        ensures
            text@ == self.spec_message(),
    {
        match self {
            AudioFileError::NoExtension => "File has no extension".to_string(),
            AudioFileError::UnsupportedFormat(extension) => {
                let mut text = "Unsupported file format: .".to_string();
                text.append(extension.as_str());
                text.append(". Supported formats: mp3, wav, m4a, webm");
                text
            },
            AudioFileError::FileMissing => "File does not exist".to_string(),
        }
    }
}

impl ConvertError {
    /// The kind of the failure: the external converter is missing or failed.
    pub fn kind(&self) -> (kind: ErrorKind)
        ensures
            kind == ErrorKind::ExternalTool,
    {
        ErrorKind::ExternalTool
    }

    /// The message shown to the user. A missing converter is met with a
    /// hint at how to install it.
    pub open spec fn spec_message(&self) -> Seq<char> {
        match *self {
            ConvertError::ToolMissing =>
                "ffmpeg가 설치되어 있지 않습니다. WebM 파일 변환을 위해 ffmpeg를 설치해주세요.\n\nbrew install ffmpeg"@,
            ConvertError::Launch(cause) => "ffmpeg 실행 실패: "@ + cause@,
            ConvertError::Failed(said) => "ffmpeg 변환 실패: "@ + said@,
        }
    }

    /// The message shown to the user.
    pub fn message(&self) -> (text: String)
        ensures
            text@ == self.spec_message(),
    {
        match self {
            ConvertError::ToolMissing => {
                "ffmpeg가 설치되어 있지 않습니다. WebM 파일 변환을 위해 ffmpeg를 설치해주세요.\n\nbrew install ffmpeg".to_string()
            },
            ConvertError::Launch(cause) => {
                let mut text = "ffmpeg 실행 실패: ".to_string();
                text.append(cause.as_str());
                text
            },
            ConvertError::Failed(said) => {
                let mut text = "ffmpeg 변환 실패: ".to_string();
                text.append(said.as_str());
                text
            },
        }
    }
}

impl AudioReadError {
    /// The message shown to the user.
    pub open spec fn spec_message(&self) -> Seq<char> {
        match *self {
            AudioReadError::Convert(inner) => inner.spec_message(),
            AudioReadError::WavOpen(cause) => "WAV 파일 열기 실패: "@ + cause@,
            AudioReadError::Decode(inner) => inner.spec_message(),
        }
    }

    /// The message shown to the user.
    pub fn message(&self) -> (text: String)
        ensures
            text@ == self.spec_message(),
    {
        match self {
            AudioReadError::Convert(inner) => inner.message(),
            AudioReadError::WavOpen(cause) => {
                let mut text = "WAV 파일 열기 실패: ".to_string();
                text.append(cause.as_str());
                text
            },
            AudioReadError::Decode(inner) => inner.message(),
        }
    }

    /// The kind of the failure.
    pub fn kind(&self) -> (kind: ErrorKind)
        ensures
            kind == match *self {
                AudioReadError::Convert(_) => ErrorKind::ExternalTool,
                AudioReadError::WavOpen(_) => ErrorKind::Io,
                AudioReadError::Decode(_) => ErrorKind::Validation,
            },
    {
        match self {
            AudioReadError::Convert(inner) => inner.kind(),
            AudioReadError::WavOpen(_) => ErrorKind::Io,
            AudioReadError::Decode(inner) => inner.kind(),
        }
    }
}

impl DecodeError {
    /// The kind of the failure: the file holds what cannot be decoded.
    pub fn kind(&self) -> (kind: ErrorKind)
        ensures
            kind == ErrorKind::Validation,
    {
        ErrorKind::Validation
    }

    /// The message shown to the user.
    pub open spec fn spec_message(&self) -> Seq<char> {
        match *self {
            DecodeError::UnsupportedBitDepth => "Unsupported bit depth"@,
            DecodeError::InvalidSampleRate => "Invalid sample rate"@,
            DecodeError::TooLong => "Audio is too long"@,
        }
    }

    /// The message shown to the user.
    pub fn message(&self) -> (text: String)
        ensures
            text@ == self.spec_message(),
    {
        match self {
            DecodeError::UnsupportedBitDepth => "Unsupported bit depth".to_string(),
            DecodeError::InvalidSampleRate => "Invalid sample rate".to_string(),
            DecodeError::TooLong => "Audio is too long".to_string(),
        }
    }
}

/// The format that a lower-case extension stands for, if it is supported.
pub fn audio_format(extension: &str) -> (format: Option<AudioFormat>)
    ensures
        format == format_of(extension@),
{
    if str_eq(extension, "mp3") {
        Some(AudioFormat::Mp3)
    } else if str_eq(extension, "wav") {
        Some(AudioFormat::Wav)
    } else if str_eq(extension, "m4a") {
        Some(AudioFormat::M4a)
    } else if str_eq(extension, "webm") {
        Some(AudioFormat::Webm)
    } else {
        None
    }
}

/// Judges the extension of a path, whatever its case, without touching the
/// file.
pub fn check_extension(extension: Option<&str>) -> (verdict: Result<AudioFormat, AudioFileError>)
    ensures
        match extension {
            None => verdict == Err::<AudioFormat, AudioFileError>(AudioFileError::NoExtension),
            Some(e) => match format_of(lowercase(e@)) {
                Some(format) => verdict == Ok::<AudioFormat, AudioFileError>(format),
                None => verdict matches Err(AudioFileError::UnsupportedFormat(shown))
                    && shown@ == lowercase(e@),
            },
        },
{
    match extension {
        None => Err(AudioFileError::NoExtension),
        Some(e) => {
            let lower = to_lowercase(e);
            match audio_format(lower.as_str()) {
                Some(format) => Ok(format),
                None => Err(AudioFileError::UnsupportedFormat(lower)),
            }
        },
    }
}

/// Validates an audio file by its extension and by whether it exists. The
/// extension is judged first: `exists` matters only for a supported one.
pub fn validate_audio_file(extension: Option<&str>, exists: bool) -> (verdict: Result<
    bool,
    AudioFileError,
>)
    ensures
        match extension {
            None => verdict == Err::<bool, AudioFileError>(AudioFileError::NoExtension),
            Some(e) => match format_of(lowercase(e@)) {
                Some(format) => if exists {
                    verdict == Ok::<bool, AudioFileError>(true)
                } else {
                    verdict == Err::<bool, AudioFileError>(AudioFileError::FileMissing)
                },
                None => verdict matches Err(AudioFileError::UnsupportedFormat(shown))
                    && shown@ == lowercase(e@),
            },
        },
{
    match check_extension(extension) {
        Err(e) => Err(e),
        Ok(_) => if exists {
            Ok(true)
        } else {
            Err(AudioFileError::FileMissing)
        },
    }
}

/// Whether a file with this lower-case extension must be converted to WAV
/// before it can be decoded. Only WAV is decoded directly.
pub fn needs_conversion(extension: &str) -> (convert: bool)
    ensures
        convert == (extension@ != "wav"@),
{
    !str_eq(extension, "wav")
}

/// The name of the WAV file into which a file is converted `timestamp`
/// milliseconds after the Unix epoch.
pub fn temp_wav_name(timestamp: u128) -> (name: String)
    ensures
        name@ == "whisper_temp_"@ + decimal(timestamp as nat) + ".wav"@,
{
    let mut name = "whisper_temp_".to_string();
    name.append(to_decimal(timestamp).as_str());
    name.append(".wav");
    name
}

/// The arguments with which the converter turns `input` into a mono WAV
/// file of 16 kHz at `output`, overwriting what is there.
pub fn convert_to_wav_with_ffmpeg(input: &str, output: &str) -> (arguments: Vec<String>)
    ensures
        arguments@.len() == 10,
        arguments@[0]@ == "-i"@,
        arguments@[1]@ == input@,
        arguments@[2]@ == "-ar"@,
        arguments@[3]@ == "16000"@,
        arguments@[4]@ == "-ac"@,
        arguments@[5]@ == "1"@,
        arguments@[6]@ == "-f"@,
        arguments@[7]@ == "wav"@,
        arguments@[8]@ == "-y"@,
        arguments@[9]@ == output@,
{
    let mut arguments: Vec<String> = Vec::new();
    arguments.push("-i".to_string());
    arguments.push(input.to_string());
    arguments.push("-ar".to_string());
    arguments.push("16000".to_string());
    arguments.push("-ac".to_string());
    arguments.push("1".to_string());
    arguments.push("-f".to_string());
    arguments.push("wav".to_string());
    arguments.push("-y".to_string());
    arguments.push(output.to_string());
    arguments
}

/// What a run of the converter means.
pub fn conversion_verdict(run: ConverterRun) -> (result: Result<(), ConvertError>)
    ensures
        result == match run {
            ConverterRun::NotFound => Err::<(), ConvertError>(ConvertError::ToolMissing),
            ConverterRun::LaunchFailed(cause) => Err::<(), ConvertError>(
                ConvertError::Launch(cause),
            ),
            ConverterRun::Failed(said) => Err::<(), ConvertError>(ConvertError::Failed(said)),
            ConverterRun::Succeeded => Ok::<(), ConvertError>(()),
        },
{
    match run {
        ConverterRun::NotFound => Err(ConvertError::ToolMissing),
        ConverterRun::LaunchFailed(cause) => Err(ConvertError::Launch(cause)),
        ConverterRun::Failed(said) => Err(ConvertError::Failed(said)),
        ConverterRun::Succeeded => Ok(()),
    }
}

/// Decodes what was read of a WAV file: its samples, or why it could not be
/// opened.
pub fn read_wav_file(opened: Result<(WavSpec, Vec<i32>), String>) -> (result: Result<
    Vec<i32>,
    AudioReadError,
>)
    ensures
        match opened {
            Err(cause) => result == Err::<Vec<i32>, AudioReadError>(
                AudioReadError::WavOpen(cause),
            ),
            Ok((spec, samples)) => match decode_failure(spec, samples@) {
                Some(error) => result == Err::<Vec<i32>, AudioReadError>(
                    AudioReadError::Decode(error),
                ),
                None => result is Ok && result->Ok_0@ == decoded(spec, samples@),
            },
        },
{
    match opened {
        Err(cause) => Err(AudioReadError::WavOpen(cause)),
        Ok((spec, samples)) => match decode_pcm(&spec, samples) {
            Ok(decoded) => Ok(decoded),
            Err(error) => Err(AudioReadError::Decode(error)),
        },
    }
}

/// The factor that scales samples of `bits` bits to full range.
fn scale_factor(bits: u16) -> (factor: i64)
    requires
        1 <= bits <= 32,
    ensures
        factor == pow2((32 - bits) as nat),
        1 <= factor <= 0x8000_0000,
{
    let shift: u16 = 32 - bits;
    let mut factor: i64 = 1;
    let mut k: u16 = 0;
    proof {
        lemma2_to64();
    }
    while k < shift
        invariant
            0 <= k <= shift <= 31,
            factor == pow2(k as nat),
            1 <= factor <= 0x8000_0000,
        decreases shift - k,
    {
        proof {
            lemma_pow2_unfold((k + 1) as nat);
            lemma2_to64();
            if k + 1 < 31 {
                lemma_pow2_strictly_increases((k + 1) as nat, 31);
            }
        }
        factor = factor * 2;
        k = k + 1;
    }
    factor
}

/// Scales each integer PCM sample of `bits` bits to full range.
pub fn normalize_pcm(raw: &[i32], bits: u16) -> (out: Vec<i32>)
    requires
        1 <= bits <= 32,
    ensures
        out@ == normalized_all(raw@, bits as nat),
{
    let factor = scale_factor(bits);
    let mut out: Vec<i32> = Vec::new();
    let mut i: usize = 0;
    while i < raw.len()
        invariant
            0 <= i <= raw@.len(),
            factor == pow2((32 - bits) as nat),
            1 <= factor <= 0x8000_0000,
            out@ == normalized_all(raw@, bits as nat).subrange(0, i as int),
        decreases raw.len() - i,
    {
        let value: i64 = raw[i] as i64;
        proof {
            assert(-0x8000_0000 * 0x8000_0000 <= value * factor <= 0x8000_0000 * 0x8000_0000)
                by (nonlinear_arith)
                requires
                    -0x8000_0000 <= value <= 0x7fff_ffff,
                    1 <= factor <= 0x8000_0000,
            ;
        }
        let scaled: i64 = value * factor;
        let sample: i32 = if scaled < -0x8000_0000 {
            -0x8000_0000
        } else if scaled > 0x7fff_ffff {
            0x7fff_ffff
        } else {
            scaled as i32
        };
        out.push(sample);
        i = i + 1;
        proof {
            assert(out@ =~= normalized_all(raw@, bits as nat).subrange(0, i as int));
        }
    }
    proof {
        assert(out@ =~= normalized_all(raw@, bits as nat));
    }
    out
}

/// Decodes the stored samples of a WAV file to mono amplitudes at 16 kHz.
///
/// `samples` holds the interleaved samples as the file stores them: integer
/// PCM as it stands, floating-point samples as amplitudes.
pub fn decode_pcm(spec: &WavSpec, samples: Vec<i32>) -> (result: Result<Vec<i32>, DecodeError>)
    ensures
        match decode_failure(*spec, samples@) {
            Some(error) => result == Err::<Vec<i32>, DecodeError>(error),
            None => result is Ok && result->Ok_0@ == decoded(*spec, samples@),
        },
{
    let amplitudes = match spec.sample_format {
        SampleFormat::Float => samples,
        SampleFormat::Int => {
            if spec.bits_per_sample == 0 || spec.bits_per_sample > 32 {
                return Err(DecodeError::UnsupportedBitDepth);
            }
            normalize_pcm(samples.as_slice(), spec.bits_per_sample)
        },
    };
    let mono = downmix(amplitudes, spec.channels);
    if spec.sample_rate == TARGET_SAMPLE_RATE || mono.len() == 0 {
        return Ok(mono);
    }
    if spec.sample_rate == 0 {
        return Err(DecodeError::InvalidSampleRate);
    }
    proof {
        assert(mono@.len() * 16000 <= 0x1_0000_0000_0000_0000 * 16000) by (nonlinear_arith)
            requires
                mono@.len() <= 0x1_0000_0000_0000_0000,
        ;
    }
    let length: u128 = mono.len() as u128 * TARGET_SAMPLE_RATE as u128 / spec.sample_rate as u128;
    if length > usize::MAX as u128 {
        return Err(DecodeError::TooLong);
    }
    Ok(resample_audio(mono.as_slice(), spec.sample_rate, TARGET_SAMPLE_RATE))
}

} // verus!
