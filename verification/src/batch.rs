//! One-shot transcription of an audio file.
//!
//! A run walks through its stages in order and never back. Entering a stage
//! is announced with a milestone. The cancellation flag is looked at only
//! between stages, never while the engine runs.
use crate::decode::{format_of, validate_audio_file, AudioFileError, AudioReadError};
use crate::error::ErrorKind;
use crate::model::{installed_model_path, ModelError, ModelStatus};
use crate::text::{join_segments, joined, lowercase, trim, trimmed};
use vstd::prelude::*;

verus! {

/// Progress of a run: a milestone in percent and what is being done.
#[derive(Debug, Clone, PartialEq, Eq)]
pub struct TranscriptionProgress {
    pub progress: u8,
    pub message: Option<String>,
}

/// What a run yields.
#[derive(Debug, Clone, PartialEq, Eq)]
pub struct TranscriptionResult {
    pub text: String,
    pub duration_ms: u64,
}

/// The stages of a run, in order.
#[derive(Debug, Clone, Copy, PartialEq, Eq, Structural)]
pub enum BatchStage {
    /// The file and the model are checked.
    Validating,
    /// The audio file is read and decoded.
    Loading,
    /// The audio is decoded; the engine is loaded.
    Decoding,
    /// The engine runs on the whole audio.
    Inferring,
    /// The recognised segments are collected.
    Collecting,
    /// The run is over.
    Done,
}

/// Why a run failed.
#[derive(Debug, Clone, PartialEq, Eq)]
pub enum BatchError {
    /// The file was turned away.
    File(AudioFileError),
    /// The model cannot be used.
    Model(ModelError),
    /// The audio could not be read.
    AudioRead(AudioReadError),
    /// The cancellation flag was seen between two stages.
    Cancelled,
    /// The engine could not be loaded.
    EngineLoad(String),
    /// The engine could not set up a recognition state.
    StateCreation(String),
    /// The engine ran and failed.
    Inference(String),
    /// The engine could not say how many segments it recognised.
    SegmentCount(String),
}

/// The stage that follows `stage`.
pub open spec fn following(stage: BatchStage) -> BatchStage {
    match stage {
        BatchStage::Validating => BatchStage::Loading,
        BatchStage::Loading => BatchStage::Decoding,
        BatchStage::Decoding => BatchStage::Inferring,
        BatchStage::Inferring => BatchStage::Collecting,
        BatchStage::Collecting => BatchStage::Done,
        BatchStage::Done => BatchStage::Done,
    }
}

/// Position of a stage in the order of stages.
pub open spec fn rank(stage: BatchStage) -> nat {
    match stage {
        BatchStage::Validating => 0,
        BatchStage::Loading => 1,
        BatchStage::Decoding => 2,
        BatchStage::Inferring => 3,
        BatchStage::Collecting => 4,
        BatchStage::Done => 5,
    }
}

/// The milestone, in percent, announced on entering `stage`. A run begins
/// in its first stage, which nothing announces.
pub open spec fn milestone(stage: BatchStage) -> u8 {
    match stage {
        BatchStage::Validating => 0,
        BatchStage::Loading => 0,
        BatchStage::Decoding => 10,
        BatchStage::Inferring => 20,
        BatchStage::Collecting => 90,
        BatchStage::Done => 100,
    }
}

/// What is announced on entering `stage`.
pub open spec fn label(stage: BatchStage) -> Seq<char> {
    match stage {
        BatchStage::Validating => Seq::empty(),
        BatchStage::Loading => "Loading audio file..."@,
        BatchStage::Decoding => "Loading Whisper model..."@,
        BatchStage::Inferring => "Transcribing audio..."@,
        BatchStage::Collecting => "Collecting results..."@,
        BatchStage::Done => "Transcription complete"@,
    }
}

/// Whether the cancellation flag is looked at on leaving `stage`: after the
/// audio was read, after the engine was loaded and after the engine ran.
pub open spec fn polls_on_leaving(stage: BatchStage) -> bool {
    stage is Loading || stage is Decoding || stage is Inferring
}

/// The text of a run: each recognised segment followed by a space, the
/// whole trimmed.
pub open spec fn transcript(segments: Seq<Option<String>>) -> Seq<char> {
    trimmed(joined(segments, " "@))
}

/// Stages follow each other strictly in order: no step leads back, and
/// every step before the last leads one stage on.
pub proof fn lemma_stages_in_order(stage: BatchStage)
    ensures
        rank(following(stage)) >= rank(stage),
        !(stage is Done) ==> rank(following(stage)) == rank(stage) + 1,
        milestone(following(stage)) >= milestone(stage),
{
}

impl BatchError {
    /// The message shown to the user.
    pub fn message(&self) -> (text: String)
        ensures
            match *self {
                BatchError::File(inner) => text@ == inner.spec_message(),
                BatchError::Model(inner) => text@ == inner.spec_message(),
                BatchError::AudioRead(inner) => text@ == "오디오 파일 읽기 실패: "@
                    + inner.spec_message(),
                BatchError::Cancelled => text@ == "Transcription cancelled"@,
                BatchError::EngineLoad(cause) => text@ == "Failed to load Whisper model: "@
                    + cause@,
                BatchError::StateCreation(cause) => text@ == "Failed to create state: "@ + cause@,
                BatchError::Inference(cause) => text@ == "Transcription failed: "@ + cause@,
                BatchError::SegmentCount(cause) => text@ == "Failed to get segments: "@ + cause@,
            },
    {
        match self {
            BatchError::File(inner) => inner.message(),
            BatchError::Model(inner) => inner.message(),
            BatchError::AudioRead(inner) => prefixed("오디오 파일 읽기 실패: ", &inner.message()),
            BatchError::Cancelled => "Transcription cancelled".to_string(),
            BatchError::EngineLoad(cause) => prefixed("Failed to load Whisper model: ", cause),
            BatchError::StateCreation(cause) => prefixed("Failed to create state: ", cause),
            BatchError::Inference(cause) => prefixed("Transcription failed: ", cause),
            BatchError::SegmentCount(cause) => prefixed("Failed to get segments: ", cause),
        }
    }

    /// The kind of the failure.
    pub fn kind(&self) -> (kind: ErrorKind)
        ensures
            kind == match *self {
                BatchError::File(_) => ErrorKind::Validation,
                BatchError::Model(_) => ErrorKind::Resource,
                BatchError::AudioRead(AudioReadError::Convert(_)) => ErrorKind::ExternalTool,
                BatchError::AudioRead(AudioReadError::WavOpen(_)) => ErrorKind::Io,
                BatchError::AudioRead(AudioReadError::Decode(_)) => ErrorKind::Validation,
                BatchError::Cancelled => ErrorKind::Cancellation,
                BatchError::EngineLoad(_) => ErrorKind::Inference,
                BatchError::StateCreation(_) => ErrorKind::Inference,
                BatchError::Inference(_) => ErrorKind::Inference,
                BatchError::SegmentCount(_) => ErrorKind::Inference,
            },
    {
        match self {
            BatchError::File(inner) => inner.kind(),
            BatchError::Model(inner) => inner.kind(),
            BatchError::AudioRead(inner) => inner.kind(),
            BatchError::Cancelled => ErrorKind::Cancellation,
            BatchError::EngineLoad(_) => ErrorKind::Inference,
            BatchError::StateCreation(_) => ErrorKind::Inference,
            BatchError::Inference(_) => ErrorKind::Inference,
            BatchError::SegmentCount(_) => ErrorKind::Inference,
        }
    }
}

/// `head` followed by `cause`.
fn prefixed(head: &str, cause: &String) -> (text: String)
    ensures
        text@ == head@ + cause@,
{
    let mut text = head.to_string();
    text.append(cause.as_str());
    text
}

/// Checks a request before any work is done: first the file, by its
/// extension and by whether it exists, then the model. Yields the path from
/// which the engine is to be loaded.
pub fn validate_request(extension: Option<&str>, exists: bool, model: &ModelStatus) -> (result:
    Result<String, BatchError>)
    ensures
        match extension {
            None => result == Err::<String, BatchError>(
                BatchError::File(AudioFileError::NoExtension),
            ),
            Some(e) => if format_of(lowercase(e@)) is None {
                result matches Err(BatchError::File(AudioFileError::UnsupportedFormat(shown)))
                    && shown@ == lowercase(e@)
            } else if !exists {
                result == Err::<String, BatchError>(BatchError::File(AudioFileError::FileMissing))
            } else if !model.is_installed {
                result == Err::<String, BatchError>(BatchError::Model(ModelError::NotInstalled))
            } else if model.model_path is None {
                result == Err::<String, BatchError>(BatchError::Model(ModelError::PathMissing))
            } else {
                result is Ok && result->Ok_0@ == model.model_path->Some_0@
            },
        },
{
    match validate_audio_file(extension, exists) {
        Err(error) => {
            return Err(BatchError::File(error));
        },
        Ok(_) => {},
    }
    match installed_model_path(model) {
        Err(error) => Err(BatchError::Model(error)),
        Ok(path) => Ok(path),
    }
}

/// The announcement made on entering `stage`.
fn announce(stage: BatchStage) -> (progress: TranscriptionProgress)
    requires
        !(stage is Validating),
    ensures
        progress.progress == milestone(stage),
        progress.message is Some,
        progress.message->Some_0@ == label(stage),
{
    let (progress, message) = match stage {
        BatchStage::Validating | BatchStage::Loading => (0u8, "Loading audio file..."),
        BatchStage::Decoding => (10u8, "Loading Whisper model..."),
        BatchStage::Inferring => (20u8, "Transcribing audio..."),
        BatchStage::Collecting => (90u8, "Collecting results..."),
        BatchStage::Done => (100u8, "Transcription complete"),
    };
    TranscriptionProgress { progress, message: Some(message.to_string()) }
}

/// Leaves `stage` for the next one, whose announcement is returned with it.
///
/// `cancelled` is the cancellation flag as it stands now. It ends the run
/// only at the three checkpoints; elsewhere it is not looked at. After the
/// last stage there is nothing to enter.
pub fn advance(stage: BatchStage, cancelled: bool) -> (result: Result<
    Option<(BatchStage, TranscriptionProgress)>,
    BatchError,
>)
    ensures
        cancelled && polls_on_leaving(stage) ==> result == Err::<
            Option<(BatchStage, TranscriptionProgress)>,
            BatchError,
        >(BatchError::Cancelled),
        !(cancelled && polls_on_leaving(stage)) && stage is Done ==> result == Ok::<
            Option<(BatchStage, TranscriptionProgress)>,
            BatchError,
        >(None),
        !(cancelled && polls_on_leaving(stage)) && !(stage is Done) ==> (result matches Ok(
            Some((next, progress)),
        ) && next == following(stage) && progress.progress == milestone(next)
            && progress.message is Some && progress.message->Some_0@ == label(next)),
{
    let (next, polls) = match stage {
        BatchStage::Validating => (BatchStage::Loading, false),
        BatchStage::Loading => (BatchStage::Decoding, true),
        BatchStage::Decoding => (BatchStage::Inferring, true),
        BatchStage::Inferring => (BatchStage::Collecting, true),
        BatchStage::Collecting => (BatchStage::Done, false),
        BatchStage::Done => {
            return Ok(None);
        },
    };
    if polls && cancelled {
        return Err(BatchError::Cancelled);
    }
    Ok(Some((next, announce(next))))
}

/// The text of a run: each recognised segment followed by a space, the
/// whole trimmed. A segment whose text could not be had is passed over.
pub fn collect_text(segments: &Vec<Option<String>>) -> (text: String)
    ensures
        text@ == transcript(segments@),
{
    let raw = join_segments(segments, " ");
    trim(raw.as_str()).to_string()
}

/// The result of a run that took `duration_ms` milliseconds.
pub fn finish(segments: &Vec<Option<String>>, duration_ms: u64) -> (result: TranscriptionResult)
    ensures
        result.text@ == transcript(segments@),
        result.duration_ms == duration_ms,
{
    TranscriptionResult { text: collect_text(segments), duration_ms }
}

} // verus!
