//! The streaming transcription session.
//!
//! At most one session exists at a time; it lives in a [`SessionSlot`]. A
//! session buffers the audio it is given and, once two seconds of it wait
//! unprocessed, hands out the last three seconds for recognition unless they
//! are silent. Recognition itself is the caller's part: the session names
//! the window to recognise and later takes what the engine said of it.
use crate::error::ErrorKind;
use crate::ring::{last_n, pushed, silence, CircularBuffer};
use crate::text::{join_segments, joined, trim, trimmed};
use crate::vad::{energy_exceeds, has_voice_activity, VAD_THRESHOLD};
use vstd::prelude::*;

verus! {

/// Samples per second of the audio a session takes.
pub const SAMPLE_RATE: u32 = 16000;

/// Samples of one recognition window: three seconds.
pub const CHUNK_SAMPLES: usize = 48000;

/// Samples of the nominal overlap of two windows: one second. The session
/// does not hold audio back for it: after a window is processed, all audio
/// received so far counts as processed.
pub const OVERLAP_SAMPLES: usize = 16000;

/// Samples the session buffers: thirty seconds.
pub const BUFFER_SAMPLES: usize = 480000;

/// Unprocessed samples that must wait before a window is processed: two
/// seconds.
pub const MIN_SAMPLES_FOR_PROCESSING: usize = 32000;

/// Settings of a session.
#[derive(Debug, Clone, PartialEq, Eq)]
pub struct RealtimeTranscriptionConfig {
    pub language: Option<String>,
}

/// Text recognised in one window, or the whole text when the session ends.
#[derive(Debug, Clone, PartialEq, Eq)]
pub struct RealtimePartialResult {
    pub text: String,
    pub is_final: bool,
    pub segment_index: u32,
}

/// What the session reports of its life cycle.
#[derive(Debug, Clone, PartialEq, Eq)]
pub struct RealtimeStatus {
    pub status: String,
    pub message: Option<String>,
}

/// Where the slot stands.
#[derive(Debug, Clone, Copy, PartialEq, Eq, Structural)]
pub enum SessionState {
    /// No session exists.
    Uninitialized,
    /// A session exists and takes audio.
    Ready,
    /// A session exists and waits for the engine's answer on a window.
    Processing,
}

/// Why a call on the slot failed.
#[derive(Debug, Clone, PartialEq, Eq)]
pub enum SessionError {
    /// A session exists already.
    AlreadyActive,
    /// No session exists.
    NotActive,
    /// A window is with the engine; its answer must come first.
    Busy,
    /// No window is with the engine.
    NotProcessing,
    /// The engine could not be loaded.
    EngineLoad(String),
    /// The engine could not set up a recognition state.
    StateCreation(String),
    /// The engine could not say how many segments it recognised.
    SegmentCount(String),
}

/// What the engine said of a window.
#[derive(Debug, Clone, PartialEq, Eq)]
pub enum InferenceOutcome {
    /// No recognition state could be set up.
    StateFailed(String),
    /// Recognition ran and failed.
    RunFailed,
    /// Recognition ran; the number of segments could not be had.
    CountFailed(String),
    /// The texts of the recognised segments in order; `None` where the text
    /// of a segment could not be had.
    Segments(Vec<Option<String>>),
}

/// What the caller is to do after audio was pushed.
#[derive(Debug, Clone, PartialEq, Eq)]
pub enum PushOutcome {
    /// Too little unprocessed audio waits: nothing to do.
    Buffered,
    /// The window was silent and is skipped: nothing to do.
    Silent,
    /// The window is to be recognised in single-segment mode, and the answer
    /// handed to [`complete_inference`].
    Infer(Vec<i32>),
}

/// The mathematical state of a session.
pub struct SessionView {
    /// The buffered samples, oldest first.
    pub buffer: Seq<i32>,
    /// The text recognised so far.
    pub text: Seq<char>,
    /// Number of samples received when a window was last dealt with.
    pub last_processed_pos: nat,
    /// Number of samples received.
    pub sample_count: nat,
    /// Whether a window is with the engine.
    pub processing: bool,
}

/// A session as `start` makes it.
pub open spec fn fresh_session() -> SessionView {
    SessionView {
        buffer: silence(BUFFER_SAMPLES as nat),
        text: Seq::empty(),
        last_processed_pos: 0,
        sample_count: 0,
        processing: false,
    }
}

/// The window that is looked at when audio was pushed: the last three
/// seconds of the buffer.
pub open spec fn window(buffer: Seq<i32>) -> Seq<i32> {
    last_n(buffer, CHUNK_SAMPLES as nat)
}

/// What is to be done about a session after it has received audio.
pub enum Action {
    /// Go on buffering.
    Buffer,
    /// Skip the window, which is silent.
    SkipSilence,
    /// Recognise the window.
    Infer,
}

/// The decision on a session that holds `buffer` and has received
/// `sample_count` samples, `last_processed_pos` of them dealt with.
pub open spec fn decide(buffer: Seq<i32>, sample_count: nat, last_processed_pos: nat) -> Action {
    if sample_count - last_processed_pos < MIN_SAMPLES_FOR_PROCESSING {
        Action::Buffer
    } else if !energy_exceeds(window(buffer), VAD_THRESHOLD as nat) {
        Action::SkipSilence
    } else {
        Action::Infer
    }
}

/// The session after `samples` were pushed to it.
pub open spec fn after_push(session: SessionView, samples: Seq<i32>) -> SessionView {
    let buffer = pushed(session.buffer, samples);
    let sample_count = session.sample_count + samples.len();
    match decide(buffer, sample_count, session.last_processed_pos) {
        Action::Buffer => SessionView { buffer, sample_count, ..session },
        Action::SkipSilence => SessionView {
            buffer,
            sample_count,
            last_processed_pos: sample_count,
            ..session
        },
        Action::Infer => SessionView { buffer, sample_count, processing: true, ..session },
    }
}

/// The text that the engine recognised in a window: the texts of its
/// segments one after another, trimmed.
pub open spec fn recognised(segments: Seq<Option<String>>) -> Seq<char> {
    trimmed(joined(segments, Seq::empty()))
}

/// `text` with `addition` after it, a space between them unless `text` is
/// empty.
pub open spec fn appended(text: Seq<char>, addition: Seq<char>) -> Seq<char> {
    if text.len() == 0 {
        addition
    } else {
        text + " "@ + addition
    }
}

/// The session after the engine's answer on its window came in.
pub open spec fn after_inference(session: SessionView, outcome: InferenceOutcome) -> SessionView {
    match outcome {
        InferenceOutcome::Segments(segments) => {
            let text = recognised(segments@);
            SessionView {
                text: if text.len() == 0 {
                    session.text
                } else {
                    appended(session.text, text)
                },
                last_processed_pos: session.sample_count,
                processing: false,
                ..session
            }
        },
        _ => SessionView { processing: false, ..session },
    }
}

/// Number of the window that ends at `sample_count` samples.
pub open spec fn segment_index(sample_count: nat) -> u32 {
    ((sample_count as usize) / CHUNK_SAMPLES) as u32
}

/// Through the life of a session what was dealt with never exceeds what was
/// received, neither count ever falls, and the buffer keeps its length.
pub proof fn lemma_counters_never_fall(
    session: SessionView,
    samples: Seq<i32>,
    outcome: InferenceOutcome,
)
    requires
        session.last_processed_pos <= session.sample_count,
    ensures
        ({
            let next = after_push(session, samples);
            &&& session.last_processed_pos <= next.last_processed_pos <= next.sample_count
            &&& session.sample_count <= next.sample_count
            &&& next.buffer.len() == session.buffer.len()
            &&& next.text == session.text
        }),
        ({
            let next = after_inference(session, outcome);
            &&& session.last_processed_pos <= next.last_processed_pos <= next.sample_count
            &&& session.sample_count == next.sample_count
            &&& next.buffer == session.buffer
        }),
{
}

/// While fewer than two seconds of audio wait unprocessed, pushing only
/// buffers; from then on the window is either skipped as silent or handed
/// out for recognition.
pub proof fn lemma_push_waits_for_two_seconds(session: SessionView, samples: Seq<i32>)
    ensures
        ({
            let next = after_push(session, samples);
            let action = decide(next.buffer, next.sample_count, session.last_processed_pos);
            &&& next.sample_count - session.last_processed_pos < MIN_SAMPLES_FOR_PROCESSING
                <==> action is Buffer
            &&& action is Buffer ==> next.processing == session.processing
                && next.last_processed_pos == session.last_processed_pos
            &&& action is SkipSilence ==> !energy_exceeds(window(next.buffer), VAD_THRESHOLD as nat)
                && next.last_processed_pos == next.sample_count && next.processing
                == session.processing
            &&& action is Infer ==> energy_exceeds(window(next.buffer), VAD_THRESHOLD as nat)
                && next.processing
        }),
{
}

impl SessionError {
    /// The kind of the failure.
    pub fn kind(&self) -> (kind: ErrorKind)
        ensures
            kind == match *self {
                SessionError::AlreadyActive => ErrorKind::Resource,
                SessionError::NotActive => ErrorKind::Resource,
                SessionError::Busy => ErrorKind::Resource,
                SessionError::NotProcessing => ErrorKind::Resource,
                SessionError::EngineLoad(_) => ErrorKind::Inference,
                SessionError::StateCreation(_) => ErrorKind::Inference,
                SessionError::SegmentCount(_) => ErrorKind::Inference,
            },
    {
        match self {
            SessionError::AlreadyActive => ErrorKind::Resource,
            SessionError::NotActive => ErrorKind::Resource,
            SessionError::Busy => ErrorKind::Resource,
            SessionError::NotProcessing => ErrorKind::Resource,
            SessionError::EngineLoad(_) => ErrorKind::Inference,
            SessionError::StateCreation(_) => ErrorKind::Inference,
            SessionError::SegmentCount(_) => ErrorKind::Inference,
        }
    }

    /// The message shown to the user.
    pub fn message(&self) -> (text: String)
        ensures
            text@ == match *self {
                SessionError::AlreadyActive => "Real-time transcription is already active"@,
                SessionError::NotActive => "Real-time transcription is not active"@,
                SessionError::Busy => "Real-time transcription is processing a chunk"@,
                SessionError::NotProcessing => "No chunk is being processed"@,
                SessionError::EngineLoad(cause) => "Failed to load Whisper model: "@ + cause@,
                SessionError::StateCreation(cause) => "Failed to create state: "@ + cause@,
                SessionError::SegmentCount(cause) => "Failed to get segments: "@ + cause@,
            },
    {
        match self {
            SessionError::AlreadyActive => "Real-time transcription is already active".to_string(),
            SessionError::NotActive => "Real-time transcription is not active".to_string(),
            SessionError::Busy => "Real-time transcription is processing a chunk".to_string(),
            SessionError::NotProcessing => "No chunk is being processed".to_string(),
            SessionError::EngineLoad(cause) => {
                let mut text = "Failed to load Whisper model: ".to_string();
                text.append(cause.as_str());
                text
            },
            SessionError::StateCreation(cause) => {
                let mut text = "Failed to create state: ".to_string();
                text.append(cause.as_str());
                text
            },
            SessionError::SegmentCount(cause) => {
                let mut text = "Failed to get segments: ".to_string();
                text.append(cause.as_str());
                text
            },
        }
    }
}

impl RealtimeStatus {
    /// The status sent before the engine is loaded.
    pub fn initializing() -> (status: Self)
        ensures
            status.status@ == "initializing"@,
            status.message is Some,
            status.message->Some_0@ == "Loading Whisper model..."@,
    {
        RealtimeStatus {
            status: "initializing".to_string(),
            message: Some("Loading Whisper model...".to_string()),
        }
    }

    /// The status sent when the session takes audio.
    pub fn ready() -> (status: Self)
        ensures
            status.status@ == "ready"@,
            status.message is Some,
            status.message->Some_0@ == "Real-time transcription ready"@,
    {
        RealtimeStatus {
            status: "ready".to_string(),
            message: Some("Real-time transcription ready".to_string()),
        }
    }

    /// The status sent when the session has ended.
    pub fn stopped() -> (status: Self)
        ensures
            status.status@ == "stopped"@,
            status.message is Some,
            status.message->Some_0@ == "Real-time transcription stopped"@,
    {
        RealtimeStatus {
            status: "stopped".to_string(),
            message: Some("Real-time transcription stopped".to_string()),
        }
    }
}

impl RealtimePartialResult {
    /// The result sent when the session ends: the whole text.
    pub fn final_result(text: String) -> (result: Self)
        ensures
            result.text == text,
            result.is_final,
            result.segment_index == 0,
    {
        RealtimePartialResult { text, is_final: true, segment_index: 0 }
    }
}

/// Real-time transcription session state.
pub struct RealtimeSession {
    audio_buffer: CircularBuffer,
    accumulated_text: String,
    last_processed_pos: usize,
    sample_count: usize,
    processing: bool,
}

impl View for RealtimeSession {
    type V = SessionView;

    closed spec fn view(&self) -> SessionView {
        SessionView {
            buffer: self.audio_buffer@,
            text: self.accumulated_text@,
            last_processed_pos: self.last_processed_pos as nat,
            sample_count: self.sample_count as nat,
            processing: self.processing,
        }
    }
}

impl RealtimeSession {
    #[verifier::type_invariant]
    spec fn wf(self) -> bool {
        &&& self.last_processed_pos <= self.sample_count
        &&& self.audio_buffer@.len() == BUFFER_SAMPLES
    }

    fn new() -> (session: Self)
        ensures
            session@ == fresh_session(),
    {
        RealtimeSession {
            audio_buffer: CircularBuffer::new(BUFFER_SAMPLES),
            accumulated_text: String::new(),
            last_processed_pos: 0,
            sample_count: 0,
            processing: false,
        }
    }
}

/// The one place where a session can live.
pub struct SessionSlot {
    session: Option<RealtimeSession>,
}

impl View for SessionSlot {
    type V = Option<SessionView>;

    closed spec fn view(&self) -> Option<SessionView> {
        match self.session {
            Some(session) => Some(session@),
            None => None,
        }
    }
}

/// A session keeps its invariant: what was dealt with was received, and the
/// buffer holds thirty seconds.
pub open spec fn session_valid(session: SessionView) -> bool {
    &&& session.last_processed_pos <= session.sample_count <= usize::MAX
    &&& session.buffer.len() == BUFFER_SAMPLES
}

impl SessionSlot {
    /// An empty slot.
    pub fn new() -> (slot: Self)
        ensures
            slot@ is None,
    {
        SessionSlot { session: None }
    }

    /// Where the slot stands.
    pub open spec fn spec_state(&self) -> SessionState {
        match self@ {
            None => SessionState::Uninitialized,
            Some(session) => if session.processing {
                SessionState::Processing
            } else {
                SessionState::Ready
            },
        }
    }

    /// Number of samples that the session has received.
    pub fn sample_count(&self) -> (count: Option<usize>)
        ensures
            count is Some <==> self@ is Some,
            count matches Some(n) ==> n == self@->Some_0.sample_count,
    {
        match &self.session {
            None => None,
            Some(session) => Some(session.sample_count),
        }
    }

    /// Number of samples that the session had received when a window was
    /// last dealt with.
    pub fn last_processed_pos(&self) -> (position: Option<usize>)
        ensures
            position is Some <==> self@ is Some,
            position matches Some(n) ==> n == self@->Some_0.last_processed_pos && n
                <= self@->Some_0.sample_count,
    {
        match &self.session {
            None => None,
            Some(session) => {
                proof {
                    use_type_invariant(session);
                }
                Some(session.last_processed_pos)
            },
        }
    }

    /// Where the slot stands.
    pub fn state(&self) -> (state: SessionState)
        ensures
            state == self.spec_state(),
    {
        match &self.session {
            None => SessionState::Uninitialized,
            Some(session) => if session.processing {
                SessionState::Processing
            } else {
                SessionState::Ready
            },
        }
    }
}

/// What completing a window returns: the partial result, if text was
/// recognised, or the error that the engine met.
pub open spec fn inference_result(session: SessionView, outcome: InferenceOutcome) -> Result<
    Option<(Seq<char>, bool, u32)>,
    SessionError,
> {
    match outcome {
        InferenceOutcome::StateFailed(cause) => Err(SessionError::StateCreation(cause)),
        InferenceOutcome::RunFailed => Ok(None),
        InferenceOutcome::CountFailed(cause) => Err(SessionError::SegmentCount(cause)),
        InferenceOutcome::Segments(segments) => {
            let text = recognised(segments@);
            if text.len() == 0 {
                Ok(None)
            } else {
                Ok(Some((text, false, segment_index(session.sample_count))))
            }
        },
    }
}

/// Whether a session exists.
pub fn is_realtime_transcription_active(slot: &SessionSlot) -> (active: bool)
    ensures
        active == (slot@ is Some),
{
    slot.session.is_some()
}

/// Starts a session. `engine` tells whether the recognition engine could be
/// loaded; the caller loads it only when no session exists.
///
/// While a session exists this fails and leaves that session as it is.
pub fn start_realtime_transcription(slot: &mut SessionSlot, engine: Result<(), String>) -> (result:
    Result<(), SessionError>)
    ensures
        old(slot)@ is Some ==> result == Err::<(), SessionError>(SessionError::AlreadyActive)
            && final(slot)@ == old(slot)@,
        old(slot)@ is None && engine is Err ==> result == Err::<(), SessionError>(
            SessionError::EngineLoad(engine->Err_0),
        ) && final(slot)@ is None,
        old(slot)@ is None && engine is Ok ==> result is Ok && final(slot)@ == Some(
            fresh_session(),
        ),
{
    if slot.session.is_some() {
        return Err(SessionError::AlreadyActive);
    }
    match engine {
        Err(cause) => Err(SessionError::EngineLoad(cause)),
        Ok(()) => {
            slot.session = Some(RealtimeSession::new());
            Ok(())
        },
    }
}

/// Pushes audio to the session and decides what is to be done.
///
/// The samples are appended to the buffer and counted. While fewer than two
/// seconds of audio wait unprocessed, nothing more happens. Else the last
/// three seconds of the buffer are looked at: a silent window is skipped and
/// all audio counts as processed; an active one is handed out for
/// recognition.
pub fn push_audio_chunk(slot: &mut SessionSlot, samples: &[i32]) -> (result: Result<
    PushOutcome,
    SessionError,
>)
    requires
        old(slot)@ is Some ==> old(slot)@->Some_0.sample_count + samples@.len() <= usize::MAX,
    ensures
        match old(slot)@ {
            None => result == Err::<PushOutcome, SessionError>(SessionError::NotActive)
                && final(slot)@ is None,
            Some(session) => if session.processing {
                result == Err::<PushOutcome, SessionError>(SessionError::Busy) && final(slot)@
                    == old(slot)@
            } else {
                let next = after_push(session, samples@);
                &&& final(slot)@ == Some(next)
                &&& session_valid(next)
                &&& match decide(next.buffer, next.sample_count, session.last_processed_pos) {
                    Action::Buffer => result == Ok::<PushOutcome, SessionError>(
                        PushOutcome::Buffered,
                    ),
                    Action::SkipSilence => result == Ok::<PushOutcome, SessionError>(
                        PushOutcome::Silent,
                    ),
                    Action::Infer => result matches Ok(PushOutcome::Infer(chunk)) && chunk@
                        == window(next.buffer),
                }
            },
        },
{
    let session = match slot.session.take() {
        None => {
            return Err(SessionError::NotActive);
        },
        Some(session) => session,
    };
    proof {
        use_type_invariant(&session);
    }
    if session.processing {
        slot.session = Some(session);
        return Err(SessionError::Busy);
    }
    let RealtimeSession {
        mut audio_buffer,
        accumulated_text,
        mut last_processed_pos,
        sample_count,
        mut processing,
    } = session;
    audio_buffer.push_samples(samples);
    let sample_count = sample_count + samples.len();
    let samples_since_last = sample_count - last_processed_pos;
    let outcome = if samples_since_last < MIN_SAMPLES_FOR_PROCESSING {
        PushOutcome::Buffered
    } else {
        let audio_chunk = audio_buffer.get_last_n_samples(CHUNK_SAMPLES);
        if !has_voice_activity(audio_chunk.as_slice(), VAD_THRESHOLD) {
            last_processed_pos = sample_count;
            PushOutcome::Silent
        } else {
            processing = true;
            PushOutcome::Infer(audio_chunk)
        }
    };
    slot.session = Some(
        RealtimeSession {
            audio_buffer,
            accumulated_text,
            last_processed_pos,
            sample_count,
            processing,
        },
    );
    Ok(outcome)
}

/// Takes the engine's answer on the window that was handed out.
///
/// Recognised text is appended to the text of the session and returned as
/// a partial result; then, and when the engine recognised nothing, all audio
/// received so far counts as processed. When the engine failed, the audio
/// still waits.
pub fn complete_inference(slot: &mut SessionSlot, outcome: InferenceOutcome) -> (result: Result<
    Option<RealtimePartialResult>,
    SessionError,
>)
    ensures
        match old(slot)@ {
            None => result == Err::<Option<RealtimePartialResult>, SessionError>(
                SessionError::NotActive,
            ) && final(slot)@ is None,
            Some(session) => if !session.processing {
                result == Err::<Option<RealtimePartialResult>, SessionError>(
                    SessionError::NotProcessing,
                ) && final(slot)@ == old(slot)@
            } else {
                &&& final(slot)@ == Some(after_inference(session, outcome))
                &&& session_valid(after_inference(session, outcome))
                &&& match inference_result(session, outcome) {
                    Err(error) => result == Err::<Option<RealtimePartialResult>, SessionError>(
                        error,
                    ),
                    Ok(None) => result == Ok::<Option<RealtimePartialResult>, SessionError>(None),
                    Ok(Some((text, is_final, index))) => result matches Ok(Some(partial))
                        && partial.text@ == text && partial.is_final == is_final
                        && partial.segment_index == index,
                }
            },
        },
{
    let session = match slot.session.take() {
        None => {
            return Err(SessionError::NotActive);
        },
        Some(session) => session,
    };
    proof {
        use_type_invariant(&session);
    }
    if !session.processing {
        slot.session = Some(session);
        return Err(SessionError::NotProcessing);
    }
    let RealtimeSession {
        audio_buffer,
        mut accumulated_text,
        mut last_processed_pos,
        sample_count,
        processing: _,
    } = session;
    let result = match outcome {
        InferenceOutcome::StateFailed(cause) => Err(SessionError::StateCreation(cause)),
        InferenceOutcome::RunFailed => Ok(None),
        InferenceOutcome::CountFailed(cause) => Err(SessionError::SegmentCount(cause)),
        InferenceOutcome::Segments(segments) => {
            let raw = join_segments(&segments, "");
            proof {
                reveal_strlit("");
                assert(""@ =~= Seq::<char>::empty());
            }
            let segment_text = trim(raw.as_str()).to_string();
            last_processed_pos = sample_count;
            if segment_text.as_str().is_empty() {
                Ok(None)
            } else {
                if !accumulated_text.as_str().is_empty() {
                    accumulated_text.append(" ");
                }
                accumulated_text.append(segment_text.as_str());
                let index = (sample_count / CHUNK_SAMPLES) as u32;
                Ok(
                    Some(
                        RealtimePartialResult {
                            text: segment_text,
                            is_final: false,
                            segment_index: index,
                        },
                    ),
                )
            }
        },
    };
    slot.session = Some(
        RealtimeSession {
            audio_buffer,
            accumulated_text,
            last_processed_pos,
            sample_count,
            processing: false,
        },
    );
    result
}

/// Ends the session and returns its text. With no session this fails and
/// the slot stays empty.
pub fn stop_realtime_transcription(slot: &mut SessionSlot) -> (result: Result<String, SessionError>)
    ensures
        final(slot)@ is None,
        match old(slot)@ {
            None => result == Err::<String, SessionError>(SessionError::NotActive),
            Some(session) => result is Ok && result->Ok_0@ == session.text,
        },
{
    match slot.session.take() {
        None => Err(SessionError::NotActive),
        Some(session) => Ok(session.accumulated_text),
    }
}

} // verus!
