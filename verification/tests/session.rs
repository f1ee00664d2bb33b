use ttokk_backend::batch::{
    advance, collect_text, finish, validate_request, BatchError, BatchStage,
};
use ttokk_backend::decode::{AudioFileError, AudioReadError, ConvertError};
use ttokk_backend::engine::{batch_params, realtime_params, LANGUAGE};
use ttokk_backend::error::ErrorKind;
use ttokk_backend::model::{
    download_checkpoint, download_step, download_total, installed_model_path, check_whisper_model,
    DownloadError,
    DownloadProgress, ModelError, ModelStatus, MODEL_NAME, MODEL_SIZE, MODEL_TEMP_NAME, MODEL_URL,
};
use ttokk_backend::realtime::{
    complete_inference, is_realtime_transcription_active, push_audio_chunk,
    start_realtime_transcription, stop_realtime_transcription, InferenceOutcome, PushOutcome,
    RealtimePartialResult, RealtimeStatus, RealtimeTranscriptionConfig, SessionError, SessionSlot,
    SessionState, BUFFER_SAMPLES, CHUNK_SAMPLES, MIN_SAMPLES_FOR_PROCESSING, OVERLAP_SAMPLES,
    SAMPLE_RATE,
};

const LOUD: i32 = 0x1000_0000;

fn started() -> SessionSlot {
    let mut slot = SessionSlot::new();
    assert_eq!(start_realtime_transcription(&mut slot, Ok(())), Ok(()));
    slot
}

fn segments(texts: &[&str]) -> InferenceOutcome {
    InferenceOutcome::Segments(texts.iter().map(|t| Some(t.to_string())).collect())
}

#[test]
fn session_constants() {
    assert_eq!(SAMPLE_RATE, 16000);
    assert_eq!(CHUNK_SAMPLES, 48000);
    assert_eq!(OVERLAP_SAMPLES, 16000);
    assert_eq!(BUFFER_SAMPLES, 480000);
    assert_eq!(MIN_SAMPLES_FOR_PROCESSING, 32000);
}

#[test]
fn slot_starts_empty() {
    let slot = SessionSlot::new();
    assert!(!is_realtime_transcription_active(&slot));
    assert_eq!(slot.state(), SessionState::Uninitialized);
}

#[test]
fn start_makes_session_ready() {
    let slot = started();
    assert!(is_realtime_transcription_active(&slot));
    assert_eq!(slot.state(), SessionState::Ready);
}

#[test]
fn start_while_active_fails_and_keeps_session() {
    let mut slot = started();
    assert_eq!(push_audio_chunk(&mut slot, &[LOUD; 32000]).unwrap(), PushOutcome::Infer(
        {
            let mut window = vec![0; 16000];
            window.extend(vec![LOUD; 32000]);
            window
        }
    ));
    assert_eq!(complete_inference(&mut slot, segments(&["kept"])).unwrap().unwrap().text, "kept");
    assert_eq!(
        start_realtime_transcription(&mut slot, Ok(())),
        Err(SessionError::AlreadyActive)
    );
    assert_eq!(
        start_realtime_transcription(&mut slot, Err("unused".to_string())),
        Err(SessionError::AlreadyActive)
    );
    assert!(is_realtime_transcription_active(&slot));
    assert_eq!(stop_realtime_transcription(&mut slot), Ok("kept".to_string()));
}

#[test]
fn start_fails_when_engine_does_not_load() {
    let mut slot = SessionSlot::new();
    assert_eq!(
        start_realtime_transcription(&mut slot, Err("bad model".to_string())),
        Err(SessionError::EngineLoad("bad model".to_string()))
    );
    assert!(!is_realtime_transcription_active(&slot));
}

#[test]
fn stop_without_session_fails_and_creates_none() {
    let mut slot = SessionSlot::new();
    assert_eq!(stop_realtime_transcription(&mut slot), Err(SessionError::NotActive));
    assert!(!is_realtime_transcription_active(&slot));
    assert_eq!(slot.state(), SessionState::Uninitialized);
}

#[test]
fn push_without_session_fails() {
    let mut slot = SessionSlot::new();
    assert_eq!(push_audio_chunk(&mut slot, &[1, 2, 3]), Err(SessionError::NotActive));
    assert!(!is_realtime_transcription_active(&slot));
    assert_eq!(complete_inference(&mut slot, InferenceOutcome::RunFailed), Err(SessionError::NotActive));
}

#[test]
fn push_buffers_below_two_seconds() {
    let mut slot = started();
    assert_eq!(push_audio_chunk(&mut slot, &[LOUD; 31999]), Ok(PushOutcome::Buffered));
    assert_eq!(slot.state(), SessionState::Ready);
    match push_audio_chunk(&mut slot, &[LOUD; 1]) {
        Ok(PushOutcome::Infer(window)) => assert_eq!(window.len(), 48000),
        other => panic!("{:?}", other),
    }
    assert_eq!(slot.state(), SessionState::Processing);
}

#[test]
fn push_of_nothing_buffers() {
    let mut slot = started();
    assert_eq!(push_audio_chunk(&mut slot, &[]), Ok(PushOutcome::Buffered));
}

#[test]
fn counters_follow_the_audio() {
    let mut slot = SessionSlot::new();
    assert_eq!(slot.sample_count(), None);
    assert_eq!(slot.last_processed_pos(), None);
    assert_eq!(start_realtime_transcription(&mut slot, Ok(())), Ok(()));
    assert_eq!((slot.sample_count(), slot.last_processed_pos()), (Some(0), Some(0)));
    assert_eq!(push_audio_chunk(&mut slot, &vec![0; 10000]), Ok(PushOutcome::Buffered));
    assert_eq!((slot.sample_count(), slot.last_processed_pos()), (Some(10000), Some(0)));
    assert_eq!(push_audio_chunk(&mut slot, &vec![0; 30000]), Ok(PushOutcome::Silent));
    assert_eq!((slot.sample_count(), slot.last_processed_pos()), (Some(40000), Some(40000)));
    assert!(matches!(push_audio_chunk(&mut slot, &vec![LOUD; 32000]), Ok(PushOutcome::Infer(_))));
    assert_eq!((slot.sample_count(), slot.last_processed_pos()), (Some(72000), Some(40000)));
    assert_eq!(complete_inference(&mut slot, InferenceOutcome::RunFailed), Ok(None));
    assert_eq!((slot.sample_count(), slot.last_processed_pos()), (Some(72000), Some(40000)));
    assert!(matches!(push_audio_chunk(&mut slot, &[]), Ok(PushOutcome::Infer(_))));
    assert_eq!(complete_inference(&mut slot, segments(&["x"])).unwrap().unwrap().segment_index, 1);
    assert_eq!((slot.sample_count(), slot.last_processed_pos()), (Some(72000), Some(72000)));
}

#[test]
fn silence_is_never_recognised_and_stop_returns_empty_text() {
    let mut slot = started();
    let silence = vec![0i32; 16000];
    assert_eq!(push_audio_chunk(&mut slot, &silence), Ok(PushOutcome::Buffered));
    assert_eq!(push_audio_chunk(&mut slot, &silence), Ok(PushOutcome::Silent));
    assert_eq!(push_audio_chunk(&mut slot, &silence), Ok(PushOutcome::Buffered));
    assert_eq!(slot.state(), SessionState::Ready);
    assert_eq!(stop_realtime_transcription(&mut slot), Ok(String::new()));
    assert!(!is_realtime_transcription_active(&slot));
}

#[test]
fn silent_window_counts_as_processed() {
    let mut slot = started();
    assert_eq!(push_audio_chunk(&mut slot, &vec![0; 32000]), Ok(PushOutcome::Silent));
    // Only what came after the skipped window waits now.
    assert_eq!(push_audio_chunk(&mut slot, &vec![LOUD; 31999]), Ok(PushOutcome::Buffered));
    assert!(matches!(push_audio_chunk(&mut slot, &[LOUD]), Ok(PushOutcome::Infer(_))));
}

#[test]
fn window_is_last_three_seconds_of_buffer() {
    let mut slot = started();
    let first: Vec<i32> = (0..40000).map(|i| i * 50000).collect();
    let second: Vec<i32> = (40000..60000).map(|i| i * 1000).collect();
    assert!(matches!(push_audio_chunk(&mut slot, &first), Ok(PushOutcome::Infer(_))));
    assert_eq!(complete_inference(&mut slot, InferenceOutcome::RunFailed), Ok(None));
    match push_audio_chunk(&mut slot, &second) {
        Ok(PushOutcome::Infer(window)) => {
            let mut expected: Vec<i32> = (12000..40000).map(|i| i * 50000).collect();
            expected.extend(second.iter());
            assert_eq!(window, expected);
        },
        other => panic!("{:?}", other),
    }
}

#[test]
fn push_while_processing_is_refused() {
    let mut slot = started();
    assert!(matches!(push_audio_chunk(&mut slot, &vec![LOUD; 32000]), Ok(PushOutcome::Infer(_))));
    assert_eq!(push_audio_chunk(&mut slot, &[1]), Err(SessionError::Busy));
    assert_eq!(slot.state(), SessionState::Processing);
}

#[test]
fn complete_without_window_is_refused() {
    let mut slot = started();
    assert_eq!(complete_inference(&mut slot, segments(&["x"])), Err(SessionError::NotProcessing));
    assert_eq!(stop_realtime_transcription(&mut slot), Ok(String::new()));
}

#[test]
fn recognised_text_is_accumulated_with_spaces() {
    let mut slot = started();
    assert!(matches!(push_audio_chunk(&mut slot, &vec![LOUD; 48000]), Ok(PushOutcome::Infer(_))));
    assert_eq!(
        complete_inference(&mut slot, segments(&["  hello", " world \n"])),
        Ok(Some(RealtimePartialResult {
            text: "hello world".to_string(),
            is_final: false,
            segment_index: 1,
        }))
    );
    assert_eq!(slot.state(), SessionState::Ready);
    assert_eq!(push_audio_chunk(&mut slot, &vec![LOUD; 31999]), Ok(PushOutcome::Buffered));
    assert!(matches!(push_audio_chunk(&mut slot, &vec![LOUD; 64001]), Ok(PushOutcome::Infer(_))));
    assert_eq!(
        complete_inference(&mut slot, segments(&["again"])),
        Ok(Some(RealtimePartialResult {
            text: "again".to_string(),
            is_final: false,
            segment_index: 3,
        }))
    );
    assert_eq!(stop_realtime_transcription(&mut slot), Ok("hello world again".to_string()));
}

#[test]
fn segments_without_text_are_passed_over() {
    let mut slot = started();
    assert!(matches!(push_audio_chunk(&mut slot, &vec![LOUD; 32000]), Ok(PushOutcome::Infer(_))));
    let outcome = InferenceOutcome::Segments(vec![None, Some("a".to_string()), None, Some("b".to_string())]);
    assert_eq!(complete_inference(&mut slot, outcome).unwrap().unwrap().text, "ab");
}

#[test]
fn blank_recognition_yields_no_result_but_counts_as_processed() {
    let mut slot = started();
    assert!(matches!(push_audio_chunk(&mut slot, &vec![LOUD; 32000]), Ok(PushOutcome::Infer(_))));
    assert_eq!(complete_inference(&mut slot, segments(&[" ", "\t\n"])), Ok(None));
    assert_eq!(push_audio_chunk(&mut slot, &vec![LOUD; 31999]), Ok(PushOutcome::Buffered));
    assert_eq!(stop_realtime_transcription(&mut slot), Ok(String::new()));
}

#[test]
fn failed_run_leaves_audio_waiting() {
    let mut slot = started();
    assert!(matches!(push_audio_chunk(&mut slot, &vec![LOUD; 32000]), Ok(PushOutcome::Infer(_))));
    assert_eq!(complete_inference(&mut slot, InferenceOutcome::RunFailed), Ok(None));
    assert!(matches!(push_audio_chunk(&mut slot, &[LOUD]), Ok(PushOutcome::Infer(_))));
}

#[test]
fn engine_failures_are_reported() {
    let mut slot = started();
    assert!(matches!(push_audio_chunk(&mut slot, &vec![LOUD; 32000]), Ok(PushOutcome::Infer(_))));
    assert_eq!(
        complete_inference(&mut slot, InferenceOutcome::StateFailed("oom".to_string())),
        Err(SessionError::StateCreation("oom".to_string()))
    );
    assert!(matches!(push_audio_chunk(&mut slot, &[LOUD]), Ok(PushOutcome::Infer(_))));
    assert_eq!(
        complete_inference(&mut slot, InferenceOutcome::CountFailed("gone".to_string())),
        Err(SessionError::SegmentCount("gone".to_string()))
    );
    assert_eq!(slot.state(), SessionState::Ready);
}

#[test]
fn stop_while_processing_ends_session() {
    let mut slot = started();
    assert!(matches!(push_audio_chunk(&mut slot, &vec![LOUD; 32000]), Ok(PushOutcome::Infer(_))));
    assert_eq!(stop_realtime_transcription(&mut slot), Ok(String::new()));
    assert_eq!(slot.state(), SessionState::Uninitialized);
    assert_eq!(start_realtime_transcription(&mut slot, Ok(())), Ok(()));
}

#[test]
fn session_error_kinds() {
    assert_eq!(SessionError::AlreadyActive.kind(), ErrorKind::Resource);
    assert_eq!(SessionError::NotActive.kind(), ErrorKind::Resource);
    assert_eq!(SessionError::Busy.kind(), ErrorKind::Resource);
    assert_eq!(SessionError::NotProcessing.kind(), ErrorKind::Resource);
    assert_eq!(SessionError::EngineLoad(String::new()).kind(), ErrorKind::Inference);
    assert_eq!(SessionError::StateCreation(String::new()).kind(), ErrorKind::Inference);
    assert_eq!(SessionError::SegmentCount(String::new()).kind(), ErrorKind::Inference);
    assert_eq!(ModelError::NotInstalled.kind(), ErrorKind::Resource);
    assert_eq!(ModelError::PathMissing.kind(), ErrorKind::Resource);
    assert_eq!(DownloadError::Cancelled.kind(), ErrorKind::Cancellation);
}

#[test]
fn session_error_messages() {
    assert_eq!(SessionError::AlreadyActive.message(), "Real-time transcription is already active");
    assert_eq!(SessionError::NotActive.message(), "Real-time transcription is not active");
    assert_eq!(SessionError::Busy.message(), "Real-time transcription is processing a chunk");
    assert_eq!(SessionError::NotProcessing.message(), "No chunk is being processed");
    assert_eq!(
        SessionError::EngineLoad("e".to_string()).message(),
        "Failed to load Whisper model: e"
    );
    assert_eq!(SessionError::StateCreation("e".to_string()).message(), "Failed to create state: e");
    assert_eq!(SessionError::SegmentCount("e".to_string()).message(), "Failed to get segments: e");
}

#[test]
fn status_reports() {
    assert_eq!(RealtimeStatus::initializing(), RealtimeStatus {
        status: "initializing".to_string(),
        message: Some("Loading Whisper model...".to_string()),
    });
    assert_eq!(RealtimeStatus::ready(), RealtimeStatus {
        status: "ready".to_string(),
        message: Some("Real-time transcription ready".to_string()),
    });
    assert_eq!(RealtimeStatus::stopped(), RealtimeStatus {
        status: "stopped".to_string(),
        message: Some("Real-time transcription stopped".to_string()),
    });
}

#[test]
fn final_result_holds_whole_text() {
    assert_eq!(RealtimePartialResult::final_result("all".to_string()), RealtimePartialResult {
        text: "all".to_string(),
        is_final: true,
        segment_index: 0,
    });
    let config = RealtimeTranscriptionConfig { language: None };
    assert_eq!(config.language, None);
}

#[test]
fn engine_settings() {
    let batch = batch_params();
    assert_eq!(LANGUAGE, "ko");
    assert_eq!(batch.best_of, 1);
    assert_eq!(batch.language, "ko");
    assert!(!batch.print_special && !batch.print_progress);
    assert!(!batch.print_realtime && !batch.print_timestamps);
    assert!(!batch.single_segment);
    let realtime = realtime_params();
    assert!(realtime.single_segment);
    assert_eq!(realtime.best_of, 1);
    assert_eq!(realtime.language, "ko");
}

#[test]
fn batch_stages_follow_in_order_with_milestones() {
    let mut stage = BatchStage::Validating;
    let mut seen = Vec::new();
    while let Some((next, progress)) = advance(stage, false).unwrap() {
        seen.push((next, progress.progress, progress.message.unwrap()));
        stage = next;
    }
    assert_eq!(seen, vec![
        (BatchStage::Loading, 0, "Loading audio file...".to_string()),
        (BatchStage::Decoding, 10, "Loading Whisper model...".to_string()),
        (BatchStage::Inferring, 20, "Transcribing audio...".to_string()),
        (BatchStage::Collecting, 90, "Collecting results...".to_string()),
        (BatchStage::Done, 100, "Transcription complete".to_string()),
    ]);
    assert_eq!(advance(BatchStage::Done, false), Ok(None));
    assert_eq!(advance(BatchStage::Done, true), Ok(None));
}

#[test]
fn batch_cancellation_is_seen_at_checkpoints_only() {
    assert!(matches!(advance(BatchStage::Validating, true), Ok(Some((BatchStage::Loading, _)))));
    assert_eq!(advance(BatchStage::Loading, true), Err(BatchError::Cancelled));
    assert_eq!(advance(BatchStage::Decoding, true), Err(BatchError::Cancelled));
    assert_eq!(advance(BatchStage::Inferring, true), Err(BatchError::Cancelled));
    assert!(matches!(advance(BatchStage::Collecting, true), Ok(Some((BatchStage::Done, _)))));
}

#[test]
fn batch_text_joins_segments_with_spaces_and_trims() {
    let texts = vec![Some(" Hello".to_string()), Some("world ".to_string()), None, Some("!".to_string())];
    assert_eq!(collect_text(&texts), "Hello world  !");
    assert_eq!(collect_text(&vec![]), "");
    assert_eq!(collect_text(&vec![None, Some("  ".to_string())]), "");
    let result = finish(&texts, 1234);
    assert_eq!(result.text, "Hello world  !");
    assert_eq!(result.duration_ms, 1234);
}

fn installed() -> ModelStatus {
    check_whisper_model(Some(("/models/ggml-small.bin".to_string(), 42)))
}

#[test]
fn batch_request_is_validated_file_first() {
    assert_eq!(validate_request(Some("WAV"), true, &installed()), Ok("/models/ggml-small.bin".to_string()));
    assert_eq!(
        validate_request(None, true, &installed()),
        Err(BatchError::File(AudioFileError::NoExtension))
    );
    assert_eq!(
        validate_request(Some("txt"), true, &check_whisper_model(None)),
        Err(BatchError::File(AudioFileError::UnsupportedFormat("txt".to_string())))
    );
    assert_eq!(
        validate_request(Some("mp3"), false, &check_whisper_model(None)),
        Err(BatchError::File(AudioFileError::FileMissing))
    );
    assert_eq!(
        validate_request(Some("mp3"), true, &check_whisper_model(None)),
        Err(BatchError::Model(ModelError::NotInstalled))
    );
    let pathless = ModelStatus { is_installed: true, model_path: None, model_size: None };
    assert_eq!(
        validate_request(Some("mp3"), true, &pathless),
        Err(BatchError::Model(ModelError::PathMissing))
    );
}

#[test]
fn batch_error_messages_and_kinds() {
    let cases = vec![
        (BatchError::File(AudioFileError::FileMissing), "File does not exist", ErrorKind::Validation),
        (
            BatchError::Model(ModelError::NotInstalled),
            "Whisper model not installed. Please download the model first.",
            ErrorKind::Resource,
        ),
        (BatchError::Model(ModelError::PathMissing), "Model path not found", ErrorKind::Resource),
        (
            BatchError::AudioRead(AudioReadError::WavOpen("x".to_string())),
            "오디오 파일 읽기 실패: WAV 파일 열기 실패: x",
            ErrorKind::Io,
        ),
        (
            BatchError::AudioRead(AudioReadError::Convert(ConvertError::Failed("x".to_string()))),
            "오디오 파일 읽기 실패: ffmpeg 변환 실패: x",
            ErrorKind::ExternalTool,
        ),
        (BatchError::Cancelled, "Transcription cancelled", ErrorKind::Cancellation),
        (
            BatchError::EngineLoad("x".to_string()),
            "Failed to load Whisper model: x",
            ErrorKind::Inference,
        ),
        (
            BatchError::StateCreation("x".to_string()),
            "Failed to create state: x",
            ErrorKind::Inference,
        ),
        (BatchError::Inference("x".to_string()), "Transcription failed: x", ErrorKind::Inference),
        (
            BatchError::SegmentCount("x".to_string()),
            "Failed to get segments: x",
            ErrorKind::Inference,
        ),
    ];
    for (error, message, kind) in cases {
        assert_eq!(error.message(), message);
        assert_eq!(error.kind(), kind);
    }
}

#[test]
fn model_status_of_found_and_missing_file() {
    assert_eq!(installed(), ModelStatus {
        is_installed: true,
        model_path: Some("/models/ggml-small.bin".to_string()),
        model_size: Some(42),
    });
    assert_eq!(check_whisper_model(None), ModelStatus {
        is_installed: false,
        model_path: None,
        model_size: None,
    });
    assert_eq!(installed_model_path(&installed()), Ok("/models/ggml-small.bin".to_string()));
    assert_eq!(installed_model_path(&check_whisper_model(None)), Err(ModelError::NotInstalled));
}

#[test]
fn model_constants() {
    assert_eq!(MODEL_NAME, "ggml-small.bin");
    assert_eq!(MODEL_TEMP_NAME, format!("{}.tmp", MODEL_NAME));
    assert_eq!(MODEL_URL, "https://huggingface.co/ggerganov/whisper.cpp/resolve/main/ggml-small.bin");
    assert_eq!(MODEL_SIZE, 488_304_832);
}

#[test]
fn download_total_falls_back_to_model_size() {
    assert_eq!(download_total(Some(10)), 10);
    assert_eq!(download_total(Some(0)), 0);
    assert_eq!(download_total(None), 488_304_832);
}

#[test]
fn download_counts_chunks_until_cancelled() {
    let start = DownloadProgress { downloaded: 0, total: 100 };
    assert_eq!(download_checkpoint(false), Ok(()));
    let next = download_step(start, 40);
    assert_eq!(next, DownloadProgress { downloaded: 40, total: 100 });
    assert_eq!(download_step(next, 60), DownloadProgress { downloaded: 100, total: 100 });
    assert_eq!(download_step(next, 0), next);
    assert_eq!(download_checkpoint(true), Err(DownloadError::Cancelled));
    assert_eq!(DownloadError::Cancelled.message(), "Download cancelled");
}
