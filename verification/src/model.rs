//! The recognition model on disk and its download.
use crate::error::ErrorKind;
use vstd::prelude::*;

verus! {

/// File name of the model inside the models directory.
pub const MODEL_NAME: &'static str = "ggml-small.bin";

/// File name under which the model is written while it is downloaded. It
/// is renamed to [`MODEL_NAME`] when the download is complete.
pub const MODEL_TEMP_NAME: &'static str = "ggml-small.bin.tmp";

/// Where the model is downloaded from.
pub const MODEL_URL: &'static str =
    "https://huggingface.co/ggerganov/whisper.cpp/resolve/main/ggml-small.bin";

/// Size of the model in bytes, taken as the total when the server names none.
pub const MODEL_SIZE: u64 = 488_304_832;

/// Whether the model is installed, and where.
#[derive(Debug, Clone, PartialEq, Eq)]
pub struct ModelStatus {
    pub is_installed: bool,
    pub model_path: Option<String>,
    pub model_size: Option<u64>,
}

/// How far a download has come.
#[derive(Debug, Clone, Copy, PartialEq, Eq, Structural)]
pub struct DownloadProgress {
    /// Bytes received so far.
    pub downloaded: u64,
    /// Bytes expected in all.
    pub total: u64,
}

/// Why the model cannot be used.
#[derive(Debug, Clone, Copy, PartialEq, Eq, Structural)]
pub enum ModelError {
    /// No model file is installed.
    NotInstalled,
    /// The status names no path although the model is installed.
    PathMissing,
}

/// Why a download ended early.
#[derive(Debug, Clone, Copy, PartialEq, Eq, Structural)]
pub enum DownloadError {
    /// The user cancelled; the partial file is to be deleted.
    Cancelled,
}

impl ModelError {
    /// The kind of the failure: the model is not there to be used.
    pub fn kind(&self) -> (kind: ErrorKind)
        ensures
            kind == ErrorKind::Resource,
    {
        ErrorKind::Resource
    }

    /// The message shown to the user.
    pub open spec fn spec_message(&self) -> Seq<char> {
        match *self {
            ModelError::NotInstalled =>
                "Whisper model not installed. Please download the model first."@,
            ModelError::PathMissing => "Model path not found"@,
        }
    }

    /// The message shown to the user.
    pub fn message(&self) -> (text: String)
        ensures
            text@ == self.spec_message(),
    {
        match self {
            ModelError::NotInstalled => {
                "Whisper model not installed. Please download the model first.".to_string()
            },
            ModelError::PathMissing => "Model path not found".to_string(),
        }
    }
}

impl DownloadError {
    /// The kind of the failure: the cancellation flag was seen.
    pub fn kind(&self) -> (kind: ErrorKind)
        ensures
            kind == ErrorKind::Cancellation,
    {
        ErrorKind::Cancellation
    }

    /// The message shown to the user.
    pub fn message(&self) -> (text: String)
        ensures
            text@ == "Download cancelled"@,
    {
        "Download cancelled".to_string()
    }
}

/// The status of a model file: `found` holds its path and its size in bytes
/// when the file exists.
pub fn check_whisper_model(found: Option<(String, u64)>) -> (status: ModelStatus)
    ensures
        match found {
            Some((path, size)) => status == (ModelStatus {
                is_installed: true,
                model_path: Some(path),
                model_size: Some(size),
            }),
            None => status == (ModelStatus {
                is_installed: false,
                model_path: None,
                model_size: None,
            }),
        },
{
    match found {
        Some((path, size)) => ModelStatus {
            is_installed: true,
            model_path: Some(path),
            model_size: Some(size),
        },
        None => ModelStatus { is_installed: false, model_path: None, model_size: None },
    }
}

/// The path of the installed model, from which the engine is loaded.
pub fn installed_model_path(status: &ModelStatus) -> (path: Result<String, ModelError>)
    ensures
        !status.is_installed ==> path == Err::<String, ModelError>(ModelError::NotInstalled),
        status.is_installed && status.model_path is None ==> path == Err::<String, ModelError>(
            ModelError::PathMissing,
        ),
        status.is_installed && status.model_path is Some ==> path is Ok && path->Ok_0@
            == status.model_path->Some_0@,
{
    if !status.is_installed {
        return Err(ModelError::NotInstalled);
    }
    match &status.model_path {
        Some(path) => Ok(path.clone()),
        None => Err(ModelError::PathMissing),
    }
}

/// The number of bytes that a download is expected to bring: what the server
/// announced, else the known size of the model.
pub fn download_total(content_length: Option<u64>) -> (total: u64)
    ensures
        total == match content_length {
            Some(length) => length,
            None => MODEL_SIZE,
        },
{
    match content_length {
        Some(length) => length,
        None => MODEL_SIZE,
    }
}

/// The checkpoint between two chunks of a download: the download goes on
/// unless the cancellation flag is set.
pub fn download_checkpoint(cancelled: bool) -> (result: Result<(), DownloadError>)
    ensures
        result == if cancelled {
            Err::<(), DownloadError>(DownloadError::Cancelled)
        } else {
            Ok::<(), DownloadError>(())
        },
{
    if cancelled {
        return Err(DownloadError::Cancelled);
    }
    Ok(())
}

/// Accounts for one received chunk of `chunk_len` bytes.
pub fn download_step(progress: DownloadProgress, chunk_len: usize) -> (next: DownloadProgress)
    requires
        progress.downloaded + chunk_len <= u64::MAX,
    ensures
        next.downloaded == progress.downloaded + chunk_len,
        next.total == progress.total,
{
    DownloadProgress { downloaded: progress.downloaded + chunk_len as u64, total: progress.total }
}

} // verus!
