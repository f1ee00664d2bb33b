//! Recordings kept in the application's data directory.
use crate::decode::{audio_format, format_of};
use crate::sort::{stable_sort, stable_sorted, Ranked};
use crate::text::{decimal, lowercase, to_decimal, to_lowercase};
use vstd::prelude::*;

verus! {

/// A recording that was saved.
#[derive(Debug, Clone, PartialEq, Eq)]
pub struct SavedRecordingInfo {
    pub file_path: String,
    pub file_size: u64,
}

/// A recording that is on disk.
#[derive(Debug, Clone, PartialEq, Eq)]
pub struct RecordingFile {
    pub file_path: String,
    pub file_name: String,
    pub file_size: u64,
    /// Seconds since the Unix epoch.
    pub created_at: u64,
}

/// The file name of a recording that is saved `timestamp` milliseconds after
/// the Unix epoch.
pub fn recording_file_name(timestamp: u128) -> (name: String)
    ensures
        name@ == "recording_"@ + decimal(timestamp as nat) + ".webm"@,
{
    let mut name = "recording_".to_string();
    name.append(to_decimal(timestamp).as_str());
    name.append(".webm");
    name
}

/// What is reported of a recording of `len` bytes saved at `file_path`.
pub fn save_recorded_audio(file_path: String, len: usize) -> (info: SavedRecordingInfo)
    ensures
        info.file_path == file_path,
        info.file_size == len,
{
    SavedRecordingInfo { file_path, file_size: len as u64 }
}

/// Whether a file with this extension, whatever its case, is a recording.
pub fn is_recording(extension: &str) -> (yes: bool)
    ensures
        yes == (format_of(lowercase(extension@)) is Some),
{
    let lower = to_lowercase(extension);
    audio_format(lower.as_str()).is_some()
}

/// The time from which a recording is dated, in seconds since the Unix
/// epoch: when it was created or, where the file system does not tell,
/// when it was last modified. `Some(None)` stands for a time before the
/// epoch. Where no time can be had the recording is dated at the epoch.
pub fn created_at(created: Option<Option<u64>>, modified: Option<Option<u64>>) -> (seconds: u64)
    ensures
        seconds == match created {
            Some(Some(seconds)) => seconds,
            Some(None) => 0,
            None => match modified {
                Some(Some(seconds)) => seconds,
                _ => 0,
            },
        },
{
    match created {
        Some(Some(seconds)) => seconds,
        Some(None) => 0,
        None => match modified {
            Some(Some(seconds)) => seconds,
            _ => 0,
        },
    }
}

impl Ranked for RecordingFile {
    /// The newer recording stands first.
    open spec fn precedes(&self, other: &Self) -> bool {
        self.created_at > other.created_at
    }

    fn comes_before(&self, other: &Self) -> (before: bool) {
        self.created_at > other.created_at
    }

    proof fn lemma_strict_weak_order(a: &Self, b: &Self, c: &Self) {
    }
}

/// The recordings in the order in which they are listed: the newest first.
/// Recordings of the same time stay in the order in which they were found.
pub fn list_recordings(recordings: Vec<RecordingFile>) -> (listed: Vec<RecordingFile>)
    ensures
        listed@ == stable_sorted(recordings@),
{
    stable_sort(recordings)
}

} // verus!
