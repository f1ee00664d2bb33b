//! Classification of failures.
use vstd::prelude::*;

verus! {

/// The kind of a failure. Every failure reaches the caller as a message;
/// the kind says what sort of thing went wrong.
#[derive(Debug, Clone, Copy, PartialEq, Eq, Structural)]
pub enum ErrorKind {
    /// Bad or missing file, unsupported extension, malformed date or setting.
    Validation,
    /// Model not installed, session slot taken or empty, directory missing.
    Resource,
    /// The external format converter is missing or failed.
    ExternalTool,
    /// Reading, writing or renaming failed.
    Io,
    /// The cancellation flag was seen at a checkpoint.
    Cancellation,
    /// A call into the recognition engine failed.
    Inference,
}

} // verus!
