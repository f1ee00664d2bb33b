//! How the recognition engine is driven.
use vstd::prelude::*;

verus! {

/// Language that the engine is told to expect.
pub const LANGUAGE: &'static str = "ko";

/// The settings of one run of the engine.
#[derive(Debug, Clone, PartialEq, Eq)]
pub struct EngineParams {
    /// Candidates of greedy decoding.
    pub best_of: u32,
    /// Code of the language.
    pub language: String,
    pub print_special: bool,
    pub print_progress: bool,
    pub print_realtime: bool,
    pub print_timestamps: bool,
    /// Whether the engine is to yield one segment only.
    pub single_segment: bool,
}

/// Whether the settings are those of every run: greedy decoding with one
/// candidate, the fixed language, nothing printed.
pub open spec fn common_settings(params: EngineParams) -> bool {
    &&& params.best_of == 1
    &&& params.language@ == LANGUAGE@
    &&& !params.print_special
    &&& !params.print_progress
    &&& !params.print_realtime
    &&& !params.print_timestamps
}

/// The settings of a one-shot run.
pub fn batch_params() -> (params: EngineParams)
    ensures
        common_settings(params),
        !params.single_segment,
{
    EngineParams {
        best_of: 1,
        language: LANGUAGE.to_string(),
        print_special: false,
        print_progress: false,
        print_realtime: false,
        print_timestamps: false,
        single_segment: false,
    }
}

/// The settings of a run on one window of a streaming session: as those of
/// a one-shot run, in single-segment mode.
pub fn realtime_params() -> (params: EngineParams)
    ensures
        common_settings(params),
        params.single_segment,
{
    EngineParams {
        best_of: 1,
        language: LANGUAGE.to_string(),
        print_special: false,
        print_progress: false,
        print_realtime: false,
        print_timestamps: false,
        single_segment: true,
    }
}

} // verus!
