use vstd::prelude::*;

verus! {

/// Error taxonomy of the pipeline.
///
/// - `Transport`: a network fetch did not complete successfully
///   (non-2xx, timeout, connection failure).
/// - `Parse`: a response body was malformed for its expected format.
/// - `IncompleteEntry`: a feed entry lacked a required field
///   (title, description or link).
#[derive(Clone, Copy, Debug, PartialEq, Eq, Structural)]
pub enum PipelineError {
    Transport,
    Parse,
    IncompleteEntry,
}

} // verus!
