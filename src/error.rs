use vstd::prelude::*;

verus! {

/// Everything that can end a run early.
#[derive(Debug, PartialEq, Eq)]
pub enum ContextError {
    /// A file or directory operation failed; the message describes it.
    Io(String),
    /// A network request failed; the message describes it.
    Http(String),
    /// The media library failed to open, decode or encode; the message describes it.
    FFmpeg(String),
    /// `run` was called with no task registered.
    NoTask,
    /// The input has neither an audio nor a video stream that can be decoded.
    NoStream,
    /// A remote input announced a content type that is neither audio nor video.
    InvalidContentType(String),
    /// The worker at this position received no frame within its idle budget.
    WorkerTimeout(usize),
    /// A worker thread could not be joined.
    JoinFailed,
    /// The hook at this position could not be delivered or was refused.
    HookFailed(usize),
}

} // verus!
