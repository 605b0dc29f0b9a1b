//! The recoverable errors an animator can report.

use vstd::prelude::*;

verus! {

/// Why an animator call could not do its work. Every variant means "missing
/// wiring": the caller is expected to complete the wiring and retry on a
/// later frame, never to abort.
#[derive(Clone, Copy, Debug, PartialEq, Eq, Structural)]
pub enum AnimatorError {
    /// No live camera is attached, so no direction can be computed.
    CameraNotSet,
    /// No live playback target (or, for a group, no representative member)
    /// is attached.
    SubjectNotSet,
    /// A member of a group failed to accept a frame-set broadcast; the
    /// remaining members were still attempted.
    AnimationChangeFailed,
}

} // verus!
