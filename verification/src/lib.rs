//! Camera-relative facing animation for 2D billboard sprites in a 3D scene.
//!
//! Each frame, a facing animator classifies the angle between a camera's
//! forward direction and a subject's forward direction into one of four
//! discrete facing directions and, only when that direction changes, pushes
//! the matching frame-set to the sprite playback targets it drives.
//!
//! The host engine is modelled through a [`stage::Stage`]: a host-owned table
//! of camera headings and sprite playback targets that animators address by
//! handle, so an animator never owns an engine object and tolerates a handle
//! being withdrawn at any time.

use vstd::prelude::*;

pub mod classify;
pub mod errors;
pub mod group;
pub mod naming;
pub mod single;
pub mod stage;

verus! {

/// The four discrete facing directions a billboard sprite can display.
///
/// `Front` means the camera sees the subject's face (forward vectors nearly
/// opposed), `Back` that it sees the subject's back (forward vectors nearly
/// parallel), and `Left`/`Right` that it sees a flank.
#[derive(Clone, Copy, Debug, PartialEq, Eq, Structural)]
pub enum Direction {
    Front,
    Back,
    Left,
    Right,
}

impl Default for Direction {
    /// A newly created animator faces `Front`.
    fn default() -> (r: Self)
        ensures
            r == Direction::Front,
    {
        Direction::Front
    }
}

/// The animation-naming capability: an animation identifier that resolves,
/// for each facing direction, to the name of a concrete frame-set.
///
/// Left and Right share one frame-set (the `side` artwork), distinguished
/// only by the mirror flag of the playback target.
pub trait SidedAnimation: Sized {
    /// The frame-set name this identifier resolves to for `dir`.
    spec fn to_sided_spec(&self, dir: Direction) -> Seq<char>;

    /// Resolves the frame-set name for `dir`.
    fn to_sided(&self, dir: Direction) -> (r: String)
        ensures
            r@ == self.to_sided_spec(dir),
    ;
}

} // verus!
