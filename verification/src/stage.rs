//! The host-owned table of engine objects that animators act on.
//!
//! An animator never owns a camera or a sprite playback target: both are
//! engine-owned resources it only observes and commands. The [`Stage`] models
//! that ownership split. The host registers each camera and each sprite in
//! the table and hands the animator a handle (an index); the host may
//! withdraw an entry at any time, and the animator treats a handle whose
//! entry is gone exactly like one that was never attached.

use vstd::prelude::*;

use crate::Direction;
use crate::classify::FULL_TURN;

verus! {

/// The observable state of one sprite playback target.
#[derive(Debug)]
pub struct PlaybackState {
    /// The name of the frame-set the sprite currently renders.
    pub frame_set: String,
    /// Whether rendering is mirrored horizontally. Left and Right share one
    /// frame-set; Left is shown by mirroring it.
    pub flipped: bool,
    /// Whether playback is currently running.
    pub playing: bool,
    /// The yaw of the sprite's forward vector around the world-up axis, in
    /// centidegrees in [0, 36000).
    pub heading: i32,
}

/// The host-owned table: camera headings and sprite playback targets,
/// addressed by handle. A `None` entry is a withdrawn object whose handle is
/// dead.
pub struct Stage {
    /// Camera forward headings, in centidegrees in [0, 36000).
    pub cameras: Vec<Option<i32>>,
    /// Sprite playback targets.
    pub sprites: Vec<Option<PlaybackState>>,
}

/// How a playback target changes when a frame-set switch is pushed to it:
/// the frame-set is replaced by `name`, playback starts, a side direction
/// sets the mirror flag (Left mirrored, Right not), any other direction
/// leaves it alone, and the sprite's own transform is untouched.
pub open spec fn state_pushed(
    pre: PlaybackState,
    post: PlaybackState,
    name: Seq<char>,
    dir: Direction,
) -> bool {
    &&& post.frame_set@ == name
    &&& post.playing == true
    &&& post.flipped == (if dir is Left {
        true
    } else if dir is Right {
        false
    } else {
        pre.flipped
    })
    &&& post.heading == pre.heading
}

/// A push of `name` for `dir` reached the live sprite `id` and nothing else
/// on the stage changed.
pub open spec fn sprite_pushed(
    pre: Stage,
    post: Stage,
    id: int,
    name: Seq<char>,
    dir: Direction,
) -> bool {
    &&& post.cameras == pre.cameras
    &&& post.sprites@.len() == pre.sprites@.len()
    &&& forall|j: int|
        0 <= j < pre.sprites@.len() && j != id ==> post.sprites@[j] == pre.sprites@[j]
    &&& pre.sprite_live_at(id)
    &&& post.sprites@[id] is Some
    &&& state_pushed(pre.sprites@[id]->0, post.sprites@[id]->0, name, dir)
}

/// Playback on the live sprite `id` was switched to `playing` and nothing
/// else on the stage changed.
pub open spec fn playing_set(pre: Stage, post: Stage, id: int, playing: bool) -> bool {
    &&& post.cameras == pre.cameras
    &&& post.sprites@.len() == pre.sprites@.len()
    &&& forall|j: int|
        0 <= j < pre.sprites@.len() && j != id ==> post.sprites@[j] == pre.sprites@[j]
    &&& pre.sprite_live_at(id)
    &&& post.sprites@[id] is Some
    &&& post.sprites@[id]->0 == (PlaybackState { playing, ..pre.sprites@[id]->0 })
}

impl Stage {
    /// Every registered heading is a normalized centidegree angle.
    pub open spec fn wf(self) -> bool {
        &&& forall|i: int|
            0 <= i < self.cameras@.len() && (#[trigger] self.cameras@[i]) is Some ==> 0
                <= self.cameras@[i]->0 < FULL_TURN
        &&& forall|i: int|
            0 <= i < self.sprites@.len() && (#[trigger] self.sprites@[i]) is Some ==> 0
                <= self.sprites@[i]->0.heading < FULL_TURN
    }

    /// The camera handle is attached and its entry is still in the table.
    pub open spec fn camera_live(self, camera: Option<usize>) -> bool {
        &&& camera is Some
        &&& camera->0 < self.cameras@.len()
        &&& self.cameras@[camera->0 as int] is Some
    }

    /// The heading of a live camera handle.
    pub open spec fn camera_heading_of(self, camera: Option<usize>) -> int {
        self.cameras@[camera->0 as int]->0 as int
    }

    /// The sprite entry `id` is still in the table.
    pub open spec fn sprite_live_at(self, id: int) -> bool {
        &&& 0 <= id < self.sprites@.len()
        &&& self.sprites@[id] is Some
    }

    /// The sprite handle is attached and its entry is still in the table.
    pub open spec fn sprite_live(self, sprite: Option<usize>) -> bool {
        &&& sprite is Some
        &&& self.sprite_live_at(sprite->0 as int)
    }

    /// The playback state of the live sprite entry `id`.
    pub open spec fn sprite_at(self, id: int) -> PlaybackState {
        self.sprites@[id]->0
    }

    /// An empty stage.
    pub fn new() -> (s: Stage)
        ensures
            s.wf(),
            s.cameras@.len() == 0,
            s.sprites@.len() == 0,
    {
        Stage { cameras: Vec::new(), sprites: Vec::new() }
    }

    /// Registers a camera with the given forward heading and returns its
    /// handle.
    pub fn add_camera(&mut self, heading: i32) -> (id: usize)
        requires
            old(self).wf(),
            0 <= heading < FULL_TURN,
        ensures
            final(self).wf(),
            id == old(self).cameras@.len(),
            final(self).cameras@ == old(self).cameras@.push(Some(heading)),
            final(self).sprites == old(self).sprites,
    {
        let id = self.cameras.len();
        self.cameras.push(Some(heading));
        id
    }

    /// Withdraws the camera `id`; handles to it are dead afterwards. A handle
    /// that is already dead or out of range is left alone.
    pub fn remove_camera(&mut self, id: usize)
        requires
            old(self).wf(),
        ensures
            final(self).wf(),
            final(self).sprites == old(self).sprites,
            final(self).cameras@ == (if id < old(self).cameras@.len() {
                old(self).cameras@.update(id as int, None::<i32>)
            } else {
                old(self).cameras@
            }),
    {
        if id < self.cameras.len() {
            self.cameras[id] = None;
        }
    }

    /// Turns the camera `id` to a new forward heading; a dead or out-of-range
    /// handle is left alone.
    pub fn set_camera_heading(&mut self, id: usize, heading: i32)
        requires
            old(self).wf(),
            0 <= heading < FULL_TURN,
        ensures
            final(self).wf(),
            final(self).sprites == old(self).sprites,
            final(self).cameras@ == (if old(self).camera_live(Some(id)) {
                old(self).cameras@.update(id as int, Some(heading))
            } else {
                old(self).cameras@
            }),
    {
        if id < self.cameras.len() {
            if self.cameras[id].is_some() {
                self.cameras[id] = Some(heading);
            }
        }
    }

    /// Registers a sprite playback target with the given forward heading and
    /// returns its handle. It starts with an empty frame-set, unmirrored and
    /// paused.
    pub fn add_sprite(&mut self, heading: i32) -> (id: usize)
        requires
            old(self).wf(),
            0 <= heading < FULL_TURN,
        ensures
            final(self).wf(),
            id == old(self).sprites@.len(),
            final(self).cameras == old(self).cameras,
            final(self).sprites@.len() == old(self).sprites@.len() + 1,
            forall|j: int|
                0 <= j < old(self).sprites@.len() ==> final(self).sprites@[j] == old(
                    self,
                ).sprites@[j],
            final(self).sprite_live_at(id as int),
            final(self).sprite_at(id as int).frame_set@ == Seq::<char>::empty(),
            final(self).sprite_at(id as int).flipped == false,
            final(self).sprite_at(id as int).playing == false,
            final(self).sprite_at(id as int).heading == heading,
    {
        let id = self.sprites.len();
        self.sprites.push(
            Some(PlaybackState { frame_set: String::new(), flipped: false, playing: false, heading }),
        );
        id
    }

    /// Withdraws the sprite `id`; handles to it are dead afterwards. A handle
    /// that is already dead or out of range is left alone.
    pub fn remove_sprite(&mut self, id: usize)
        requires
            old(self).wf(),
        ensures
            final(self).wf(),
            final(self).cameras == old(self).cameras,
            final(self).sprites@ == (if id < old(self).sprites@.len() {
                old(self).sprites@.update(id as int, None::<PlaybackState>)
            } else {
                old(self).sprites@
            }),
    {
        if id < self.sprites.len() {
            self.sprites[id] = None;
        }
    }

    /// Turns the sprite `id` to a new forward heading, leaving its playback
    /// state alone; a dead or out-of-range handle is left alone entirely.
    pub fn set_sprite_heading(&mut self, id: usize, heading: i32)
        requires
            old(self).wf(),
            0 <= heading < FULL_TURN,
        ensures
            final(self).wf(),
            final(self).cameras == old(self).cameras,
            final(self).sprites@.len() == old(self).sprites@.len(),
            forall|j: int|
                0 <= j < old(self).sprites@.len() && j != id ==> final(self).sprites@[j] == old(
                    self,
                ).sprites@[j],
            if old(self).sprite_live_at(id as int) {
                &&& final(self).sprite_live_at(id as int)
                &&& final(self).sprite_at(id as int).frame_set == old(self).sprite_at(
                    id as int,
                ).frame_set
                &&& final(self).sprite_at(id as int).flipped == old(self).sprite_at(
                    id as int,
                ).flipped
                &&& final(self).sprite_at(id as int).playing == old(self).sprite_at(
                    id as int,
                ).playing
                &&& final(self).sprite_at(id as int).heading == heading
            } else {
                final(self).sprites@ == old(self).sprites@
            },
    {
        if id < self.sprites.len() && self.sprites[id].is_some() {
            let slot = &mut self.sprites[id];
            match slot {
                Some(state) => {
                    state.heading = heading;
                },
                None => {},
            }
        }
    }

    /// Pushes a frame-set switch to the playback target `id`: sets the
    /// frame-set name, mirrors for a side direction, and starts playback.
    /// Reports whether the target was still there to accept it.
    pub fn push_frame_set(&mut self, id: usize, name: &str, dir: Direction) -> (ok: bool)
        requires
            old(self).wf(),
        ensures
            final(self).wf(),
            ok == old(self).sprite_live_at(id as int),
            if ok {
                sprite_pushed(*old(self), *final(self), id as int, name@, dir)
            } else {
                *final(self) == *old(self)
            },
    {
        if id < self.sprites.len() && self.sprites[id].is_some() {
            let slot = &mut self.sprites[id];
            match slot {
                Some(state) => {
                    state.frame_set = name.to_owned();
                    state.playing = true;
                    match dir {
                        Direction::Left => {
                            state.flipped = true;
                        },
                        Direction::Right => {
                            state.flipped = false;
                        },
                        _ => {},
                    }
                    true
                },
                None => false,
            }
        } else {
            false
        }
    }

    /// Whether the playback target `id` is still there and playing.
    pub fn sprite_playing(&self, id: usize) -> (r: bool)
        ensures
            r == (self.sprite_live_at(id as int) && self.sprite_at(id as int).playing),
    {
        if id < self.sprites.len() {
            match &self.sprites[id] {
                Some(state) => state.playing,
                None => false,
            }
        } else {
            false
        }
    }

    /// Starts playback on the target `id` if it is still there; reports
    /// whether it was.
    pub fn start_playback(&mut self, id: usize) -> (ok: bool)
        requires
            old(self).wf(),
        ensures
            final(self).wf(),
            ok == old(self).sprite_live_at(id as int),
            if ok {
                playing_set(*old(self), *final(self), id as int, true)
            } else {
                *final(self) == *old(self)
            },
    {
        if id < self.sprites.len() && self.sprites[id].is_some() {
            let slot = &mut self.sprites[id];
            match slot {
                Some(state) => {
                    state.playing = true;
                    true
                },
                None => false,
            }
        } else {
            false
        }
    }

    /// Pauses playback on the target `id` if it is still there; reports
    /// whether it was.
    pub fn pause_playback(&mut self, id: usize) -> (ok: bool)
        requires
            old(self).wf(),
        ensures
            final(self).wf(),
            ok == old(self).sprite_live_at(id as int),
            if ok {
                playing_set(*old(self), *final(self), id as int, false)
            } else {
                *final(self) == *old(self)
            },
    {
        if id < self.sprites.len() && self.sprites[id].is_some() {
            let slot = &mut self.sprites[id];
            match slot {
                Some(state) => {
                    state.playing = false;
                    true
                },
                None => false,
            }
        } else {
            false
        }
    }
}

} // verus!
