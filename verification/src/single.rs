//! The facing animator for one sprite playback target.
//!
//! Each frame the host calls [`SingleFacingAnimator::update`]; the animator
//! reads the camera and sprite headings from the stage, classifies the
//! facing direction, and only on a change pushes the matching frame-set to
//! the playback target. Direction recomputation can be frozen, and a missing
//! camera or target is a recoverable error, never a crash.

use vstd::prelude::*;

use crate::Direction;
use crate::SidedAnimation;
use crate::classify::classify;
use crate::classify::classify_spec;
use crate::errors::AnimatorError;
use crate::stage::Stage;
use crate::stage::playing_set;
use crate::stage::sprite_pushed;

verus! {

/// Owns one subject's animation state and drives one playback target.
///
/// The camera and the playback target are engine-owned: the animator holds
/// only handles into the host's [`Stage`] and tolerates either being unset
/// or withdrawn at any time.
pub struct SingleFacingAnimator<A: SidedAnimation> {
    /// While set, `update` leaves the direction (and the stage) alone.
    pub freeze: bool,
    /// The animation identifier whose directional frame-sets are shown.
    pub current_animation: A,
    /// The most recently computed facing direction.
    pub current_direction: Direction,
    /// The direction the playback target was last actually switched to.
    pub last_direction: Direction,
    /// Handle of the camera whose forward heading is classified against.
    pub camera: Option<usize>,
    /// Handle of the driven sprite playback target.
    pub sprite: Option<usize>,
}

impl<A: SidedAnimation> SingleFacingAnimator<A> {
    /// How one `update` call transforms the animator and the stage, and what
    /// it returns: a frozen animator does nothing; a missing camera or
    /// target is reported without any other effect; an unchanged direction
    /// is debounced; and only a changed direction is recorded and pushed to
    /// the playback target.
    pub open spec fn update_rel(
        pre: Self,
        pre_st: Stage,
        post: Self,
        post_st: Stage,
        r: Result<(), AnimatorError>,
    ) -> bool {
        if pre.freeze {
            post == pre && post_st == pre_st && r is Ok
        } else if !pre_st.camera_live(pre.camera) {
            post == pre && post_st == pre_st && r == Err::<(), AnimatorError>(
                AnimatorError::CameraNotSet,
            )
        } else if !pre_st.sprite_live(pre.sprite) {
            post == pre && post_st == pre_st && r == Err::<(), AnimatorError>(
                AnimatorError::SubjectNotSet,
            )
        } else {
            let d = classify_spec(
                pre_st.camera_heading_of(pre.camera),
                pre_st.sprite_at(pre.sprite->0 as int).heading as int,
            );
            if d == pre.last_direction {
                post == pre && post_st == pre_st && r is Ok
            } else {
                &&& post == (Self { current_direction: d, last_direction: d, ..pre })
                &&& sprite_pushed(
                    pre_st,
                    post_st,
                    pre.sprite->0 as int,
                    pre.current_animation.to_sided_spec(d),
                    d,
                )
                &&& r is Ok
            }
        }
    }

    /// How one `change_animation` call transforms the animator and the
    /// stage: the identifier is replaced wholesale, and the frame-set for
    /// the current direction is pushed to the playback target whenever one
    /// is attached — with no debounce on the animation identity.
    pub open spec fn change_rel(
        pre: Self,
        pre_st: Stage,
        post: Self,
        post_st: Stage,
        animation: A,
    ) -> bool {
        &&& post == (Self { current_animation: animation, ..pre })
        &&& if pre_st.sprite_live(pre.sprite) {
            sprite_pushed(
                pre_st,
                post_st,
                pre.sprite->0 as int,
                animation.to_sided_spec(pre.current_direction),
                pre.current_direction,
            )
        } else {
            post_st == pre_st
        }
    }

    /// Creates an animator showing `default_animation`, facing front, with
    /// no camera and no playback target attached.
    pub fn new(default_animation: A) -> (r: Self)
        ensures
            r.freeze == false,
            r.current_animation == default_animation,
            r.current_direction == Direction::Front,
            r.last_direction == Direction::Front,
            r.camera is None,
            r.sprite is None,
    {
        SingleFacingAnimator {
            freeze: false,
            current_animation: default_animation,
            current_direction: Direction::Front,
            last_direction: Direction::Front,
            camera: None,
            sprite: None,
        }
    }

    /// Replaces the stored camera handle; `None` clears it.
    pub fn assign_camera(&mut self, camera: Option<usize>)
        ensures
            *final(self) == (Self { camera, ..*old(self) }),
    {
        self.camera = camera;
    }

    /// Replaces the stored playback-target handle; `None` clears it.
    pub fn assign_sprite(&mut self, sprite: Option<usize>)
        ensures
            *final(self) == (Self { sprite, ..*old(self) }),
    {
        self.sprite = sprite;
    }

    /// The per-frame entry point: classifies the facing direction from the
    /// live camera and sprite headings and, only when it differs from the
    /// direction last pushed, switches the playback target's frame-set,
    /// mirror flag and playback.
    pub fn update(&mut self, stage: &mut Stage) -> (r: Result<(), AnimatorError>)
        requires
            old(stage).wf(),
        ensures
            final(stage).wf(),
            Self::update_rel(*old(self), *old(stage), *final(self), *final(stage), r),
    {
        if self.freeze {
            return Ok(());
        }
        let cam_id = match self.camera {
            Some(c) => c,
            None => { return Err(AnimatorError::CameraNotSet) },
        };
        if cam_id >= stage.cameras.len() {
            return Err(AnimatorError::CameraNotSet);
        }
        let cam_heading = match stage.cameras[cam_id] {
            Some(h) => h,
            None => { return Err(AnimatorError::CameraNotSet) },
        };
        let spr_id = match self.sprite {
            Some(s) => s,
            None => { return Err(AnimatorError::SubjectNotSet) },
        };
        if spr_id >= stage.sprites.len() {
            return Err(AnimatorError::SubjectNotSet);
        }
        let spr_heading = match &stage.sprites[spr_id] {
            Some(state) => state.heading,
            None => { return Err(AnimatorError::SubjectNotSet) },
        };
        let d = classify(cam_heading, spr_heading);
        if d == self.last_direction {
            return Ok(());
        }
        self.current_direction = d;
        let name = self.current_animation.to_sided(d);
        let _ = stage.push_frame_set(spr_id, name.as_str(), d);
        self.last_direction = d;
        Ok(())
    }

    /// Re-resolves the frame-set for the current animation and direction
    /// and pushes it to the playback target, starting playback; without a
    /// live target this is a no-op.
    pub fn update_animation(&mut self, stage: &mut Stage)
        requires
            old(stage).wf(),
        ensures
            final(stage).wf(),
            *final(self) == *old(self),
            if old(stage).sprite_live(old(self).sprite) {
                sprite_pushed(
                    *old(stage),
                    *final(stage),
                    old(self).sprite->0 as int,
                    old(self).current_animation.to_sided_spec(old(self).current_direction),
                    old(self).current_direction,
                )
            } else {
                *final(stage) == *old(stage)
            },
    {
        if let Some(spr_id) = self.sprite {
            let name = self.current_animation.to_sided(self.current_direction);
            let _ = stage.push_frame_set(spr_id, name.as_str(), self.current_direction);
        }
    }

    /// Replaces the current animation and, if a playback target is
    /// attached, immediately pushes the frame-set for the current direction
    /// and starts playback. The direction and freeze state are untouched.
    pub fn change_animation(&mut self, animation: A, stage: &mut Stage)
        requires
            old(stage).wf(),
        ensures
            final(stage).wf(),
            Self::change_rel(*old(self), *old(stage), *final(self), *final(stage), animation),
    {
        self.current_animation = animation;
        self.update_animation(stage);
    }

    /// Clears the freeze and starts playback on the target if one is
    /// attached and live; a missing target is a no-op, not an error.
    pub fn play(&mut self, stage: &mut Stage)
        requires
            old(stage).wf(),
        ensures
            final(stage).wf(),
            *final(self) == (Self { freeze: false, ..*old(self) }),
            if old(stage).sprite_live(old(self).sprite) {
                playing_set(*old(stage), *final(stage), old(self).sprite->0 as int, true)
            } else {
                *final(stage) == *old(stage)
            },
    {
        self.freeze = false;
        if let Some(spr_id) = self.sprite {
            let _ = stage.start_playback(spr_id);
        }
    }

    /// Sets the freeze and pauses playback on the target if one is attached
    /// and live; a missing target is a no-op, not an error.
    pub fn pause(&mut self, stage: &mut Stage)
        requires
            old(stage).wf(),
        ensures
            final(stage).wf(),
            *final(self) == (Self { freeze: true, ..*old(self) }),
            if old(stage).sprite_live(old(self).sprite) {
                playing_set(*old(stage), *final(stage), old(self).sprite->0 as int, false)
            } else {
                *final(stage) == *old(stage)
            },
    {
        self.freeze = true;
        if let Some(spr_id) = self.sprite {
            let _ = stage.pause_playback(spr_id);
        }
    }

    /// Suppresses direction recomputation until a later `play` clears the
    /// freeze; manual animation changes still apply.
    pub fn freeze_until_finished(&mut self)
        ensures
            *final(self) == (Self { freeze: true, ..*old(self) }),
    {
        self.freeze = true;
    }

    /// The most recently computed facing direction.
    pub fn get_current_dir(&self) -> (d: Direction)
        ensures
            d == self.current_direction,
    {
        self.current_direction
    }

    /// The current animation identifier.
    pub fn get_current_animation(&self) -> (a: &A)
        ensures
            a == &self.current_animation,
    {
        &self.current_animation
    }

    /// Whether the attached playback target is live and playing; `false`
    /// when none is attached.
    pub fn is_playing(&self, stage: &Stage) -> (r: bool)
        ensures
            r == (stage.sprite_live(self.sprite) && stage.sprite_at(
                self.sprite->0 as int,
            ).playing),
    {
        match self.sprite {
            Some(spr_id) => stage.sprite_playing(spr_id),
            None => false,
        }
    }

    /// Debounce: whatever one `update` call did, an immediately following
    /// `update` on the resulting animator and stage changes nothing and
    /// returns the same answer — at most one frame-set push reaches the
    /// playback target for an unchanged relative angle.
    pub proof fn lemma_update_idempotent(
        pre: Self,
        pre_st: Stage,
        mid: Self,
        mid_st: Stage,
        r1: Result<(), AnimatorError>,
        post: Self,
        post_st: Stage,
        r2: Result<(), AnimatorError>,
    )
        requires
            Self::update_rel(pre, pre_st, mid, mid_st, r1),
            Self::update_rel(mid, mid_st, post, post_st, r2),
        ensures
            post == mid,
            post_st == mid_st,
            r2 == r1,
    {
        if r1 is Ok {
            assert(r2 is Ok);
            assert(r1->Ok_0 == r2->Ok_0);
        }
    }

    /// Freeze: while the freeze is set, `update` never changes the animator
    /// — in particular its current direction — nor the stage, whatever the
    /// relative angle does.
    pub proof fn lemma_update_frozen(
        pre: Self,
        pre_st: Stage,
        post: Self,
        post_st: Stage,
        r: Result<(), AnimatorError>,
    )
        requires
            pre.freeze,
            Self::update_rel(pre, pre_st, post, post_st, r),
        ensures
            post == pre,
            post_st == pre_st,
            r is Ok,
    {
    }

    /// Missing dependency: without a live camera, `update` reports
    /// `CameraNotSet` and leaves everything — in particular the direction
    /// last pushed — unchanged.
    pub proof fn lemma_update_without_camera(
        pre: Self,
        pre_st: Stage,
        post: Self,
        post_st: Stage,
        r: Result<(), AnimatorError>,
    )
        requires
            !pre.freeze,
            !pre_st.camera_live(pre.camera),
            Self::update_rel(pre, pre_st, post, post_st, r),
        ensures
            r == Err::<(), AnimatorError>(AnimatorError::CameraNotSet),
            post == pre,
            post_st == pre_st,
    {
    }

    /// Recovery: once a live camera and a live playback target are wired
    /// up, an unfrozen `update` succeeds.
    pub proof fn lemma_update_after_wiring(
        pre: Self,
        pre_st: Stage,
        post: Self,
        post_st: Stage,
        r: Result<(), AnimatorError>,
    )
        requires
            !pre.freeze,
            pre_st.camera_live(pre.camera),
            pre_st.sprite_live(pre.sprite),
            Self::update_rel(pre, pre_st, post, post_st, r),
        ensures
            r is Ok,
    {
    }

    /// No debounce on the animation identity: a `change_animation` that
    /// repeats the identifier just set still pushes the frame-set to the
    /// attached playback target a second time.
    pub proof fn lemma_change_animation_not_debounced(
        pre: Self,
        st0: Stage,
        mid: Self,
        st1: Stage,
        post: Self,
        st2: Stage,
        animation: A,
    )
        requires
            st0.sprite_live(pre.sprite),
            Self::change_rel(pre, st0, mid, st1, animation),
            Self::change_rel(mid, st1, post, st2, animation),
        ensures
            sprite_pushed(
                st1,
                st2,
                pre.sprite->0 as int,
                animation.to_sided_spec(pre.current_direction),
                pre.current_direction,
            ),
    {
    }
}

} // verus!
