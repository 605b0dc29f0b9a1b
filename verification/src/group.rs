//! The facing animator for a synchronized group of sprite playback targets.
//!
//! A character rendered as several layered sprites (body, weapon, shadow)
//! must switch frame-sets in lockstep. The group animator classifies the
//! facing direction once, from one representative member, and broadcasts
//! every frame-set switch and playback command to all members in order.
//! Broadcasts are best-effort: a member that fails to accept a push does not
//! stop the remaining members, and only the first failure is reported.

use vstd::prelude::*;

use crate::Direction;
use crate::SidedAnimation;
use crate::classify::classify;
use crate::classify::classify_spec;
use crate::errors::AnimatorError;
use crate::single::SingleFacingAnimator;
use crate::stage::PlaybackState;
use crate::stage::Stage;
use crate::stage::state_pushed;

verus! {

/// Slot `j` of the stage belongs to one of the `members`.
pub open spec fn is_member_slot(members: Seq<usize>, j: int) -> bool {
    exists|k: int| 0 <= k < members.len() && members[k] == j
}

/// Slot `j` belongs to one of the first `n` members: what a broadcast loop
/// has covered after `n` steps.
spec fn member_slot_upto(members: Seq<usize>, n: int, j: int) -> bool {
    exists|k: int| 0 <= k < n && k < members.len() && members[k] == j
}

/// Some member's playback target is gone from the stage: a broadcast to it
/// fails.
pub open spec fn any_member_dead(st: Stage, members: Seq<usize>) -> bool {
    exists|k: int| 0 <= k < members.len() && !st.sprite_live_at(members[k] as int)
}

/// A broadcast of the frame-set `name` for `dir` reached every live member
/// slot, dead members and everything else on the stage are unchanged.
pub open spec fn members_pushed(
    pre_st: Stage,
    post_st: Stage,
    members: Seq<usize>,
    name: Seq<char>,
    dir: Direction,
) -> bool {
    &&& post_st.cameras == pre_st.cameras
    &&& post_st.sprites@.len() == pre_st.sprites@.len()
    &&& forall|j: int|
        0 <= j < pre_st.sprites@.len() ==> if is_member_slot(members, j) && pre_st.sprites@[j]
            is Some {
            &&& (#[trigger] post_st.sprites@[j]) is Some
            &&& state_pushed(pre_st.sprites@[j]->0, post_st.sprites@[j]->0, name, dir)
        } else {
            post_st.sprites@[j] == pre_st.sprites@[j]
        }
}

/// A broadcast `play` or `pause` reached every live member slot: its
/// `playing` flag is `playing`, everything else about it is kept, and all
/// other slots are unchanged.
pub open spec fn members_playing_set(
    pre_st: Stage,
    post_st: Stage,
    members: Seq<usize>,
    playing: bool,
) -> bool {
    &&& post_st.cameras == pre_st.cameras
    &&& post_st.sprites@.len() == pre_st.sprites@.len()
    &&& forall|j: int|
        0 <= j < pre_st.sprites@.len() ==> if is_member_slot(members, j) && pre_st.sprites@[j]
            is Some {
            &&& (#[trigger] post_st.sprites@[j]) is Some
            &&& post_st.sprites@[j]->0 == (PlaybackState { playing, ..pre_st.sprites@[j]->0 })
        } else {
            post_st.sprites@[j] == pre_st.sprites@[j]
        }
}

/// Drives an ordered group of playback targets that share one animation and
/// one direction decision, derived from the representative member at index
/// 0 and never averaged across members.
pub struct GroupFacingAnimator<A: SidedAnimation> {
    /// While set, `update` leaves the direction (and the stage) alone.
    pub freeze: bool,
    /// The animation identifier shared by every member.
    pub current_animation: A,
    /// The most recently computed facing direction.
    pub current_direction: Direction,
    /// The direction last broadcast to every member without failure.
    pub last_direction: Direction,
    /// Handle of the camera whose forward heading is classified against.
    pub camera: Option<usize>,
    /// Handles of the member playback targets, in broadcast order; the
    /// member at index 0 is the representative.
    pub members: Vec<usize>,
}

impl<A: SidedAnimation> GroupFacingAnimator<A> {
    /// How one `update` call transforms the group and the stage, and what it
    /// returns: a frozen group does nothing; a missing representative or
    /// camera is reported without any other effect; an unchanged direction
    /// is debounced; a changed direction is recorded and broadcast
    /// best-effort to every member, and a member that failed to accept the
    /// push is reported while the direction stays marked as not yet pushed.
    pub open spec fn update_rel(
        pre: Self,
        pre_st: Stage,
        post: Self,
        post_st: Stage,
        r: Result<(), AnimatorError>,
    ) -> bool {
        if pre.freeze {
            post == pre && post_st == pre_st && r is Ok
        } else if pre.members@.len() == 0 || !pre_st.sprite_live_at(pre.members@[0] as int) {
            post == pre && post_st == pre_st && r == Err::<(), AnimatorError>(
                AnimatorError::SubjectNotSet,
            )
        } else if !pre_st.camera_live(pre.camera) {
            post == pre && post_st == pre_st && r == Err::<(), AnimatorError>(
                AnimatorError::CameraNotSet,
            )
        } else {
            let d = classify_spec(
                pre_st.camera_heading_of(pre.camera),
                pre_st.sprite_at(pre.members@[0] as int).heading as int,
            );
            if d == pre.last_direction {
                post == pre && post_st == pre_st && r is Ok
            } else {
                &&& members_pushed(
                    pre_st,
                    post_st,
                    pre.members@,
                    pre.current_animation.to_sided_spec(d),
                    d,
                )
                &&& if any_member_dead(pre_st, pre.members@) {
                    post == (Self { current_direction: d, ..pre }) && r == Err::<
                        (),
                        AnimatorError,
                    >(AnimatorError::AnimationChangeFailed)
                } else {
                    post == (Self { current_direction: d, last_direction: d, ..pre }) && r is Ok
                }
            }
        }
    }

    /// How one `change_animation` call transforms the group and the stage:
    /// the shared identifier is replaced, its frame-set for the current
    /// direction is broadcast best-effort to every member — with no debounce
    /// on the animation identity — and the first member-level failure, if
    /// any, is reported after all members were attempted.
    pub open spec fn change_rel(
        pre: Self,
        pre_st: Stage,
        post: Self,
        post_st: Stage,
        animation: A,
        r: Result<(), AnimatorError>,
    ) -> bool {
        &&& post == (Self { current_animation: animation, ..pre })
        &&& members_pushed(
            pre_st,
            post_st,
            pre.members@,
            animation.to_sided_spec(pre.current_direction),
            pre.current_direction,
        )
        &&& if any_member_dead(pre_st, pre.members@) {
            r == Err::<(), AnimatorError>(AnimatorError::AnimationChangeFailed)
        } else {
            r is Ok
        }
    }

    /// Creates a group showing `default_animation`, facing front, with no
    /// camera and no members attached.
    pub fn new(default_animation: A) -> (r: Self)
        ensures
            r.freeze == false,
            r.current_animation == default_animation,
            r.current_direction == Direction::Front,
            r.last_direction == Direction::Front,
            r.camera is None,
            r.members@.len() == 0,
    {
        GroupFacingAnimator {
            freeze: false,
            current_animation: default_animation,
            current_direction: Direction::Front,
            last_direction: Direction::Front,
            camera: None,
            members: Vec::new(),
        }
    }

    /// Adopts a single-sprite animator's state as a one-member group: same
    /// camera, animation and direction, with its sprite as the
    /// representative. The animator must have a playback target attached.
    pub fn from_single(single: SingleFacingAnimator<A>) -> (r: Self)
        requires
            single.sprite is Some,
        ensures
            r.freeze == false,
            r.current_animation == single.current_animation,
            r.current_direction == single.current_direction,
            r.last_direction == single.current_direction,
            r.camera == single.camera,
            r.members@ == seq![single.sprite->0],
    {
        let members = vec![single.sprite.unwrap()];
        GroupFacingAnimator {
            freeze: false,
            current_animation: single.current_animation,
            current_direction: single.current_direction,
            last_direction: single.current_direction,
            camera: single.camera,
            members,
        }
    }

    /// Replaces the stored camera handle; `None` clears it.
    pub fn assign_camera(&mut self, camera: Option<usize>)
        ensures
            *final(self) == (Self { camera, ..*old(self) }),
    {
        self.camera = camera;
    }

    /// Replaces the member sequence entirely; the shared animation and
    /// direction state are kept.
    pub fn set_members(&mut self, members: Vec<usize>)
        ensures
            *final(self) == (Self { members, ..*old(self) }),
    {
        self.members = members;
    }

    /// The member handles, in broadcast order.
    pub fn get_members(&self) -> (r: &Vec<usize>)
        ensures
            r@ == self.members@,
    {
        &self.members
    }

    /// The per-frame entry point: classifies the facing direction from the
    /// camera and the representative member and, only when it differs from
    /// the direction last broadcast, pushes the matching frame-set to every
    /// member in order.
    pub fn update(&mut self, stage: &mut Stage) -> (r: Result<(), AnimatorError>)
        requires
            old(stage).wf(),
        ensures
            final(stage).wf(),
            Self::update_rel(*old(self), *old(stage), *final(self), *final(stage), r),
    {
        if self.freeze {
            return Ok(());
        }
        if self.members.len() == 0 {
            return Err(AnimatorError::SubjectNotSet);
        }
        let rep = self.members[0];
        if rep >= stage.sprites.len() {
            return Err(AnimatorError::SubjectNotSet);
        }
        let rep_heading = match &stage.sprites[rep] {
            Some(state) => state.heading,
            None => { return Err(AnimatorError::SubjectNotSet) },
        };
        let cam_id = match self.camera {
            Some(c) => c,
            None => { return Err(AnimatorError::CameraNotSet) },
        };
        if cam_id >= stage.cameras.len() {
            return Err(AnimatorError::CameraNotSet);
        }
        let cam_heading = match stage.cameras[cam_id] {
            Some(h) => h,
            None => { return Err(AnimatorError::CameraNotSet) },
        };
        let d = classify(cam_heading, rep_heading);
        if d == self.last_direction {
            return Ok(());
        }
        self.current_direction = d;
        let name = self.current_animation.to_sided(d);
        let failed = Self::broadcast_push(stage, &self.members, name.as_str(), d);
        if failed {
            return Err(AnimatorError::AnimationChangeFailed);
        }
        self.last_direction = d;
        Ok(())
    }

    /// Replaces the shared animation and broadcasts its frame-set for the
    /// current direction to every member, starting playback; the direction
    /// and freeze state are untouched.
    pub fn change_animation(&mut self, animation: A, stage: &mut Stage) -> (r: Result<
        (),
        AnimatorError,
    >)
        requires
            old(stage).wf(),
        ensures
            final(stage).wf(),
            Self::change_rel(*old(self), *old(stage), *final(self), *final(stage), animation, r),
    {
        self.current_animation = animation;
        let name = self.current_animation.to_sided(self.current_direction);
        let failed = Self::broadcast_push(stage, &self.members, name.as_str(), self.current_direction);
        if failed {
            Err(AnimatorError::AnimationChangeFailed)
        } else {
            Ok(())
        }
    }

    /// Pushes one frame-set to every member in order, best-effort: a dead
    /// member does not stop the others. Reports whether any member failed.
    fn broadcast_push(stage: &mut Stage, members: &Vec<usize>, name: &str, dir: Direction) -> (failed:
        bool)
        requires
            old(stage).wf(),
        ensures
            final(stage).wf(),
            members_pushed(*old(stage), *final(stage), members@, name@, dir),
            failed == any_member_dead(*old(stage), members@),
    {
        let mut failed = false;
        let mut i: usize = 0;
        while i < members.len()
            invariant
                i <= members@.len(),
                old(stage).wf(),
                stage.wf(),
                stage.cameras == old(stage).cameras,
                stage.sprites@.len() == old(stage).sprites@.len(),
                forall|j: int|
                    0 <= j < old(stage).sprites@.len() ==> if member_slot_upto(
                        members@,
                        i as int,
                        j,
                    ) && old(stage).sprites@[j] is Some {
                        &&& (#[trigger] stage.sprites@[j]) is Some
                        &&& state_pushed(
                            old(stage).sprites@[j]->0,
                            stage.sprites@[j]->0,
                            name@,
                            dir,
                        )
                    } else {
                        stage.sprites@[j] == old(stage).sprites@[j]
                    },
                failed == exists|k: int|
                    0 <= k < i && !old(stage).sprite_live_at(members@[k] as int),
            decreases members@.len() - i,
        {
            let ghost st_before = *stage;
            let m = members[i];
            let ok = stage.push_frame_set(m, name, dir);
            proof {
                assert(st_before.sprite_live_at(m as int) == old(stage).sprite_live_at(
                    m as int,
                ));
                if !ok {
                    assert(!old(stage).sprite_live_at(members@[i as int] as int));
                }
            }
            if !ok {
                failed = true;
            }
            proof {
                assert forall|j: int| 0 <= j < old(stage).sprites@.len() implies (if
                    member_slot_upto(members@, i + 1, j) && old(stage).sprites@[j] is Some {
                    &&& (#[trigger] stage.sprites@[j]) is Some
                    &&& state_pushed(old(stage).sprites@[j]->0, stage.sprites@[j]->0, name@, dir)
                } else {
                    stage.sprites@[j] == old(stage).sprites@[j]
                }) by {
                    if member_slot_upto(members@, i + 1, j) && !member_slot_upto(
                        members@,
                        i as int,
                        j,
                    ) {
                        assert(members@[i as int] == j);
                    }
                    if member_slot_upto(members@, i as int, j) {
                        assert(member_slot_upto(members@, i + 1, j));
                    }
                }
                assert(failed == exists|k: int|
                    0 <= k < i + 1 && !old(stage).sprite_live_at(members@[k] as int)) by {
                    if !ok {
                        assert(0 <= i < i + 1 && !old(stage).sprite_live_at(
                            members@[i as int] as int,
                        ));
                    }
                }
            }
            i += 1;
        }
        proof {
            assert forall|j: int| #[trigger]
                is_member_slot(members@, j) == member_slot_upto(
                members@,
                members@.len() as int,
                j,
            ) by {
                if is_member_slot(members@, j) {
                    let k = choose|k: int| 0 <= k < members@.len() && members@[k] == j;
                    assert(0 <= k < members@.len() as int && k < members@.len() && members@[k]
                        == j);
                }
                if member_slot_upto(members@, members@.len() as int, j) {
                    let k = choose|k: int|
                        0 <= k < members@.len() as int && k < members@.len() && members@[k] == j;
                    assert(0 <= k < members@.len() && members@[k] == j);
                }
            }
        }
        failed
    }

    /// Clears the freeze and starts playback on every live member; the
    /// first member whose target is gone is reported after all members were
    /// attempted.
    pub fn play(&mut self, stage: &mut Stage) -> (r: Result<(), AnimatorError>)
        requires
            old(stage).wf(),
        ensures
            final(stage).wf(),
            *final(self) == (Self { freeze: false, ..*old(self) }),
            members_playing_set(*old(stage), *final(stage), old(self).members@, true),
            if any_member_dead(*old(stage), old(self).members@) {
                r == Err::<(), AnimatorError>(AnimatorError::SubjectNotSet)
            } else {
                r is Ok
            },
    {
        self.freeze = false;
        let failed = Self::broadcast_playing(stage, &self.members, true);
        if failed {
            Err(AnimatorError::SubjectNotSet)
        } else {
            Ok(())
        }
    }

    /// Sets the freeze and pauses playback on every live member; the first
    /// member whose target is gone is reported after all members were
    /// attempted.
    pub fn pause(&mut self, stage: &mut Stage) -> (r: Result<(), AnimatorError>)
        requires
            old(stage).wf(),
        ensures
            final(stage).wf(),
            *final(self) == (Self { freeze: true, ..*old(self) }),
            members_playing_set(*old(stage), *final(stage), old(self).members@, false),
            if any_member_dead(*old(stage), old(self).members@) {
                r == Err::<(), AnimatorError>(AnimatorError::SubjectNotSet)
            } else {
                r is Ok
            },
    {
        self.freeze = true;
        let failed = Self::broadcast_playing(stage, &self.members, false);
        if failed {
            Err(AnimatorError::SubjectNotSet)
        } else {
            Ok(())
        }
    }

    /// Switches playback on or off for every member in order, best-effort.
    /// Reports whether any member's target was gone.
    fn broadcast_playing(stage: &mut Stage, members: &Vec<usize>, playing: bool) -> (failed: bool)
        requires
            old(stage).wf(),
        ensures
            final(stage).wf(),
            members_playing_set(*old(stage), *final(stage), members@, playing),
            failed == any_member_dead(*old(stage), members@),
    {
        let mut failed = false;
        let mut i: usize = 0;
        while i < members.len()
            invariant
                i <= members@.len(),
                old(stage).wf(),
                stage.wf(),
                stage.cameras == old(stage).cameras,
                stage.sprites@.len() == old(stage).sprites@.len(),
                forall|j: int|
                    0 <= j < old(stage).sprites@.len() ==> if member_slot_upto(
                        members@,
                        i as int,
                        j,
                    ) && old(stage).sprites@[j] is Some {
                        &&& (#[trigger] stage.sprites@[j]) is Some
                        &&& stage.sprites@[j]->0 == (PlaybackState {
                            playing,
                            ..old(stage).sprites@[j]->0
                        })
                    } else {
                        stage.sprites@[j] == old(stage).sprites@[j]
                    },
                failed == exists|k: int|
                    0 <= k < i && !old(stage).sprite_live_at(members@[k] as int),
            decreases members@.len() - i,
        {
            let ghost st_before = *stage;
            let m = members[i];
            let ok = if playing {
                stage.start_playback(m)
            } else {
                stage.pause_playback(m)
            };
            proof {
                assert(st_before.sprite_live_at(m as int) == old(stage).sprite_live_at(
                    m as int,
                ));
            }
            if !ok {
                failed = true;
            }
            proof {
                assert forall|j: int| 0 <= j < old(stage).sprites@.len() implies (if
                    member_slot_upto(members@, i + 1, j) && old(stage).sprites@[j] is Some {
                    &&& (#[trigger] stage.sprites@[j]) is Some
                    &&& stage.sprites@[j]->0 == (PlaybackState {
                        playing,
                        ..old(stage).sprites@[j]->0
                    })
                } else {
                    stage.sprites@[j] == old(stage).sprites@[j]
                }) by {
                    if member_slot_upto(members@, i + 1, j) && !member_slot_upto(
                        members@,
                        i as int,
                        j,
                    ) {
                        assert(members@[i as int] == j);
                    }
                    if member_slot_upto(members@, i as int, j) {
                        assert(member_slot_upto(members@, i + 1, j));
                    }
                }
                assert(failed == exists|k: int|
                    0 <= k < i + 1 && !old(stage).sprite_live_at(members@[k] as int)) by {
                    if !ok {
                        assert(0 <= i < i + 1 && !old(stage).sprite_live_at(
                            members@[i as int] as int,
                        ));
                    }
                }
            }
            i += 1;
        }
        proof {
            assert forall|j: int| #[trigger]
                is_member_slot(members@, j) == member_slot_upto(
                members@,
                members@.len() as int,
                j,
            ) by {
                if is_member_slot(members@, j) {
                    let k = choose|k: int| 0 <= k < members@.len() && members@[k] == j;
                    assert(0 <= k < members@.len() as int && k < members@.len() && members@[k]
                        == j);
                }
                if member_slot_upto(members@, members@.len() as int, j) {
                    let k = choose|k: int|
                        0 <= k < members@.len() as int && k < members@.len() && members@[k] == j;
                    assert(0 <= k < members@.len() && members@[k] == j);
                }
            }
        }
        failed
    }

    /// Suppresses direction recomputation until a later `play` clears the
    /// freeze; manual animation changes still apply.
    pub fn freeze_until_finished(&mut self)
        ensures
            *final(self) == (Self { freeze: true, ..*old(self) }),
    {
        self.freeze = true;
    }

    /// The group's facing direction, or the default direction when the
    /// group has no members.
    pub fn get_current_dir(&self) -> (d: Direction)
        ensures
            d == (if self.members@.len() == 0 {
                Direction::Front
            } else {
                self.current_direction
            }),
    {
        if self.members.len() == 0 {
            Direction::default()
        } else {
            self.current_direction
        }
    }

    /// The shared animation identifier.
    pub fn get_current_animation(&self) -> (a: &A)
        ensures
            a == &self.current_animation,
    {
        &self.current_animation
    }

    /// Whether the representative member's target is live and playing;
    /// `false` when the group has no members.
    pub fn is_playing(&self, stage: &Stage) -> (r: bool)
        ensures
            r == (self.members@.len() > 0 && stage.sprite_live_at(self.members@[0] as int)
                && stage.sprite_at(self.members@[0] as int).playing),
    {
        if self.members.len() == 0 {
            false
        } else {
            stage.sprite_playing(self.members[0])
        }
    }

    /// Best-effort broadcast: even when some member's target is gone, an
    /// `update` that classified a new direction still pushes the frame-set
    /// to every member that is live, and reports the failure.
    pub proof fn lemma_update_best_effort(
        pre: Self,
        pre_st: Stage,
        post: Self,
        post_st: Stage,
        r: Result<(), AnimatorError>,
        d: Direction,
        k: int,
    )
        requires
            !pre.freeze,
            pre.members@.len() > 0,
            pre_st.sprite_live_at(pre.members@[0] as int),
            pre_st.camera_live(pre.camera),
            d == classify_spec(
                pre_st.camera_heading_of(pre.camera),
                pre_st.sprite_at(pre.members@[0] as int).heading as int,
            ),
            d != pre.last_direction,
            0 <= k < pre.members@.len(),
            !pre_st.sprite_live_at(pre.members@[k] as int),
            Self::update_rel(pre, pre_st, post, post_st, r),
        ensures
            r == Err::<(), AnimatorError>(AnimatorError::AnimationChangeFailed),
            forall|j: int|
                0 <= j < pre.members@.len() && pre_st.sprite_live_at(pre.members@[j] as int)
                    ==> state_pushed(
                    pre_st.sprite_at(pre.members@[j] as int),
                    post_st.sprite_at(pre.members@[j] as int),
                    pre.current_animation.to_sided_spec(d),
                    d,
                ),
    {
        assert(any_member_dead(pre_st, pre.members@));
        assert forall|j: int|
            0 <= j < pre.members@.len() && pre_st.sprite_live_at(
                pre.members@[j] as int,
            ) implies state_pushed(
            pre_st.sprite_at(pre.members@[j] as int),
            post_st.sprite_at(pre.members@[j] as int),
            pre.current_animation.to_sided_spec(d),
            d,
        ) by {
            assert(is_member_slot(pre.members@, pre.members@[j] as int));
        }
    }
}

} // verus!
