use sprite_facing::Direction;
use sprite_facing::errors::AnimatorError;
use sprite_facing::group::GroupFacingAnimator;
use sprite_facing::naming::NamedAnimation;
use sprite_facing::stage::Stage;

fn wired_group(
    camera_heading: i32,
    member_headings: &[i32],
) -> (GroupFacingAnimator<NamedAnimation>, Stage, Vec<usize>) {
    let mut stage = Stage::new();
    let cam = stage.add_camera(camera_heading);
    let mut members = Vec::new();
    for &h in member_headings.iter() {
        members.push(stage.add_sprite(h));
    }
    let mut group = GroupFacingAnimator::new(NamedAnimation::new("Walk"));
    group.assign_camera(Some(cam));
    group.set_members(members.clone());
    (group, stage, members)
}

#[test]
fn test_group_broadcast_reaches_all_members() {
    // The direction comes from member 0 alone; the others' headings differ
    // but every member is switched to the representative's frame-set.
    let (mut group, mut stage, members) = wired_group(0, &[9000, 0, 27000]);

    assert_eq!(Ok(()), group.update(&mut stage));

    assert_eq!(Direction::Right, group.get_current_dir());
    for &m in members.iter() {
        let state = stage.sprites[m].as_ref().unwrap();
        assert_eq!("walk_side", state.frame_set);
        assert!(!state.flipped);
        assert!(state.playing);
    }
}

#[test]
fn test_group_broadcast_is_best_effort() {
    let (mut group, mut stage, members) = wired_group(0, &[9000, 9000, 9000]);
    stage.remove_sprite(members[1]);

    let result = group.update(&mut stage);

    // Member 1 failed, members 0 and 2 were still pushed, and the failure
    // is reported.
    assert_eq!(Err(AnimatorError::AnimationChangeFailed), result);
    assert_eq!("walk_side", stage.sprites[members[0]].as_ref().unwrap().frame_set);
    assert_eq!("walk_side", stage.sprites[members[2]].as_ref().unwrap().frame_set);
    assert!(stage.sprites[members[1]].is_none());
}

#[test]
fn test_group_without_members_or_camera() {
    let mut stage = Stage::new();
    let mut group = GroupFacingAnimator::new(NamedAnimation::new("Walk"));
    assert_eq!(Direction::Front, group.get_current_dir());
    assert_eq!(Err(AnimatorError::SubjectNotSet), group.update(&mut stage));

    let spr = stage.add_sprite(9000);
    group.set_members(vec![spr]);
    assert_eq!(Err(AnimatorError::CameraNotSet), group.update(&mut stage));

    let cam = stage.add_camera(0);
    group.assign_camera(Some(cam));
    assert_eq!(Ok(()), group.update(&mut stage));
    assert_eq!(Direction::Right, group.get_current_dir());
}

#[test]
fn test_group_change_animation_broadcasts() {
    let (mut group, mut stage, members) = wired_group(0, &[0, 0]);

    assert_eq!(Ok(()), group.change_animation(NamedAnimation::new("Run"), &mut stage));
    for &m in members.iter() {
        assert_eq!("run_front", stage.sprites[m].as_ref().unwrap().frame_set);
        assert!(stage.sprites[m].as_ref().unwrap().playing);
    }

    // Repeating the same identifier still pushes to every member.
    stage.pause_playback(members[0]);
    stage.pause_playback(members[1]);
    assert_eq!(Ok(()), group.change_animation(NamedAnimation::new("Run"), &mut stage));
    assert!(stage.sprites[members[0]].as_ref().unwrap().playing);
    assert!(stage.sprites[members[1]].as_ref().unwrap().playing);
}

#[test]
fn test_group_change_animation_reports_first_failure() {
    let (mut group, mut stage, members) = wired_group(0, &[0, 0, 0]);
    stage.remove_sprite(members[2]);

    let result = group.change_animation(NamedAnimation::new("Run"), &mut stage);

    assert_eq!(Err(AnimatorError::AnimationChangeFailed), result);
    assert_eq!("run_front", stage.sprites[members[0]].as_ref().unwrap().frame_set);
    assert_eq!("run_front", stage.sprites[members[1]].as_ref().unwrap().frame_set);
}

#[test]
fn test_group_play_and_pause() {
    let (mut group, mut stage, members) = wired_group(0, &[9000, 9000]);
    assert!(!group.is_playing(&stage));

    assert_eq!(Ok(()), group.play(&mut stage));
    assert!(group.is_playing(&stage));
    assert!(stage.sprites[members[1]].as_ref().unwrap().playing);

    assert_eq!(Ok(()), group.pause(&mut stage));
    assert!(!group.is_playing(&stage));
    assert!(!stage.sprites[members[1]].as_ref().unwrap().playing);

    // Pausing freezes direction tracking; playing resumes it.
    stage.set_sprite_heading(members[0], 27000);
    assert_eq!(Ok(()), group.update(&mut stage));
    assert_eq!(Direction::Front, group.current_direction);
    assert_eq!(Ok(()), group.play(&mut stage));
    assert_eq!(Ok(()), group.update(&mut stage));
    assert_eq!(Direction::Left, group.get_current_dir());
}

#[test]
fn test_group_play_reports_a_withdrawn_member() {
    let (mut group, mut stage, members) = wired_group(0, &[9000, 9000]);
    stage.remove_sprite(members[1]);

    assert_eq!(Err(AnimatorError::SubjectNotSet), group.play(&mut stage));
    assert!(stage.sprites[members[0]].as_ref().unwrap().playing);
}

#[test]
fn test_group_from_single_animator() {
    let mut stage = Stage::new();
    let cam = stage.add_camera(0);
    let spr = stage.add_sprite(9000);
    let mut single = sprite_facing::single::SingleFacingAnimator::new(NamedAnimation::new("Walk"));
    single.assign_camera(Some(cam));
    single.assign_sprite(Some(spr));
    assert_eq!(Ok(()), single.update(&mut stage));

    let mut group = GroupFacingAnimator::from_single(single);
    assert_eq!(&vec![spr], group.get_members());
    assert_eq!(Direction::Right, group.get_current_dir());
    assert_eq!(&NamedAnimation::new("Walk"), group.get_current_animation());

    // The adopted direction is the one last pushed, so an unchanged angle
    // stays debounced.
    stage.pause_playback(spr);
    assert_eq!(Ok(()), group.update(&mut stage));
    assert!(!stage.sprites[spr].as_ref().unwrap().playing);
}

#[test]
fn test_group_members_are_replaced_wholesale() {
    let (mut group, mut stage, members) = wired_group(0, &[9000]);
    assert_eq!(Ok(()), group.update(&mut stage));
    assert_eq!(Direction::Right, group.get_current_dir());

    let other = stage.add_sprite(27000);
    group.set_members(vec![other]);
    assert_eq!(&vec![other], group.get_members());

    // The shared direction state is kept, so the new member is switched as
    // soon as the representative's heading classifies differently.
    assert_eq!(Ok(()), group.update(&mut stage));
    assert_eq!(Direction::Left, group.get_current_dir());
    assert!(stage.sprites[other].as_ref().unwrap().flipped);
}
