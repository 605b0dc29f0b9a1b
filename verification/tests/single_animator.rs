use sprite_facing::Direction;
use sprite_facing::errors::AnimatorError;
use sprite_facing::naming::NamedAnimation;
use sprite_facing::single::SingleFacingAnimator;
use sprite_facing::stage::Stage;

fn wired_animator(
    camera_heading: i32,
    sprite_heading: i32,
) -> (SingleFacingAnimator<NamedAnimation>, Stage, usize) {
    let mut stage = Stage::new();
    let cam = stage.add_camera(camera_heading);
    let spr = stage.add_sprite(sprite_heading);
    let mut animator = SingleFacingAnimator::new(NamedAnimation::new("Walk"));
    animator.assign_camera(Some(cam));
    animator.assign_sprite(Some(spr));
    (animator, stage, spr)
}

#[test]
fn test_changing_dir() {
    let mut stage = Stage::new();
    let mut animator = SingleFacingAnimator::new(NamedAnimation::new("Idle"));
    animator.change_animation(NamedAnimation::new("Attack"), &mut stage);

    assert_eq!(animator.get_current_animation(), &NamedAnimation::new("Attack"));
}

#[test]
fn test_camera_error() {
    let mut stage = Stage::new();
    let mut animator = SingleFacingAnimator::new(NamedAnimation::new("Idle"));

    let result = animator.update(&mut stage);

    assert_eq!(result, Err(AnimatorError::CameraNotSet));
}

#[test]
fn test_update_pushes_frame_set_on_direction_change() {
    // Subject heading 9000 against camera heading 0: signed angle +90 degrees.
    let (mut animator, mut stage, spr) = wired_animator(0, 9000);

    assert_eq!(Ok(()), animator.update(&mut stage));

    assert_eq!(Direction::Right, animator.get_current_dir());
    let state = stage.sprites[spr].as_ref().unwrap();
    assert_eq!("walk_side", state.frame_set);
    assert!(!state.flipped);
    assert!(state.playing);
}

#[test]
fn test_update_debounce() {
    let (mut animator, mut stage, spr) = wired_animator(0, 9000);
    assert_eq!(Ok(()), animator.update(&mut stage));

    // Pause behind the animator's back: a second update with an unchanged
    // relative angle must not push again, so playback stays paused.
    stage.pause_playback(spr);
    assert_eq!(Ok(()), animator.update(&mut stage));

    let state = stage.sprites[spr].as_ref().unwrap();
    assert!(!state.playing);
    assert_eq!("walk_side", state.frame_set);
    assert_eq!(Direction::Right, animator.get_current_dir());
}

#[test]
fn test_freeze_suppresses_direction_tracking() {
    let (mut animator, mut stage, _spr) = wired_animator(0, 9000);
    assert_eq!(Ok(()), animator.update(&mut stage));
    assert_eq!(Direction::Right, animator.get_current_dir());

    animator.freeze_until_finished();
    stage.set_sprite_heading(_spr, 27000);
    assert_eq!(Ok(()), animator.update(&mut stage));
    assert_eq!(Ok(()), animator.update(&mut stage));
    assert_eq!(Direction::Right, animator.get_current_dir());

    // play() clears the freeze and tracking resumes.
    animator.play(&mut stage);
    assert_eq!(Ok(()), animator.update(&mut stage));
    assert_eq!(Direction::Left, animator.get_current_dir());
}

#[test]
fn test_missing_camera_then_recovery() {
    let mut stage = Stage::new();
    let spr = stage.add_sprite(9000);
    let mut animator = SingleFacingAnimator::new(NamedAnimation::new("Walk"));
    animator.assign_sprite(Some(spr));

    assert_eq!(Err(AnimatorError::CameraNotSet), animator.update(&mut stage));
    assert_eq!(Direction::Front, animator.get_current_dir());
    assert_eq!("", stage.sprites[spr].as_ref().unwrap().frame_set);

    let cam = stage.add_camera(0);
    animator.assign_camera(Some(cam));
    assert_eq!(Ok(()), animator.update(&mut stage));
    assert_eq!(Direction::Right, animator.get_current_dir());
}

#[test]
fn test_missing_and_withdrawn_sprite() {
    let mut stage = Stage::new();
    let cam = stage.add_camera(0);
    let mut animator = SingleFacingAnimator::new(NamedAnimation::new("Walk"));
    animator.assign_camera(Some(cam));

    assert_eq!(Err(AnimatorError::SubjectNotSet), animator.update(&mut stage));

    let spr = stage.add_sprite(9000);
    animator.assign_sprite(Some(spr));
    stage.remove_sprite(spr);
    assert_eq!(Err(AnimatorError::SubjectNotSet), animator.update(&mut stage));
}

#[test]
fn test_side_directions_set_the_mirror_flag() {
    let (mut animator, mut stage, spr) = wired_animator(0, 27000);

    assert_eq!(Ok(()), animator.update(&mut stage));
    assert_eq!(Direction::Left, animator.get_current_dir());
    assert!(stage.sprites[spr].as_ref().unwrap().flipped);

    stage.set_sprite_heading(spr, 9000);
    assert_eq!(Ok(()), animator.update(&mut stage));
    assert_eq!(Direction::Right, animator.get_current_dir());
    assert!(!stage.sprites[spr].as_ref().unwrap().flipped);
}

#[test]
fn test_change_animation_is_not_debounced() {
    let (mut animator, mut stage, spr) = wired_animator(0, 0);

    animator.change_animation(NamedAnimation::new("Attack"), &mut stage);
    assert_eq!("attack_front", stage.sprites[spr].as_ref().unwrap().frame_set);
    assert!(stage.sprites[spr].as_ref().unwrap().playing);

    // Repeating the same identifier still pushes: playback restarts.
    stage.pause_playback(spr);
    animator.change_animation(NamedAnimation::new("Attack"), &mut stage);
    assert!(stage.sprites[spr].as_ref().unwrap().playing);
    assert_eq!("attack_front", stage.sprites[spr].as_ref().unwrap().frame_set);
}

#[test]
fn test_update_animation_repushes_current_frame_set() {
    let (mut animator, mut stage, spr) = wired_animator(0, 0);

    animator.update_animation(&mut stage);
    assert_eq!("walk_front", stage.sprites[spr].as_ref().unwrap().frame_set);
    assert!(stage.sprites[spr].as_ref().unwrap().playing);

    stage.pause_playback(spr);
    animator.update_animation(&mut stage);
    assert!(stage.sprites[spr].as_ref().unwrap().playing);
}

#[test]
fn test_play_and_pause() {
    let (mut animator, mut stage, spr) = wired_animator(0, 9000);
    assert!(!animator.is_playing(&stage));

    animator.play(&mut stage);
    assert!(animator.is_playing(&stage));
    assert!(stage.sprites[spr].as_ref().unwrap().playing);

    animator.pause(&mut stage);
    assert!(!animator.is_playing(&stage));
    assert!(!stage.sprites[spr].as_ref().unwrap().playing);

    // Without a target both are quiet no-ops.
    let mut lone = SingleFacingAnimator::new(NamedAnimation::new("Idle"));
    lone.play(&mut stage);
    lone.pause(&mut stage);
    assert!(!lone.is_playing(&stage));
}
