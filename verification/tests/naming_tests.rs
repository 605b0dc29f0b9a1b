use sprite_facing::Direction;
use sprite_facing::SidedAnimation;
use sprite_facing::naming::NamedAnimation;
use sprite_facing::naming::suffix_str;

#[test]
fn test_sided_animation_macro() {
    assert_eq!(
        "idle_front",
        NamedAnimation::new("Idle").to_sided(Direction::Front)
    );
    assert_eq!(
        "walking_side",
        NamedAnimation::new("Walking").to_sided(Direction::Left)
    );
    assert_eq!(
        "running_back",
        NamedAnimation::new("Running").to_sided(Direction::Back)
    );
}

#[test]
fn test_left_and_right_share_the_side_frame_set() {
    let walk = NamedAnimation::new("Walk");
    assert_eq!(walk.to_sided(Direction::Left), walk.to_sided(Direction::Right));
    assert_eq!("walk_side", walk.to_sided(Direction::Right));
}

#[test]
fn test_name_is_lower_cased() {
    let shout = NamedAnimation::new("SHOUT");
    assert_eq!("shout", shout.base());
    assert_eq!("shout_front", shout.to_sided(Direction::Front));
    let mixed = NamedAnimation::new("Mixed_Case3");
    assert_eq!("mixed_case3", mixed.base());
}

#[test]
fn test_direction_suffixes() {
    assert_eq!("_front", suffix_str(Direction::Front));
    assert_eq!("_back", suffix_str(Direction::Back));
    assert_eq!("_side", suffix_str(Direction::Left));
    assert_eq!("_side", suffix_str(Direction::Right));
}
