use sprite_facing::Direction;
use sprite_facing::classify::classify;
use sprite_facing::classify::classify_angle;
use sprite_facing::classify::signed_angle;

#[test]
fn test_cardinal_angles() {
    assert_eq!(Direction::Back, classify_angle(0));
    assert_eq!(Direction::Front, classify_angle(18000));
    assert_eq!(Direction::Right, classify_angle(9000));
    assert_eq!(Direction::Left, classify_angle(-9000));
}

#[test]
fn test_boundary_angles_belong_to_the_higher_bracket() {
    assert_eq!(Direction::Right, classify_angle(6500));
    assert_eq!(Direction::Left, classify_angle(-6500));
    assert_eq!(Direction::Front, classify_angle(15500));
    assert_eq!(Direction::Front, classify_angle(-15500));
    assert_eq!(Direction::Back, classify_angle(6499));
    assert_eq!(Direction::Right, classify_angle(15499));
    assert_eq!(Direction::Left, classify_angle(-15499));
}

#[test]
fn test_heading_pairs() {
    assert_eq!(Direction::Back, classify(12000, 12000));
    assert_eq!(Direction::Front, classify(0, 18000));
    assert_eq!(Direction::Right, classify(27000, 0));
    assert_eq!(Direction::Left, classify(0, 27000));
}

#[test]
fn test_signed_angle_wraps_around() {
    assert_eq!(2000, signed_angle(35000, 1000));
    assert_eq!(-2000, signed_angle(1000, 35000));
    assert_eq!(18000, signed_angle(27000, 9000));
    assert_eq!(Direction::Back, classify(35000, 1000));
    assert_eq!(Direction::Front, classify(27000, 9000));
}

#[test]
fn test_rotation_invariance() {
    let pairs = [
        (0i32, 0i32),
        (0, 6500),
        (0, 6499),
        (0, 15500),
        (0, 20500),
        (0, 29500),
        (12345, 23456),
        (30000, 100),
    ];
    let rotations = [0i32, 1, 900, 9000, 17999, 18000, 27000, 35999];
    for &(cam, subj) in pairs.iter() {
        let base = classify(cam, subj);
        for &by in rotations.iter() {
            let cam_rot = (cam + by) % 36000;
            let subj_rot = (subj + by) % 36000;
            assert_eq!(base, classify(cam_rot, subj_rot));
        }
    }
}

#[test]
fn test_classification_is_total() {
    let mut a: i32 = -18000;
    while a <= 18000 {
        let d = classify_angle(if a == -18000 { -17999 } else { a });
        assert!(matches!(
            d,
            Direction::Front | Direction::Back | Direction::Left | Direction::Right
        ));
        a += 500;
    }
}
