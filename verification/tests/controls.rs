use webbing::controls::{
    horizontal_intent, movement_controls, next_aim, Controls, Keys, AIM_LIMIT, FLOAT_HEIGHT,
    INITIAL_AIM, JUMP_HEIGHT, WALK_SPEED,
};

fn keys(left: bool, right: bool, jump: bool) -> Keys {
    Keys { left, right, jump }
}

#[test]
fn constants_have_their_values() {
    assert_eq!(WALK_SPEED, 100);
    assert_eq!(FLOAT_HEIGHT, 1);
    assert_eq!(JUMP_HEIGHT, 4);
    assert_eq!(AIM_LIMIT, 200);
    assert_eq!(INITIAL_AIM, 20);
}

#[test]
fn neither_key_means_rest() {
    assert_eq!(horizontal_intent(false, false), 0);
}

#[test]
fn both_keys_mean_rest() {
    assert_eq!(horizontal_intent(true, true), 0);
}

#[test]
fn left_key_means_left() {
    assert_eq!(horizontal_intent(true, false), -1);
}

#[test]
fn right_key_means_right() {
    assert_eq!(horizontal_intent(false, true), 1);
}

#[test]
fn walk_is_at_full_speed_or_at_rest() {
    let walk = |left, right| movement_controls(true, keys(left, right, false)).unwrap().desired_velocity;
    assert_eq!(walk(false, false), 0);
    assert_eq!(walk(true, true), 0);
    assert_eq!(walk(true, false), -100);
    assert_eq!(walk(false, true), 100);
}

#[test]
fn walk_does_not_depend_on_jump() {
    for left in [false, true] {
        for right in [false, true] {
            let grounded = movement_controls(true, keys(left, right, false)).unwrap();
            let jumping = movement_controls(true, keys(left, right, true)).unwrap();
            assert_eq!(grounded.desired_velocity, jumping.desired_velocity);
            assert_eq!(grounded.float_height, jumping.float_height);
        }
    }
}

#[test]
fn without_a_controller_nothing_is_fed() {
    for left in [false, true] {
        for right in [false, true] {
            for jump in [false, true] {
                assert_eq!(movement_controls(false, keys(left, right, jump)), None);
            }
        }
    }
}

#[test]
fn jump_is_fed_while_held() {
    assert_eq!(
        movement_controls(true, keys(false, false, true)),
        Some(Controls { desired_velocity: 0, float_height: 1, jump: Some(4) })
    );
    assert_eq!(
        movement_controls(true, keys(false, true, false)),
        Some(Controls { desired_velocity: 100, float_height: 1, jump: None })
    );
}

#[test]
fn aim_follows_the_target_while_held() {
    assert_eq!(next_aim((20.0f32, 20.0f32), true, Some((3.0, -4.0))), (3.0, -4.0));
}

#[test]
fn aim_stays_when_released() {
    assert_eq!(next_aim((20.0f32, 20.0f32), false, Some((3.0, -4.0))), (20.0, 20.0));
    assert_eq!(next_aim((20.0f32, 20.0f32), false, None), (20.0, 20.0));
}

#[test]
fn aim_stays_without_a_target() {
    assert_eq!(next_aim((20.0f32, 20.0f32), true, None), (20.0, 20.0));
}
