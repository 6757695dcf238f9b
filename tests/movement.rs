use fps_kcc::controller::{
    begin_frame, clamp_frame_time, request_displacement, FpsController, Pose, MAX_FRAME_US,
    MIN_FRAME_US,
};
use fps_kcc::geometry::{along_exec, Dir, Vec3};
use fps_kcc::intent::{map_intents, Intents, Key, KeyState};
use fps_kcc::level::{player_rig, METRE};

fn keys(forward: bool, back: bool, left: bool, right: bool) -> KeyState {
    KeyState { forward, back, left, right }
}

fn origin_pose() -> Pose {
    Pose { position: Vec3::new(0, 0, 0), yaw: 0 }
}

#[test]
fn intents_stay_in_unit_range_for_every_key_state() {
    for bits in 0u8..16 {
        let k = keys(bits & 1 != 0, bits & 2 != 0, bits & 4 != 0, bits & 8 != 0);
        let i = map_intents(&k);
        assert!((-1..=1).contains(&i.move_intent));
        assert!((-1..=1).contains(&i.turn_intent));
        assert_eq!(map_intents(&k), i);
    }
}

#[test]
fn single_keys_give_single_intents() {
    assert_eq!(map_intents(&keys(true, false, false, false)), Intents { move_intent: 1, turn_intent: 0 });
    assert_eq!(map_intents(&keys(false, true, false, false)), Intents { move_intent: -1, turn_intent: 0 });
    assert_eq!(map_intents(&keys(false, false, true, false)), Intents { move_intent: 0, turn_intent: 1 });
    assert_eq!(map_intents(&keys(false, false, false, true)), Intents { move_intent: 0, turn_intent: -1 });
    assert_eq!(map_intents(&KeyState::none()), Intents { move_intent: 0, turn_intent: 0 });
}

#[test]
fn back_overrides_forward_when_both_held() {
    let i = map_intents(&keys(true, true, false, false));
    assert_eq!(i.move_intent, -1);
    assert_eq!(i.turn_intent, 0);
}

#[test]
fn left_overrides_right_when_both_held() {
    let i = map_intents(&keys(false, false, true, true));
    assert_eq!(i.turn_intent, 1);
}

#[test]
fn letters_and_arrows_are_synonyms() {
    let a = KeyState::from_held(&vec![Key::W, Key::A]);
    let b = KeyState::from_held(&vec![Key::ArrowUp, Key::ArrowLeft]);
    assert_eq!(a, b);
    assert_eq!(a, keys(true, false, true, false));
    let c = KeyState::from_held(&vec![Key::ArrowDown, Key::D, Key::Other]);
    assert_eq!(c, keys(false, true, false, true));
    assert_eq!(KeyState::from_held(&vec![]), KeyState::none());
    assert_eq!(KeyState::from_held(&vec![Key::Other]), KeyState::none());
}

#[test]
fn frame_time_is_clamped() {
    assert_eq!(clamp_frame_time(0), MIN_FRAME_US);
    assert_eq!(clamp_frame_time(999), 1_000);
    assert_eq!(clamp_frame_time(1_000), 1_000);
    assert_eq!(clamp_frame_time(16_000), 16_000);
    assert_eq!(clamp_frame_time(100_000), 100_000);
    assert_eq!(clamp_frame_time(100_001), MAX_FRAME_US);
    assert_eq!(clamp_frame_time(u64::MAX), 100_000);
    for dt in [0u64, 5, 20_000, 250_000] {
        let once = clamp_frame_time(dt);
        assert_eq!(clamp_frame_time(once), once);
    }
}

#[test]
fn forward_at_origin_requests_minus_z() {
    let c = player_rig().controller;
    let mut pose = origin_pose();
    let plan = begin_frame(&c, &mut pose, &keys(true, false, false, false), 16_000);
    assert_eq!(plan.distance, 64_000_000_000);
    assert_eq!(pose.yaw, 0);
    let r = request_displacement(&plan, Dir::neg_z());
    assert_eq!(r, Some(Vec3::new(0, 0, -64_000_000_000)));
    assert_eq!(r.unwrap().z, -(64 * METRE / 1000));
}

#[test]
fn left_turn_raises_yaw_before_translation() {
    let c = player_rig().controller;
    let mut pose = origin_pose();
    let plan = begin_frame(&c, &mut pose, &keys(false, false, true, false), 100_000);
    assert_eq!(pose.yaw, 300_000_000_000);
    assert_eq!(plan.heading, 300_000_000_000);
    assert_eq!(plan.distance, 0);
    assert_eq!(pose.position, Vec3::new(0, 0, 0));
}

#[test]
fn turn_and_move_follow_the_new_heading() {
    let c = FpsController::new(4_000_000, 3_000_000);
    let mut pose = Pose { position: Vec3::new(1, 2, 3), yaw: 1_000 };
    let plan = begin_frame(&c, &mut pose, &keys(true, false, false, true), 50_000);
    assert_eq!(plan.heading, 1_000 - 150_000_000_000);
    assert_eq!(pose.yaw, plan.heading);
    assert_eq!(plan.distance, 200_000_000_000);
    assert_eq!(pose.position, Vec3::new(1, 2, 3));
}

#[test]
fn idle_frame_changes_nothing() {
    let c = player_rig().controller;
    let mut pose = Pose { position: Vec3::new(5, 6, 7), yaw: 42 };
    let plan = begin_frame(&c, &mut pose, &KeyState::none(), 16_000);
    assert_eq!(pose, Pose { position: Vec3::new(5, 6, 7), yaw: 42 });
    assert_eq!(plan.distance, 0);
    assert_eq!(request_displacement(&plan, Dir::neg_z()), None);
}

#[test]
fn zero_speed_disables_motion() {
    let c = FpsController::new(0, 0);
    let mut pose = origin_pose();
    let plan = begin_frame(&c, &mut pose, &keys(true, false, true, false), 16_000);
    assert_eq!(pose.yaw, 0);
    assert_eq!(request_displacement(&plan, Dir::neg_z()), None);
}

#[test]
fn long_frames_are_cut_to_the_limit() {
    let c = player_rig().controller;
    let mut pose = origin_pose();
    let plan = begin_frame(&c, &mut pose, &keys(false, true, false, false), 2_000_000);
    assert_eq!(plan.dt_us, 100_000);
    assert_eq!(plan.distance, -400_000_000_000);
    let r = request_displacement(&plan, Dir::neg_z());
    assert_eq!(r, Some(Vec3::new(0, 0, 400_000_000_000)));
}

#[test]
fn displacement_along_a_diagonal_rounds_toward_zero() {
    let d = Dir { x: 707_107, z: -707_107 };
    assert_eq!(along_exec(d, 1_000_000), Vec3::new(707_107, 0, -707_107));
    assert_eq!(along_exec(Dir { x: -1, z: 1 }, 1_500_000), Vec3::new(-1, 0, 1));
    assert_eq!(along_exec(Dir { x: 1, z: 0 }, -999_999), Vec3::new(0, 0, 0));
}

#[test]
fn tiny_displacement_that_rounds_to_zero_is_not_requested() {
    let c = FpsController::new(1, 0);
    let mut pose = origin_pose();
    let plan = begin_frame(&c, &mut pose, &keys(true, false, false, false), 1_000);
    assert_eq!(plan.distance, 1_000);
    assert_eq!(request_displacement(&plan, Dir { x: 1, z: 0 }), None);
}
