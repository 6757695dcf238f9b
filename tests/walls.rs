use fps_kcc::controller::Pose;
use fps_kcc::geometry::Vec3;
use fps_kcc::level::{level_slabs, level_walls, player_rig, Slab, METRE};
use fps_kcc::resolver::{apply_resolved, finish_frame, resolve, slide_against, Body, Facing, Wall};

fn body(radius: i64, skin: i64) -> Body {
    Body { radius, skin }
}

#[test]
fn slide_keeps_the_part_along_the_wall() {
    let w = Wall { facing: Facing::PosZ, at: 0 };
    let b = body(0, 10);
    let start = Vec3::new(0, 0, 10);
    let r = slide_against(&w, &b, &start, &Vec3::new(5, 0, -7));
    assert_eq!(r, Vec3::new(5, 0, 0));
}

#[test]
fn slide_stops_at_the_skin_from_farther_away() {
    let w = Wall { facing: Facing::NegX, at: 1_000 };
    let b = body(100, 10);
    let start = Vec3::new(0, 3, 0);
    let r = slide_against(&w, &b, &start, &Vec3::new(2_000, 0, -40));
    assert_eq!(r, Vec3::new(890, 0, -40));
}

#[test]
fn move_away_from_a_wall_is_kept() {
    let w = Wall { facing: Facing::PosX, at: 0 };
    let b = body(5, 5);
    let d = Vec3::new(70, 1, -2);
    assert_eq!(slide_against(&w, &b, &Vec3::new(10, 0, 0), &d), d);
}

#[test]
fn head_on_approach_settles_at_the_skin() {
    let w = vec![Wall { facing: Facing::PosZ, at: 0 }];
    let b = body(0, 10);
    let mut pose = Pose { position: Vec3::new(0, 0, 1_000), yaw: 0 };
    let mut gaps = Vec::new();
    for _ in 0..6 {
        finish_frame(&mut pose, &w, &b, Some(Vec3::new(0, 0, -300)));
        gaps.push(pose.position.z);
    }
    assert_eq!(gaps, vec![700, 400, 100, 10, 10, 10]);
}

#[test]
fn corner_slides_on_both_walls() {
    let walls = vec![Wall { facing: Facing::PosZ, at: 0 }, Wall { facing: Facing::PosX, at: 0 }];
    let b = body(10, 1);
    let start = Vec3::new(20, 0, 20);
    let r = resolve(&walls, &b, &start, &Vec3::new(-50, 0, -50));
    assert_eq!(r, Vec3::new(-9, 0, -9));
}

#[test]
fn resolve_without_contact_returns_the_request() {
    let walls = level_walls();
    let b = player_rig().body(METRE / 100);
    let start = Vec3::new(0, 2 * METRE, 0);
    let d = Vec3::new(0, 0, -64_000_000_000);
    assert_eq!(resolve(&walls, &b, &start, &d), d);
}

#[test]
fn level_walls_stop_the_player_at_the_far_wall() {
    let walls = level_walls();
    let rig = player_rig();
    let b = rig.body(METRE / 100);
    let mut pose = Pose { position: rig.spawn, yaw: 0 };
    for _ in 0..200 {
        finish_frame(&mut pose, &walls, &b, Some(Vec3::new(0, 0, -400_000_000_000)));
    }
    let near_face = -15 * METRE + METRE / 8;
    assert_eq!(pose.position.z, near_face + rig.capsule_radius + METRE / 100);
    assert_eq!(pose.position.x, 0);
    assert_eq!(pose.position.y, 2 * METRE);
}

#[test]
fn finish_without_request_keeps_the_pose() {
    let walls = level_walls();
    let b = body(0, 0);
    let mut pose = Pose { position: Vec3::new(1, 2, 3), yaw: 9 };
    finish_frame(&mut pose, &walls, &b, None);
    assert_eq!(pose, Pose { position: Vec3::new(1, 2, 3), yaw: 9 });
}

#[test]
fn apply_adds_the_resolved_move() {
    let mut pose = Pose { position: Vec3::new(1, 2, 3), yaw: 9 };
    apply_resolved(&mut pose, &Vec3::new(-1, 10, 100));
    assert_eq!(pose, Pose { position: Vec3::new(0, 12, 103), yaw: 9 });
}

#[test]
fn level_has_ground_and_three_walls() {
    let s = level_slabs();
    assert_eq!(s.len(), 4);
    assert_eq!(s[0], Slab { center: Vec3::new(0, -METRE / 200, 0), size: Vec3::new(40 * METRE, METRE / 100, 40 * METRE) });
    assert_eq!(s[1].center, Vec3::new(0, 4 * METRE, -15 * METRE));
    assert_eq!(s[2].size, Vec3::new(METRE / 4, 8 * METRE, 11_875_000_000_000));
    assert_eq!(s[2].center, Vec3::new(-6 * METRE, 4 * METRE, -8_937_500_000_000));
    assert_eq!(s[3].center.x, 6 * METRE);
    assert_eq!(s[1].half_extents(), Vec3::new(6 * METRE, 4 * METRE, METRE / 8));
}

#[test]
fn level_boxes_do_not_overlap() {
    let s = level_slabs();
    // The ground's top face is y = 0, where the walls stand.
    assert_eq!(s[0].center.y + s[0].size.y / 2, 0);
    for w in &s[1..] {
        assert_eq!(w.center.y - w.size.y / 2, 0);
    }
    // The side walls end at the far wall's near face and start at z = -3 m.
    let near_face = s[1].face(Facing::PosZ).at;
    for w in &s[2..] {
        assert_eq!(w.center.z - w.size.z / 2, near_face);
        assert_eq!(w.center.z + w.size.z / 2, -3 * METRE);
    }
}

#[test]
fn wall_faces_look_into_the_level() {
    let w = level_walls();
    assert_eq!(w.len(), 3);
    assert_eq!(w[0], Wall { facing: Facing::PosZ, at: -14_875_000_000_000 });
    assert_eq!(w[1], Wall { facing: Facing::PosX, at: -5_875_000_000_000 });
    assert_eq!(w[2], Wall { facing: Facing::NegX, at: 5_875_000_000_000 });
    let s = level_slabs();
    assert_eq!(s[1].face(Facing::NegZ).at, -15_125_000_000_000);
}

#[test]
fn player_rig_values() {
    let r = player_rig();
    assert_eq!(r.spawn, Vec3::new(0, 2 * METRE, 0));
    assert_eq!(r.eye_height, 1_650_000_000_000);
    assert_eq!(r.capsule_top, 1_300_000_000_000);
    assert_eq!(r.capsule_radius, 330_000_000_000);
    assert_eq!(r.controller.speed_move, 4_000_000);
    assert_eq!(r.controller.speed_turn, 3_000_000);
}
