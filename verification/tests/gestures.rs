use playspace_mover::geom::{Quat, Transform, Vec3};
use playspace_mover::mover::{
    GestureFlags, MoverConfig, Overlay, PlayspaceMover, Pointer, Pose,
};

const SCALE: i64 = 1_000_000;

fn flags_none() -> GestureFlags {
    GestureFlags { space_drag: false, space_rotate: false, space_fling: false, space_reset: false }
}

fn identity_tf() -> Transform {
    Transform {
        rotation: Quat { x: 0, y: 0, z: 0, w: SCALE },
        translation: Vec3 { x: 0, y: 0, z: 0 },
    }
}

fn idle_pointer() -> Pointer {
    Pointer { now: flags_none(), before: flags_none(), raw_pose: identity_tf() }
}

fn config_ones() -> MoverConfig {
    MoverConfig {
        space_rotate_unlocked: false,
        space_drag_multiplier: SCALE,
        space_fling_multiplier: SCALE,
    }
}

fn new_mover() -> PlayspaceMover {
    PlayspaceMover::new(Pose {
        position: Vec3 { x: 0, y: 0, z: 0 },
        orientation: Quat { x: 0, y: 0, z: 0, w: SCALE },
    })
}

fn drag_pointer_at(x: i64) -> Pointer {
    let mut p = idle_pointer();
    p.now.space_drag = true;
    p.raw_pose.translation = Vec3 { x, y: 0, z: 0 };
    p
}

#[test]
fn drag_starts_on_first_pressed_pointer() {
    let mut m = new_mover();
    let mut overlays: Vec<Overlay> = Vec::new();
    let pointers = vec![idle_pointer(), drag_pointer_at(0)];
    let push = m.update(&mut overlays, &pointers, Vec3 { x: 0, y: 0, z: 0 }, config_ones());
    assert!(push.is_none());
    let d = m.drag.expect("drag record");
    assert_eq!(d.hand, 1);
    assert_eq!(d.pose, identity_tf());
    assert_eq!(d.anchor, Vec3 { x: 0, y: 0, z: 0 });
    assert!(m.rotate.is_none());
}

#[test]
fn mutual_exclusion_rotate_while_drag() {
    let mut m = new_mover();
    let mut overlays: Vec<Overlay> = Vec::new();
    let hmd = Vec3 { x: 0, y: 0, z: 0 };

    // Frame 1: pointer 0 starts a drag.
    let pointers = vec![drag_pointer_at(0), idle_pointer()];
    m.update(&mut overlays, &pointers, hmd, config_ones());
    assert!(m.drag.is_some() && m.rotate.is_none());

    // Frame 2: pointer 1 presses rotate while pointer 0 still holds drag.
    let mut p1 = idle_pointer();
    p1.now.space_rotate = true;
    let pointers = vec![drag_pointer_at(0), p1];
    m.update(&mut overlays, &pointers, hmd, config_ones());
    assert!(m.rotate.is_some());
    assert!(m.drag.is_none(), "drag and rotate must never coexist");
}

#[test]
fn rotate_priority_anchors_at_last_transform() {
    let mut m = new_mover();
    let mut overlays: Vec<Overlay> = Vec::new();
    let hmd = Vec3 { x: 0, y: 0, z: 0 };

    // Commit a translation first: one drag frame, then release.
    let pointers = vec![drag_pointer_at(0)];
    m.update(&mut overlays, &pointers, hmd, config_ones());
    let pointers = vec![drag_pointer_at(300_000)];
    m.update(&mut overlays, &pointers, hmd, config_ones());
    let pointers = vec![idle_pointer()];
    m.update(&mut overlays, &pointers, hmd, config_ones());
    let committed = m.last_transform;
    assert_eq!(committed.translation, Vec3 { x: 300_000, y: 0, z: 0 });

    // A new drag, then rotate arrives: the rotate record picks up exactly
    // the last committed transform.
    let pointers = vec![drag_pointer_at(0)];
    m.update(&mut overlays, &pointers, hmd, config_ones());
    let mut p = idle_pointer();
    p.now.space_rotate = true;
    let pointers = vec![p];
    m.update(&mut overlays, &pointers, hmd, config_ones());
    let r = m.rotate.expect("rotate record");
    assert_eq!(r.pose, committed);
    assert!(m.drag.is_none());
}

#[test]
fn reset_is_idempotent_and_keeps_floor() {
    let mut m = new_mover();
    let mut overlays: Vec<Overlay> = Vec::new();
    let hmd = Vec3 { x: 0, y: 0, z: 0 };

    // Give the mover a floor offset and a committed translation.
    let mut low = idle_pointer();
    low.raw_pose.translation = Vec3 { x: 0, y: 1_050_000, z: 0 };
    let mut high = idle_pointer();
    high.raw_pose.translation = Vec3 { x: 0, y: 1_200_000, z: 0 };
    m.fix_floor(&vec![high, low]);
    let floor_before = m.floor_offset;
    let pointers = vec![drag_pointer_at(0)];
    m.update(&mut overlays, &pointers, hmd, config_ones());
    let pointers = vec![drag_pointer_at(250_000)];
    m.update(&mut overlays, &pointers, hmd, config_ones());

    let push1 = m.reset_offset();
    assert_eq!(m.last_transform, identity_tf());
    assert!(m.drag.is_none() && m.rotate.is_none());
    let push2 = m.reset_offset();
    assert_eq!(m.last_transform, identity_tf());
    assert_eq!(push1, push2);
    assert_eq!(m.floor_offset, floor_before);
    // The committed pose still carries the floor offset.
    assert_eq!(push2.position, Vec3 { x: 0, y: floor_before, z: 0 });
}

#[test]
fn reset_fires_only_on_rising_edge() {
    let mut m = new_mover();
    let mut overlays: Vec<Overlay> = Vec::new();
    let hmd = Vec3 { x: 0, y: 0, z: 0 };

    // Held (not rising) reset: the frame stops without committing anything.
    let mut p = idle_pointer();
    p.now.space_reset = true;
    p.before.space_reset = true;
    let push = m.update(&mut overlays, &vec![p], hmd, config_ones());
    assert!(push.is_none());

    // Rising edge: the transform is reset and a pose is committed.
    let mut p = idle_pointer();
    p.now.space_reset = true;
    let push = m.update(&mut overlays, &vec![p], hmd, config_ones());
    assert!(push.is_some());
    assert_eq!(m.last_transform, identity_tf());
}

#[test]
fn glitch_guard_drops_the_frame() {
    let mut m = new_mover();
    let mut overlays = vec![Overlay {
        grabbable: true,
        dirty: false,
        translation: Vec3 { x: 0, y: 0, z: 0 },
    }];
    let hmd = Vec3 { x: 0, y: 0, z: 0 };

    let pointers = vec![drag_pointer_at(0)];
    m.update(&mut overlays, &pointers, hmd, config_ones());
    let before = m.drag.unwrap();

    // 40 real units in one frame: squared magnitude 1600 > 1000.
    let pointers = vec![drag_pointer_at(40 * SCALE)];
    let push = m.update(&mut overlays, &pointers, hmd, config_ones());
    assert!(push.is_none(), "a glitch frame must not reach the runtime");
    let after = m.drag.unwrap();
    assert_eq!(after.pose, before.pose);
    assert_eq!(after.anchor, before.anchor);
    assert_eq!(m.last_transform, identity_tf());
    assert_eq!(after.velocity, Vec3 { x: 40 * SCALE, y: 0, z: 0 });
    assert!(!overlays[0].dirty, "a glitch frame must not move overlays");
    assert_eq!(overlays[0].translation, Vec3 { x: 0, y: 0, z: 0 });
}

#[test]
fn fling_toggle_is_edge_triggered() {
    let mut m = new_mover();
    let mut overlays: Vec<Overlay> = Vec::new();
    let hmd = Vec3 { x: 0, y: 0, z: 0 };

    let mut held = idle_pointer();
    held.now.space_fling = true;

    // Rising edge toggles once.
    m.update(&mut overlays, &vec![held], hmd, config_ones());
    assert!(m.space_fling_enabled);

    // Holding across further frames must not toggle again.
    let mut still_held = held;
    still_held.before.space_fling = true;
    m.update(&mut overlays, &vec![still_held], hmd, config_ones());
    assert!(m.space_fling_enabled);
    m.update(&mut overlays, &vec![still_held], hmd, config_ones());
    assert!(m.space_fling_enabled);

    // Release, then a second rising edge toggles back off.
    m.update(&mut overlays, &vec![idle_pointer()], hmd, config_ones());
    assert!(m.space_fling_enabled);
    m.update(&mut overlays, &vec![held], hmd, config_ones());
    assert!(!m.space_fling_enabled);
}

#[test]
fn floor_fix_formula() {
    let mut m = new_mover();
    let mut left = idle_pointer();
    left.raw_pose.translation = Vec3 { x: 0, y: 1_200_000, z: 0 };
    let mut right = idle_pointer();
    right.raw_pose.translation = Vec3 { x: 0, y: 1_050_000, z: 0 };
    let push = m.fix_floor(&vec![left, right]);
    // min(1.20, 1.05) - 0.03 = 1.02
    assert_eq!(m.floor_offset, 1_020_000);
    assert!(m.drag.is_none() && m.rotate.is_none());
    assert_eq!(push.position, Vec3 { x: 0, y: 1_020_000, z: 0 });
}

#[test]
fn end_to_end_drag_release_fling() {
    let mut m = new_mover();
    let mut overlays = vec![Overlay {
        grabbable: true,
        dirty: false,
        translation: Vec3 { x: 0, y: 0, z: 0 },
    }];
    let hmd = Vec3 { x: 0, y: 0, z: 0 };
    let cfg = config_ones();

    // Pointer 0 raises the drag flag at the origin.
    let pointers = vec![drag_pointer_at(0)];
    let push = m.update(&mut overlays, &pointers, hmd, cfg);
    assert!(push.is_none());

    // It moves its raw translation by (0.1, 0, 0) over one frame.
    let pointers = vec![drag_pointer_at(100_000)];
    let push = m.update(&mut overlays, &pointers, hmd, cfg);
    let pose = push.expect("a drag frame commits a pose");
    assert_eq!(pose.position, Vec3 { x: 100_000, y: 0, z: 0 });
    assert_eq!(pose.orientation, Quat { x: 0, y: 0, z: 0, w: SCALE });
    // The grabbable overlay is compensated in the opposite direction.
    assert!(overlays[0].dirty);
    assert_eq!(overlays[0].translation, Vec3 { x: -100_000, y: 0, z: 0 });

    // Releasing drag commits the pose and seeds the momentum.
    let pointers = vec![idle_pointer()];
    let push = m.update(&mut overlays, &pointers, hmd, cfg);
    assert!(push.is_none());
    assert_eq!(m.last_transform.translation, Vec3 { x: 100_000, y: 0, z: 0 });
    assert_eq!(m.momentum_velocity, Vec3 { x: 100_000, y: 0, z: 0 });

    // Enabling fling advances the translation by momentum every idle frame.
    let mut fling = idle_pointer();
    fling.now.space_fling = true;
    let push = m.update(&mut overlays, &vec![fling], hmd, cfg);
    assert!(push.is_some());
    assert_eq!(m.last_transform.translation, Vec3 { x: 200_000, y: 0, z: 0 });
    let mut held = fling;
    held.before.space_fling = true;
    let push = m.update(&mut overlays, &vec![held], hmd, cfg);
    assert!(push.is_some());
    assert_eq!(m.last_transform.translation, Vec3 { x: 300_000, y: 0, z: 0 });
}

#[test]
fn idle_frame_with_fling_disabled_clears_momentum() {
    let mut m = new_mover();
    let mut overlays: Vec<Overlay> = Vec::new();
    let hmd = Vec3 { x: 0, y: 0, z: 0 };
    m.momentum_velocity = Vec3 { x: 5_000, y: 0, z: 0 };
    let push = m.update(&mut overlays, &vec![idle_pointer()], hmd, config_ones());
    assert!(push.is_none());
    assert_eq!(m.momentum_velocity, Vec3 { x: 0, y: 0, z: 0 });
}

#[test]
fn rotate_end_commits_record_pose() {
    let mut m = new_mover();
    let mut overlays: Vec<Overlay> = Vec::new();
    let hmd = Vec3 { x: 0, y: 0, z: 0 };

    let mut p = idle_pointer();
    p.now.space_rotate = true;
    m.update(&mut overlays, &vec![p], hmd, config_ones());
    let record_pose = m.rotate.unwrap().pose;

    let push = m.update(&mut overlays, &vec![idle_pointer()], hmd, config_ones());
    assert!(push.is_none());
    assert!(m.rotate.is_none());
    assert_eq!(m.last_transform, record_pose);
}
