//! Pose application and world-transform propagation: timeline sampling,
//! crossfade weights, hierarchy composition and determinism.

use spine_core::animation_state::MixBlend;
use spine_core::animation::{Animation, Curve, Keyframe, Timeline, TimelineTarget};
use spine_core::animation_state::mix_weight;
use spine_core::skeleton_controller::SkeletonController;
use spine_core::skeleton_data::{BoneData, SkeletonData};
use spine_core::FP_ONE;

fn bone(name: &str, parent: Option<usize>, x: i64, rotation: i64) -> BoneData {
    BoneData {
        name: name.to_owned(),
        parent,
        x,
        y: 0,
        rotation,
        scale_x: FP_ONE,
        scale_y: FP_ONE,
        shear_x: 0,
        shear_y: 0,
        inherit_rotation: true,
        inherit_scale: true,
    }
}

fn translate_x_anim(name: &str, duration: u32, from: i64, to: i64) -> Animation {
    Animation {
        name: name.to_owned(),
        duration,
        timelines: vec![Timeline {
            target: TimelineTarget::X(0),
            frames: vec![
                Keyframe { time: 0, value: from, curve: Curve::Linear },
                Keyframe { time: duration, value: to, curve: Curve::Linear },
            ],
        }],
        event_keys: Vec::new(),
    }
}

#[test]
fn test_linear_timeline_interpolates_halfway() {
    let data = SkeletonData::new(
        vec![bone("root", None, 0, 0)],
        Vec::new(),
        Vec::new(),
        vec![translate_x_anim("slide", 1000, 0, FP_ONE)],
        Vec::new(),
    )
    .unwrap();
    let mut c = SkeletonController::new(data);
    c.set_animation_by_name(0, "slide", false).unwrap();
    c.update(500);
    assert_eq!(c.skeleton.bones[0].local.x, FP_ONE / 2);
    // Past the duration the sample clamps at the last keyframe.
    c.update(1000);
    assert_eq!(c.skeleton.bones[0].local.x, FP_ONE);
}

#[test]
fn test_stepped_timeline_holds_value() {
    let data = SkeletonData::new(
        vec![bone("root", None, 0, 0)],
        Vec::new(),
        Vec::new(),
        vec![Animation {
            name: "blink".to_owned(),
            duration: 1000,
            timelines: vec![Timeline {
                target: TimelineTarget::X(0),
                frames: vec![
                    Keyframe { time: 0, value: 100, curve: Curve::Stepped },
                    Keyframe { time: 1000, value: 200, curve: Curve::Stepped },
                ],
            }],
            event_keys: Vec::new(),
        }],
        Vec::new(),
    )
    .unwrap();
    let mut c = SkeletonController::new(data);
    c.set_animation_by_name(0, "blink", false).unwrap();
    c.update(999);
    assert_eq!(c.skeleton.bones[0].local.x, 100);
}

#[test]
fn test_crossfade_weight_endpoints_and_monotonicity() {
    assert_eq!(mix_weight(0, 1000), 0);
    assert_eq!(mix_weight(1000, 1000), FP_ONE);
    assert_eq!(mix_weight(2000, 1000), FP_ONE);
    let mut last = -1;
    for t in [0u32, 100, 250, 500, 750, 999, 1000] {
        let w = mix_weight(t, 1000);
        assert!(w >= last);
        assert!((0..=FP_ONE).contains(&w));
        last = w;
    }
    assert_eq!(mix_weight(500, 1000), FP_ONE / 2);
}

#[test]
fn test_empty_animation_fades_pose_back_to_setup() {
    // A constant pose faded out over one second sits halfway after half a
    // second.
    let data = SkeletonData::new(
        vec![bone("root", None, 0, 0)],
        Vec::new(),
        Vec::new(),
        vec![translate_x_anim("hold", 1000, FP_ONE, FP_ONE)],
        Vec::new(),
    )
    .unwrap();
    let mut c = SkeletonController::new(data);
    c.set_animation_by_name(0, "hold", true).unwrap();
    c.update(100);
    assert_eq!(c.skeleton.bones[0].local.x, FP_ONE);

    let data_copy = c.skeleton.data.clone();
    c.animation_state.set_empty_animation(&data_copy, 0, 1000);
    c.update(500);
    assert_eq!(c.skeleton.bones[0].local.x, FP_ONE / 2);
    c.update(500);
    assert_eq!(c.skeleton.bones[0].local.x, 0);
}

#[test]
fn test_world_transform_translation_chain() {
    // Three bones in a straight chain, each one unit to the right of its
    // parent: world translations accumulate to 1, 2 and 3 units.
    let data = SkeletonData::new(
        vec![
            bone("root", None, FP_ONE, 0),
            bone("hip", Some(0), FP_ONE, 0),
            bone("torso", Some(1), FP_ONE, 0),
        ],
        Vec::new(),
        Vec::new(),
        Vec::new(),
        Vec::new(),
    )
    .unwrap();
    let c = SkeletonController::new(data);
    assert_eq!(c.skeleton.bones[0].world.tx, FP_ONE);
    assert_eq!(c.skeleton.bones[1].world.tx, 2 * FP_ONE);
    assert_eq!(c.skeleton.bones[2].world.tx, 3 * FP_ONE);
    assert_eq!(c.skeleton.bones[2].world.ty, 0);
}

#[test]
fn test_world_transform_quarter_turn_rotates_offset() {
    // A parent rotated a quarter turn carries its child's x offset onto
    // the world y axis; the rational sine is exact at right angles.
    let data = SkeletonData::new(
        vec![
            bone("root", None, 0, 90_000),
            bone("arm", Some(0), FP_ONE, 0),
        ],
        Vec::new(),
        Vec::new(),
        Vec::new(),
        Vec::new(),
    )
    .unwrap();
    let c = SkeletonController::new(data);
    assert_eq!(c.skeleton.bones[1].world.tx, 0);
    assert_eq!(c.skeleton.bones[1].world.ty, FP_ONE);
    assert_eq!(c.skeleton.bones[1].world.rot, 90_000);
}

#[test]
fn test_inherit_rotation_off_keeps_child_upright() {
    let mut child = bone("flag", Some(0), 0, 0);
    child.inherit_rotation = false;
    let data = SkeletonData::new(
        vec![bone("root", None, 0, 90_000), child],
        Vec::new(),
        Vec::new(),
        Vec::new(),
        Vec::new(),
    )
    .unwrap();
    let c = SkeletonController::new(data);
    assert_eq!(c.skeleton.bones[1].world.rot, 0);
    // The child's basis is the identity scaled by its own transform.
    assert_eq!(c.skeleton.bones[1].world.a, FP_ONE);
    assert_eq!(c.skeleton.bones[1].world.b, 0);
}

#[test]
fn test_update_world_transforms_is_deterministic() {
    // Two independent instances driven identically produce bit-identical
    // bone matrices.
    let make = || {
        let data = SkeletonData::new(
            vec![
                bone("root", None, 123, 37_500),
                bone("hip", Some(0), 4567, 11_000),
                bone("torso", Some(1), 89, 333_000),
            ],
            Vec::new(),
            Vec::new(),
            vec![translate_x_anim("sway", 700, -2048, 2048)],
            Vec::new(),
        )
        .unwrap();
        let mut c = SkeletonController::new(data);
        c.set_animation_by_name(0, "sway", true).unwrap();
        c.update(123);
        c.update(456);
        c
    };
    let c1 = make();
    let c2 = make();
    for i in 0..3 {
        assert_eq!(c1.skeleton.bones[i].world, c2.skeleton.bones[i].world);
        assert_eq!(c1.skeleton.bones[i].local, c2.skeleton.bones[i].local);
    }
}

#[test]
fn test_additive_track_accumulates_over_lower_track() {
    let data = SkeletonData::new(
        vec![bone("root", None, 0, 0)],
        Vec::new(),
        Vec::new(),
        vec![
            translate_x_anim("base", 1000, 1000, 1000),
            translate_x_anim("bump", 1000, 300, 300),
        ],
        Vec::new(),
    )
    .unwrap();
    let mut c = SkeletonController::new(data);
    c.set_animation_by_name(0, "base", true).unwrap();
    c.set_animation_by_name(1, "bump", true).unwrap();
    {
        let mut entry = c.animation_state.track_entry(1).unwrap();
        entry.mix_blend = MixBlend::Add;
        c.animation_state.tracks[1] = Some(entry);
    }
    c.update(100);
    // Setup x is 0, so the additive track adds its full sampled delta on
    // top of the replace track below it.
    assert_eq!(c.skeleton.bones[0].local.x, 1300);
}
