//! Definition-table validation, attachment accessors and small kernels.

use spine_core::fixed::{cos_mdeg, sin_mdeg};
use spine_core::animation::{Animation, Curve, EventKey, Keyframe, Timeline, TimelineTarget};
use spine_core::attachment::{
    Attachment, AttachmentData, AttachmentType, BoundingBoxAttachment, Color, MeshAttachment,
    MeshVertex, PointAttachment, RegionAttachment, Vertex2,
};
use spine_core::event::EventType;
use spine_core::skeleton_controller::{CullDirection, SkeletonControllerSettings};
use spine_core::skeleton_data::{BoneData, SkeletonData, SkeletonError, Skin, SkinEntry, SlotData};
use spine_core::FP_ONE;

fn bone(name: &str, parent: Option<usize>) -> BoneData {
    BoneData {
        name: name.to_owned(),
        parent,
        x: 0,
        y: 0,
        rotation: 0,
        scale_x: FP_ONE,
        scale_y: FP_ONE,
        shear_x: 0,
        shear_y: 0,
        inherit_rotation: true,
        inherit_scale: true,
    }
}

#[test]
fn test_parent_must_precede_child() {
    let mut child = bone("child", Some(1));
    child.parent = Some(1);
    let r = SkeletonData::new(
        vec![bone("root", None), child],
        Vec::new(),
        Vec::new(),
        Vec::new(),
        Vec::new(),
    );
    assert_eq!(r.err(), Some(SkeletonError::InvalidIndex));
}

#[test]
fn test_slot_bone_out_of_range_is_invalid_index() {
    let r = SkeletonData::new(
        vec![bone("root", None)],
        vec![SlotData {
            name: "s".to_owned(),
            bone: 3,
            attachment_name: None,
            blend_mode: spine_core::attachment::BlendMode::Normal,
            color: Color { r: 255, g: 255, b: 255, a: 255 },
            dark_color: Color { r: 255, g: 255, b: 255, a: 255 },
        }],
        Vec::new(),
        Vec::new(),
        Vec::new(),
    );
    assert_eq!(r.err(), Some(SkeletonError::InvalidIndex));
}

#[test]
fn test_mesh_triangle_out_of_range_is_malformed_geometry() {
    let mesh = Attachment {
        name: "m".to_owned(),
        data: AttachmentData::Mesh(MeshAttachment {
            vertices: vec![MeshVertex {
                position: Vertex2 { x: 0, y: 0 },
                influences: Vec::new(),
            }],
            uvs: vec![Vertex2 { x: 0, y: 0 }],
            triangles: vec![0, 0, 9],
            color: Color { r: 255, g: 255, b: 255, a: 255 },
        }),
    };
    let r = SkeletonData::new(
        vec![bone("root", None)],
        vec![SlotData {
            name: "s".to_owned(),
            bone: 0,
            attachment_name: None,
            blend_mode: spine_core::attachment::BlendMode::Normal,
            color: Color { r: 255, g: 255, b: 255, a: 255 },
            dark_color: Color { r: 255, g: 255, b: 255, a: 255 },
        }],
        vec![Skin {
            name: "default".to_owned(),
            entries: vec![SkinEntry { slot: 0, name: "m".to_owned(), attachment: mesh }],
        }],
        Vec::new(),
        Vec::new(),
    );
    assert_eq!(r.err(), Some(SkeletonError::MalformedGeometry));
}

#[test]
fn test_unsorted_keyframes_are_malformed_geometry() {
    let r = SkeletonData::new(
        vec![bone("root", None)],
        Vec::new(),
        Vec::new(),
        vec![Animation {
            name: "a".to_owned(),
            duration: 1000,
            timelines: vec![Timeline {
                target: TimelineTarget::X(0),
                frames: vec![
                    Keyframe { time: 500, value: 0, curve: Curve::Linear },
                    Keyframe { time: 100, value: 0, curve: Curve::Linear },
                ],
            }],
            event_keys: Vec::new(),
        }],
        Vec::new(),
    );
    assert_eq!(r.err(), Some(SkeletonError::MalformedGeometry));
}

#[test]
fn test_event_key_reference_out_of_range_is_invalid_index() {
    let r = SkeletonData::new(
        vec![bone("root", None)],
        Vec::new(),
        Vec::new(),
        vec![Animation {
            name: "a".to_owned(),
            duration: 1000,
            timelines: Vec::new(),
            event_keys: vec![EventKey { time: 0, event: 0 }],
        }],
        Vec::new(),
    );
    assert_eq!(r.err(), Some(SkeletonError::InvalidIndex));
}

#[test]
fn test_attachment_type_codes() {
    assert_eq!(AttachmentType::from_code(0), AttachmentType::Region);
    assert_eq!(AttachmentType::from_code(1), AttachmentType::BoundingBox);
    assert_eq!(AttachmentType::from_code(2), AttachmentType::Mesh);
    assert_eq!(AttachmentType::from_code(3), AttachmentType::LinkedMesh);
    assert_eq!(AttachmentType::from_code(4), AttachmentType::Path);
    assert_eq!(AttachmentType::from_code(5), AttachmentType::Point);
    assert_eq!(AttachmentType::from_code(6), AttachmentType::Clipping);
    assert_eq!(AttachmentType::from_code(7), AttachmentType::Unknown);
    assert_eq!(AttachmentType::from_code(99), AttachmentType::Unknown);
}

#[test]
fn test_attachment_accessors_match_variant() {
    let region = Attachment {
        name: "r".to_owned(),
        data: AttachmentData::Region(RegionAttachment {
            x: 1,
            y: 2,
            rotation: 0,
            scale_x: FP_ONE,
            scale_y: FP_ONE,
            width: 10,
            height: 20,
            color: Color { r: 255, g: 255, b: 255, a: 255 },
        }),
    };
    assert_eq!(region.attachment_type(), AttachmentType::Region);
    let r = region.as_region().unwrap();
    assert_eq!(r.x, 1);
    assert_eq!(r.width, 10);
    assert!(region.as_mesh().is_none());
    assert!(region.as_clipping().is_none());
    assert!(region.as_bounding_box().is_none());
    assert!(region.as_point().is_none());

    let point = Attachment {
        name: "p".to_owned(),
        data: AttachmentData::Point(PointAttachment { x: 5, y: 6, rotation: 7 }),
    };
    assert_eq!(point.attachment_type(), AttachmentType::Point);
    assert_eq!(point.as_point().unwrap().x, 5);
    assert!(point.as_region().is_none());

    let bbox = Attachment {
        name: "b".to_owned(),
        data: AttachmentData::BoundingBox(BoundingBoxAttachment {
            points: vec![Vertex2 { x: 0, y: 0 }],
        }),
    };
    assert_eq!(bbox.attachment_type(), AttachmentType::BoundingBox);
    assert_eq!(bbox.as_bounding_box().unwrap().points.len(), 1);
}

#[test]
fn test_color_modulate_and_white_identity() {
    let white = Color::white();
    let c = Color { r: 200, g: 100, b: 50, a: 128 };
    assert_eq!(c.modulate(white), c);
    let half = Color { r: 128, g: 128, b: 128, a: 255 };
    let m = c.modulate(half);
    assert_eq!(m.r as u32, (200 * 128) / 255);
    assert_eq!(m.g as u32, (100 * 128) / 255);
    assert_eq!(m.b as u32, (50 * 128) / 255);
    assert_eq!(m.a, 128);
}

#[test]
fn test_settings_builders() {
    let s = SkeletonControllerSettings::new();
    assert!(!s.premultiplied_alpha);
    assert_eq!(s.cull_direction, CullDirection::Clockwise);
    let s2 = s
        .with_premultiplied_alpha(true)
        .with_cull_direction(CullDirection::CounterClockwise);
    assert!(s2.premultiplied_alpha);
    assert_eq!(s2.cull_direction, CullDirection::CounterClockwise);
}

#[test]
fn test_add_animation_on_empty_track_starts_immediately() {
    let data = SkeletonData::new(
        vec![bone("root", None)],
        Vec::new(),
        Vec::new(),
        vec![Animation {
            name: "wave".to_owned(),
            duration: 1000,
            timelines: Vec::new(),
            event_keys: Vec::new(),
        }],
        Vec::new(),
    )
    .unwrap();
    let mut c = spine_core::skeleton_controller::SkeletonController::new(data);
    c.add_animation_by_name(0, "wave", false, 500).unwrap();
    let events = c.drain_events();
    assert_eq!(events.len(), 1);
    assert_eq!(events[0].event_type, EventType::Start);
    assert_eq!(events[0].animation, Some(0));
    let entry = c.animation_state.track_entry(0).unwrap();
    assert_eq!(entry.animation, Some(0));
    assert_eq!(entry.time, 0);
}

#[test]
fn test_requeueing_disposes_previous_follower() {
    let data = SkeletonData::new(
        vec![bone("root", None)],
        Vec::new(),
        Vec::new(),
        vec![
            Animation {
                name: "idle".to_owned(),
                duration: 1000,
                timelines: Vec::new(),
                event_keys: Vec::new(),
            },
            Animation {
                name: "wave".to_owned(),
                duration: 1000,
                timelines: Vec::new(),
                event_keys: Vec::new(),
            },
            Animation {
                name: "jump".to_owned(),
                duration: 1000,
                timelines: Vec::new(),
                event_keys: Vec::new(),
            },
        ],
        Vec::new(),
    )
    .unwrap();
    let mut c = spine_core::skeleton_controller::SkeletonController::new(data);
    c.set_animation_by_name(0, "idle", false).unwrap();
    c.add_animation_by_name(0, "wave", false, 0).unwrap();
    c.drain_events();
    c.add_animation_by_name(0, "jump", false, 0).unwrap();
    let events = c.drain_events();
    assert_eq!(events.len(), 1);
    assert_eq!(events[0].event_type, EventType::Dispose);
    assert_eq!(events[0].animation, Some(1));
}

#[test]
fn test_sine_kernel_exact_at_right_angles() {
    assert_eq!(sin_mdeg(0), 0);
    assert_eq!(sin_mdeg(90_000), FP_ONE);
    assert_eq!(sin_mdeg(180_000), 0);
    assert_eq!(sin_mdeg(270_000), -FP_ONE);
    assert_eq!(cos_mdeg(0), FP_ONE);
    assert_eq!(cos_mdeg(90_000), 0);
    assert_eq!(cos_mdeg(180_000), -FP_ONE);
    assert_eq!(cos_mdeg(270_000), 0);
    // A rough midpoint check: the rational sine is close to the real one.
    let s45 = sin_mdeg(45_000);
    assert!((2890..2900).contains(&s45));
}
