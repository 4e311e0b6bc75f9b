//! Clipping and renderable geometry: Sutherland-Hodgman cases, region
//! quads, meshes and batch structure.

use spine_core::attachment::{
    Attachment, AttachmentData, BlendMode, ClippingAttachment, Color, MeshAttachment, MeshVertex,
    RegionAttachment, Vertex2,
};
use spine_core::clipping::{clip_polygon, ClipVertex};
use spine_core::skeleton_controller::{CullDirection, SkeletonController, SkeletonControllerSettings};
use spine_core::skeleton_data::{BoneData, SkeletonData, SkeletonError, Skin, SkinEntry, SlotData};
use spine_core::FP_ONE;

fn v(x: i64, y: i64) -> Vertex2 {
    Vertex2 { x, y }
}

fn cv(x: i64, y: i64) -> ClipVertex {
    ClipVertex { pos: v(x, y), uv: v(0, 0) }
}

/// A counterclockwise unit square from the origin: its interior is to the
/// left of every directed edge.
fn square() -> Vec<Vertex2> {
    vec![v(0, 0), v(FP_ONE, 0), v(FP_ONE, FP_ONE), v(0, FP_ONE)]
}

#[test]
fn test_clip_triangle_fully_inside_is_unchanged() {
    let tri = vec![cv(100, 100), cv(900, 100), cv(500, 900)];
    let clip = square();
    let out = clip_polygon(&tri, &clip);
    assert_eq!(out, tri);
    // Stable under repeated application.
    let again = clip_polygon(&out, &clip);
    assert_eq!(again, out);
}

#[test]
fn test_clip_triangle_on_boundary_is_stable() {
    // Vertices exactly on the square's edges count as inside and survive
    // any number of passes unchanged.
    let tri = vec![cv(0, 0), cv(FP_ONE, 0), cv(FP_ONE / 2, FP_ONE)];
    let clip = square();
    let out = clip_polygon(&tri, &clip);
    assert_eq!(out, tri);
    let again = clip_polygon(&out, &clip);
    assert_eq!(again, out);
}

#[test]
fn test_clip_triangle_fully_outside_is_empty() {
    // Strictly below the square's bottom edge, the first edge processed.
    let tri = vec![cv(100, -500), cv(900, -500), cv(500, -100)];
    let out = clip_polygon(&tri, &square());
    assert!(out.is_empty());
}

#[test]
fn test_clip_triangle_beside_polygon_is_empty() {
    // Strictly to the right of the square but inside its bottom edge's
    // half-plane: the earlier passes leave it untouched and the right
    // edge's pass empties it.
    let tri = vec![
        cv(2 * FP_ONE, 100),
        cv(3 * FP_ONE, 100),
        cv(2 * FP_ONE + 512, 900),
    ];
    let out = clip_polygon(&tri, &square());
    assert!(out.is_empty());
}

#[test]
fn test_clip_triangle_straddling_edge_is_cut() {
    // A triangle poking below the square: the part above the bottom edge
    // survives, with crossing points on the edge line.
    let tri = vec![cv(0, 2048), cv(2048, 2048), cv(1024, -2048)];
    let out = clip_polygon(&tri, &square());
    assert!(out.len() >= 3);
    for p in &out {
        assert!(p.pos.y >= 0);
        assert!(p.pos.y <= FP_ONE);
    }
}

fn region_attachment() -> Attachment {
    Attachment {
        name: "quad".to_owned(),
        data: AttachmentData::Region(RegionAttachment {
            x: 0,
            y: 0,
            rotation: 0,
            scale_x: FP_ONE,
            scale_y: FP_ONE,
            width: 2 * FP_ONE,
            height: 2 * FP_ONE,
            color: Color { r: 255, g: 255, b: 255, a: 255 },
        }),
    }
}

fn one_slot_data(attachment: Attachment) -> SkeletonData {
    SkeletonData::new(
        vec![BoneData {
            name: "root".to_owned(),
            parent: None,
            x: 0,
            y: 0,
            rotation: 0,
            scale_x: FP_ONE,
            scale_y: FP_ONE,
            shear_x: 0,
            shear_y: 0,
            inherit_rotation: true,
            inherit_scale: true,
        }],
        vec![SlotData {
            name: "body".to_owned(),
            bone: 0,
            attachment_name: Some("skin_entry".to_owned()),
            blend_mode: BlendMode::Normal,
            color: Color { r: 255, g: 255, b: 255, a: 255 },
            dark_color: Color { r: 255, g: 255, b: 255, a: 255 },
        }],
        vec![Skin {
            name: "default".to_owned(),
            entries: vec![SkinEntry {
                slot: 0,
                name: "skin_entry".to_owned(),
                attachment,
            }],
        }],
        Vec::new(),
        Vec::new(),
    )
    .unwrap()
}

#[test]
fn test_region_renderable_emits_centered_quad() {
    let mut c = SkeletonController::new(one_slot_data(region_attachment()));
    let batches = c.renderables();
    assert_eq!(batches.len(), 1);
    let b = &batches[0];
    assert_eq!(b.slot_index, 0);
    assert_eq!(b.vertices.len(), 4);
    assert_eq!(b.uvs.len(), 4);
    assert_eq!(b.indices, vec![0, 1, 2, 2, 3, 0]);
    // A 2x2 quad centered on an identity bone: corners one unit out.
    assert_eq!(b.vertices[0], v(-FP_ONE, -FP_ONE));
    assert_eq!(b.vertices[1], v(-FP_ONE, FP_ONE));
    assert_eq!(b.vertices[2], v(FP_ONE, FP_ONE));
    assert_eq!(b.vertices[3], v(FP_ONE, -FP_ONE));
    assert_eq!(b.uvs[0], v(0, 0));
    assert_eq!(b.uvs[2], v(FP_ONE, FP_ONE));
    assert_eq!(b.color, Color { r: 255, g: 255, b: 255, a: 255 });
    // The slot's dark color passes through unmodified.
    assert_eq!(b.dark_color, Color { r: 255, g: 255, b: 255, a: 255 });
    assert_eq!(b.blend_mode, BlendMode::Normal);
    assert!(!b.premultiplied_alpha);
}

#[test]
fn test_counterclockwise_culling_flips_winding() {
    let settings = SkeletonControllerSettings::new()
        .with_cull_direction(CullDirection::CounterClockwise);
    let mut c = SkeletonController::new(one_slot_data(region_attachment()))
        .with_settings(settings);
    let batches = c.renderables();
    assert_eq!(batches[0].indices, vec![0, 2, 1, 2, 0, 3]);
}

#[test]
fn test_premultiplied_alpha_scales_color_channels() {
    let mut att = region_attachment();
    if let AttachmentData::Region(ref mut r) = att.data {
        r.color = Color { r: 200, g: 100, b: 50, a: 128 };
    }
    let settings = SkeletonControllerSettings::new().with_premultiplied_alpha(true);
    let mut c = SkeletonController::new(one_slot_data(att)).with_settings(settings);
    let batches = c.renderables();
    let col = batches[0].color;
    // Slot tint is white, so the batch color is the attachment color with
    // its channels premultiplied by alpha.
    assert_eq!(col.a, 128);
    assert_eq!(col.r as u32, (200 * 128) / 255);
    assert_eq!(col.g as u32, (100 * 128) / 255);
    assert_eq!(col.b as u32, (50 * 128) / 255);
    assert!(batches[0].premultiplied_alpha);
}

#[test]
fn test_mesh_renderable_transforms_vertices() {
    let mesh = Attachment {
        name: "tri".to_owned(),
        data: AttachmentData::Mesh(MeshAttachment {
            vertices: vec![
                MeshVertex { position: v(0, 0), influences: Vec::new() },
                MeshVertex { position: v(FP_ONE, 0), influences: Vec::new() },
                MeshVertex { position: v(0, FP_ONE), influences: Vec::new() },
            ],
            uvs: vec![v(0, 0), v(FP_ONE, 0), v(0, FP_ONE)],
            triangles: vec![0, 1, 2],
            color: Color { r: 255, g: 255, b: 255, a: 255 },
        }),
    };
    let mut data = one_slot_data(mesh);
    // Move the root one unit right so the mesh translates with it.
    data.bones[0].x = FP_ONE;
    let mut c = SkeletonController::new(data);
    let batches = c.renderables();
    assert_eq!(batches.len(), 1);
    let b = &batches[0];
    assert_eq!(b.vertices.len(), 3);
    assert_eq!(b.vertices[0], v(FP_ONE, 0));
    assert_eq!(b.vertices[1], v(2 * FP_ONE, 0));
    assert_eq!(b.vertices[2], v(FP_ONE, FP_ONE));
    assert_eq!(b.indices, vec![0, 1, 2]);
}

#[test]
fn test_clipping_attachment_clips_following_slots() {
    // Slot 0 carries a clip polygon (the unit square), slot 1 a region
    // quad far outside it: the quad's batch comes out empty.
    let clip_att = Attachment {
        name: "clip".to_owned(),
        data: AttachmentData::Clipping(ClippingAttachment { points: square() }),
    };
    let region_far = Attachment {
        name: "far".to_owned(),
        data: AttachmentData::Region(RegionAttachment {
            x: 100 * FP_ONE,
            y: 0,
            rotation: 0,
            scale_x: FP_ONE,
            scale_y: FP_ONE,
            width: FP_ONE,
            height: FP_ONE,
            color: Color { r: 255, g: 255, b: 255, a: 255 },
        }),
    };
    let data = SkeletonData::new(
        vec![BoneData {
            name: "root".to_owned(),
            parent: None,
            x: 0,
            y: 0,
            rotation: 0,
            scale_x: FP_ONE,
            scale_y: FP_ONE,
            shear_x: 0,
            shear_y: 0,
            inherit_rotation: true,
            inherit_scale: true,
        }],
        vec![
            SlotData {
                name: "mask".to_owned(),
                bone: 0,
                attachment_name: Some("clip".to_owned()),
                blend_mode: BlendMode::Normal,
                color: Color { r: 255, g: 255, b: 255, a: 255 },
                dark_color: Color { r: 255, g: 255, b: 255, a: 255 },
            },
            SlotData {
                name: "body".to_owned(),
                bone: 0,
                attachment_name: Some("far".to_owned()),
                blend_mode: BlendMode::Normal,
                color: Color { r: 255, g: 255, b: 255, a: 255 },
                dark_color: Color { r: 255, g: 255, b: 255, a: 255 },
            },
        ],
        vec![Skin {
            name: "default".to_owned(),
            entries: vec![
                SkinEntry { slot: 0, name: "clip".to_owned(), attachment: clip_att },
                SkinEntry { slot: 1, name: "far".to_owned(), attachment: region_far },
            ],
        }],
        Vec::new(),
        Vec::new(),
    )
    .unwrap();
    let mut c = SkeletonController::new(data);
    let batches = c.renderables();
    // The clip attachment itself emits nothing; the far quad is clipped
    // away entirely.
    assert_eq!(batches.len(), 1);
    assert_eq!(batches[0].slot_index, 1);
    assert!(batches[0].vertices.is_empty());
    assert!(batches[0].indices.is_empty());
    // The clip scope is one pass: the clipper is idle again afterwards.
    assert!(c.clipper.polygon.is_none());
}

#[test]
fn test_renderables_repeats_equally_without_update() {
    let mut c = SkeletonController::new(one_slot_data(region_attachment()));
    let b1 = c.renderables();
    let b2 = c.renderables();
    assert_eq!(b1.len(), b2.len());
    for (x, y) in b1.iter().zip(b2.iter()) {
        assert_eq!(x.slot_index, y.slot_index);
        assert_eq!(x.vertices, y.vertices);
        assert_eq!(x.uvs, y.uvs);
        assert_eq!(x.indices, y.indices);
        assert_eq!(x.color, y.color);
        assert_eq!(x.dark_color, y.dark_color);
        assert_eq!(x.blend_mode, y.blend_mode);
        assert_eq!(x.premultiplied_alpha, y.premultiplied_alpha);
    }
}

#[test]
fn test_set_skin_by_name_switches_attachments() {
    let narrow = Attachment {
        name: "look".to_owned(),
        data: AttachmentData::Region(RegionAttachment {
            x: 0,
            y: 0,
            rotation: 0,
            scale_x: FP_ONE,
            scale_y: FP_ONE,
            width: 2 * FP_ONE,
            height: 2 * FP_ONE,
            color: Color { r: 255, g: 255, b: 255, a: 255 },
        }),
    };
    let wide = Attachment {
        name: "look".to_owned(),
        data: AttachmentData::Region(RegionAttachment {
            x: 0,
            y: 0,
            rotation: 0,
            scale_x: FP_ONE,
            scale_y: FP_ONE,
            width: 4 * FP_ONE,
            height: 2 * FP_ONE,
            color: Color { r: 255, g: 255, b: 255, a: 255 },
        }),
    };
    let data = SkeletonData::new(
        vec![BoneData {
            name: "root".to_owned(),
            parent: None,
            x: 0,
            y: 0,
            rotation: 0,
            scale_x: FP_ONE,
            scale_y: FP_ONE,
            shear_x: 0,
            shear_y: 0,
            inherit_rotation: true,
            inherit_scale: true,
        }],
        vec![SlotData {
            name: "body".to_owned(),
            bone: 0,
            attachment_name: Some("look".to_owned()),
            blend_mode: BlendMode::Normal,
            color: Color { r: 255, g: 255, b: 255, a: 255 },
            dark_color: Color { r: 255, g: 255, b: 255, a: 255 },
        }],
        vec![
            Skin {
                name: "default".to_owned(),
                entries: vec![SkinEntry {
                    slot: 0,
                    name: "look".to_owned(),
                    attachment: narrow,
                }],
            },
            Skin {
                name: "bulky".to_owned(),
                entries: vec![SkinEntry {
                    slot: 0,
                    name: "look".to_owned(),
                    attachment: wide,
                }],
            },
        ],
        Vec::new(),
        Vec::new(),
    )
    .unwrap();
    let mut c = SkeletonController::new(data);
    let batches = c.renderables();
    assert_eq!(batches[0].vertices[2], v(FP_ONE, FP_ONE));

    assert_eq!(c.set_skin_by_name("bulky"), Ok(1));
    let batches = c.renderables();
    assert_eq!(batches[0].vertices[2], v(2 * FP_ONE, FP_ONE));

    assert_eq!(c.set_skin_by_name("missing"), Err(SkeletonError::NotFound));
    assert_eq!(c.skeleton.skin, 1);
}
