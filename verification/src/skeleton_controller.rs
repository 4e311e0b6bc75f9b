//! The per-instance facade: drives the mixer, pose application and world
//! propagation in order each frame, and flattens the posed skeleton into
//! renderable batches in draw order, applying the clipping engine.

use vstd::prelude::*;
use crate::animation_state::{
    advance_entry_spec, apply_tracks_spec, new_entry_spec, plain_event, replace_events_spec,
    start_at_spec, update_events_spec, AnimationState, QueuedEntry, TrackEntry,
};
use crate::attachment::{
    Attachment, AttachmentData, BlendMode, Color, MeshAttachment, RegionAttachment, Vertex2,
};
use crate::clipping::{clip_polygon, ClipVertex, SkeletonClipping};
use crate::event::{EventType, QueuedEvent};
use crate::fixed::{
    fp_add, fp_add_spec, fp_mul, fp_mul_spec, scale_ratio, scale_ratio_spec, FP_ONE,
};
use crate::skeleton::{
    compose, compose_spec, locals_of, setup_local_spec, world_spec, Bone, LocalTransform,
    Skeleton, WorldTransform,
};
use crate::skeleton_data::{SkeletonData, SkeletonError};

verus! {

/// Which winding order the consumer treats as front-facing; applied
/// uniformly to every emitted triangle.
#[derive(Clone, Copy, PartialEq, Eq, Structural, Debug)]
pub enum CullDirection {
    Clockwise,
    CounterClockwise,
}

/// Renderer-wide settings applied uniformly to every emitted batch.
#[derive(Clone, Copy, PartialEq, Eq, Structural, Debug)]
pub struct SkeletonControllerSettings {
    pub premultiplied_alpha: bool,
    pub cull_direction: CullDirection,
}

impl Default for SkeletonControllerSettings {
    /// Straight alpha, clockwise front faces.
    fn default() -> (s: Self)
        ensures
            s.premultiplied_alpha == false,
            s.cull_direction == CullDirection::Clockwise,
    {
        SkeletonControllerSettings {
            premultiplied_alpha: false,
            cull_direction: CullDirection::Clockwise,
        }
    }
}

impl SkeletonControllerSettings {
    /// The default settings.
    pub fn new() -> (s: Self)
        ensures
            s.premultiplied_alpha == false,
            s.cull_direction == CullDirection::Clockwise,
    {
        Self::default()
    }

    /// The same settings with premultiplied alpha switched.
    pub fn with_premultiplied_alpha(self, premultiplied_alpha: bool) -> (s: Self)
        ensures
            s.premultiplied_alpha == premultiplied_alpha,
            s.cull_direction == self.cull_direction,
    {
        Self { premultiplied_alpha, ..self }
    }

    /// The same settings with the front-face winding switched.
    pub fn with_cull_direction(self, cull_direction: CullDirection) -> (s: Self)
        ensures
            s.premultiplied_alpha == self.premultiplied_alpha,
            s.cull_direction == cull_direction,
    {
        Self { cull_direction, ..self }
    }
}

/// One renderable batch: the flattened geometry of one slot, ready for
/// rasterization.
#[derive(Clone, Debug)]
pub struct SkeletonRenderable {
    pub slot_index: usize,
    pub vertices: Vec<Vertex2>,
    pub uvs: Vec<Vertex2>,
    pub indices: Vec<u16>,
    pub color: Color,
    pub dark_color: Color,
    pub blend_mode: BlendMode,
    pub premultiplied_alpha: bool,
}

/// Channel-wise product of two tints, rescaled so that 255 acts as one.
pub open spec fn modulate_spec(a: Color, b: Color) -> Color {
    Color {
        r: ((a.r as int * b.r as int) / 255) as u8,
        g: ((a.g as int * b.g as int) / 255) as u8,
        b: ((a.b as int * b.b as int) / 255) as u8,
        a: ((a.a as int * b.a as int) / 255) as u8,
    }
}

/// The authored tint of a drawable attachment; opaque white elsewhere.
pub open spec fn attachment_color_spec(a: Attachment) -> Color {
    match a.data {
        AttachmentData::Region(r) => r.color,
        AttachmentData::Mesh(m) => m.color,
        _ => Color { r: 255, g: 255, b: 255, a: 255 },
    }
}

/// A tint with its color channels premultiplied by its alpha, when the
/// renderer-wide setting asks for it.
pub open spec fn pma_spec(c: Color, pma: bool) -> Color {
    if pma {
        Color {
            r: ((c.r as int * c.a as int) / 255) as u8,
            g: ((c.g as int * c.a as int) / 255) as u8,
            b: ((c.b as int * c.a as int) / 255) as u8,
            a: c.a,
        }
    } else {
        c
    }
}

/// Whether a slot currently shows a drawable attachment: a region or a
/// mesh.  Bounding boxes, paths, points and clip polygons are consumed by
/// other systems and never rendered.
pub open spec fn slot_drawable(s: Skeleton, j: int) -> bool {
    match s.slots@[j].attachment {
        Some(ar) => {
            let a = s.data.skins@[ar.skin as int].entries@[ar.entry as int].attachment;
            a.data is Region || a.data is Mesh
        },
        None => false,
    }
}

/// The ordered sequence of drawable slot indices below `n`: the slots the
/// renderer emits one batch for, in draw order.
pub open spec fn drawables_upto(s: Skeleton, n: int) -> Seq<int>
    decreases n,
{
    if n <= 0 {
        Seq::empty()
    } else {
        let rest = drawables_upto(s, n - 1);
        if slot_drawable(s, n - 1) {
            rest.push(n - 1)
        } else {
            rest
        }
    }
}

/// The view of a clipper's active polygon.
pub open spec fn clip_view(c: SkeletonClipping) -> Option<Seq<Vertex2>> {
    match c.polygon {
        Some(p) => Some(p@),
        None => None,
    }
}

/// The attachment a slot currently shows.
pub open spec fn slot_attachment_spec(s: Skeleton, j: int) -> Attachment
    recommends
        s.slots@[j].attachment is Some,
{
    let ar = s.slots@[j].attachment->Some_0;
    s.data.skins@[ar.skin as int].entries@[ar.entry as int].attachment
}

/// The clipping state after the renderer processes slot `j` in state
/// `st`: a clipping attachment replaces or ends the active polygon (its
/// authored points carried into world space by the slot's bone); every
/// other slot leaves the state alone.
pub open spec fn clip_step_spec(s: Skeleton, st: Option<Seq<Vertex2>>, j: int) -> Option<
    Seq<Vertex2>,
> {
    match s.slots@[j].attachment {
        Some(ar) => match slot_attachment_spec(s, j).data {
            AttachmentData::Clipping(c) => if c.points@.len() == 0 {
                None
            } else {
                Some(
                    Seq::new(
                        c.points@.len(),
                        |k: int|
                            transform_point_spec(
                                s.bones@[s.data.slots@[j].bone as int].world,
                                c.points@[k].x as int,
                                c.points@[k].y as int,
                            ),
                    ),
                )
            },
            _ => st,
        },
        None => st,
    }
}

/// The clipping state after the first `n` slots, from an initial state.
pub open spec fn clip_state_spec(s: Skeleton, st0: Option<Seq<Vertex2>>, n: int) -> Option<
    Seq<Vertex2>,
>
    decreases n,
{
    if n <= 0 {
        st0
    } else {
        clip_step_spec(s, clip_state_spec(s, st0, n - 1), n - 1)
    }
}

/// The world-space source vertices of a drawable slot, with their texture
/// coordinates: a region's four corners, or a mesh's deformed vertices.
pub open spec fn slot_source_verts_spec(s: Skeleton, j: int) -> Seq<ClipVertex> {
    match s.slots@[j].attachment {
        Some(ar) => {
            let bw = s.bones@[s.data.slots@[j].bone as int].world;
            match slot_attachment_spec(s, j).data {
                AttachmentData::Region(rg) => Seq::new(
                    4,
                    |k: int| region_corner_spec(bw, rg, k),
                ),
                AttachmentData::Mesh(m) => Seq::new(
                    m.vertices@.len(),
                    |v: int|
                        ClipVertex {
                            pos: mesh_vertex_pos_spec(
                                s.bones@,
                                s.data.slots@[j].bone as int,
                                m,
                                v,
                            ),
                            uv: m.uvs@[v],
                        },
                ),
                _ => Seq::empty(),
            }
        },
        None => Seq::empty(),
    }
}

/// The authored triangle list of a drawable slot: two triangles for a
/// region quad, the mesh's own topology for a mesh.
pub open spec fn slot_source_tris_spec(s: Skeleton, j: int) -> Seq<u16> {
    match s.slots@[j].attachment {
        Some(ar) => match slot_attachment_spec(s, j).data {
            AttachmentData::Region(_) => seq![0u16, 1u16, 2u16, 2u16, 3u16, 0u16],
            AttachmentData::Mesh(m) => m.triangles@,
            _ => Seq::empty(),
        },
        None => Seq::empty(),
    }
}

/// One triangle's indices in the winding the cull direction asks for.
pub open spec fn winding_spec(a: u16, b: u16, c: u16, cull: CullDirection) -> Seq<u16> {
    match cull {
        CullDirection::Clockwise => seq![a, b, c],
        CullDirection::CounterClockwise => seq![a, c, b],
    }
}

/// The indices of the first `k` authored triangles over shared vertices.
pub open spec fn flat_indices_spec(tris: Seq<u16>, k: int, cull: CullDirection) -> Seq<u16>
    decreases k,
{
    if k <= 0 {
        Seq::empty()
    } else {
        flat_indices_spec(tris, k - 1, cull) + winding_spec(
            tris[3 * (k - 1)],
            tris[3 * (k - 1) + 1],
            tris[3 * (k - 1) + 2],
            cull,
        )
    }
}

/// The fan triangulation of a vertex loop starting at `base`, through its
/// first `f + 1` vertices.
pub open spec fn fan_spec(base: int, f: int, cull: CullDirection) -> Seq<u16>
    decreases f,
{
    if f <= 1 {
        Seq::empty()
    } else {
        fan_spec(base, f - 1, cull) + winding_spec(
            base as u16,
            (base + f - 1) as u16,
            (base + f) as u16,
            cull,
        )
    }
}

/// One triangle clipped against the active polygon and appended to the
/// batch geometry: the surviving vertex loop's positions and texture
/// coordinates, fan-triangulated.  A loop cut below a triangle, or one
/// that would overflow the index range, contributes nothing.
pub open spec fn clipped_step_spec(
    g: (Seq<Vertex2>, Seq<Vertex2>, Seq<u16>),
    tri: Seq<ClipVertex>,
    poly: Seq<Vertex2>,
    cull: CullDirection,
) -> (Seq<Vertex2>, Seq<Vertex2>, Seq<u16>) {
    let clipped = crate::clipping::clip_poly_spec(tri, poly);
    if clipped.len() >= 3 && clipped.len() <= 0xffff && g.0.len() <= 0xffff - clipped.len() {
        (
            g.0 + clipped.map_values(|c: ClipVertex| c.pos),
            g.1 + clipped.map_values(|c: ClipVertex| c.uv),
            g.2 + fan_spec(g.0.len() as int, clipped.len() - 1, cull),
        )
    } else {
        g
    }
}

/// The batch geometry of the first `k` triangles under an active clip
/// polygon.
pub open spec fn clipped_geom_spec(
    verts: Seq<ClipVertex>,
    tris: Seq<u16>,
    k: int,
    poly: Seq<Vertex2>,
    cull: CullDirection,
) -> (Seq<Vertex2>, Seq<Vertex2>, Seq<u16>)
    decreases k,
{
    if k <= 0 {
        (Seq::empty(), Seq::empty(), Seq::empty())
    } else {
        clipped_step_spec(
            clipped_geom_spec(verts, tris, k - 1, poly, cull),
            seq![
                verts[tris[3 * (k - 1)] as int],
                verts[tris[3 * (k - 1) + 1] as int],
                verts[tris[3 * (k - 1) + 2] as int],
            ],
            poly,
            cull,
        )
    }
}

/// The full geometry of one batch.  With no active clip polygon the
/// attachment's vertices are shared once and the authored triangles are
/// emitted in the configured winding (a vertex list beyond the index
/// range yields an empty batch); under a clip polygon every triangle is
/// clipped and fan-triangulated.  So a triangle whose loop lies inside
/// the polygon appears unchanged, and a fully clipped-away triangle
/// contributes nothing.
pub open spec fn batch_geom_spec(
    verts: Seq<ClipVertex>,
    tris: Seq<u16>,
    st: Option<Seq<Vertex2>>,
    cull: CullDirection,
) -> (Seq<Vertex2>, Seq<Vertex2>, Seq<u16>) {
    let clipping = match st {
        Some(p) => p.len() > 0,
        None => false,
    };
    if !clipping {
        if verts.len() <= 0xffff {
            (
                verts.map_values(|c: ClipVertex| c.pos),
                verts.map_values(|c: ClipVertex| c.uv),
                flat_indices_spec(tris, tris.len() as int / 3, cull),
            )
        } else {
            (Seq::empty(), Seq::empty(), Seq::empty())
        }
    } else {
        clipped_geom_spec(verts, tris, tris.len() as int / 3, st->Some_0, cull)
    }
}

/// The exact content of a batch for slot `j` under clipping state `st`:
/// its geometry per `batch_geom_spec`, and its color equal to the slot
/// tint modulated by the attachment's authored color, premultiplied per
/// the settings.
pub open spec fn batch_exact(
    b: SkeletonRenderable,
    s: Skeleton,
    j: int,
    st: Option<Seq<Vertex2>>,
    settings: SkeletonControllerSettings,
) -> bool {
    let g = batch_geom_spec(
        slot_source_verts_spec(s, j),
        slot_source_tris_spec(s, j),
        st,
        settings.cull_direction,
    );
    &&& b.vertices@ == g.0
    &&& b.uvs@ == g.1
    &&& b.indices@ == g.2
    &&& b.color == pma_spec(
        modulate_spec(s.slots@[j].color, attachment_color_spec(slot_attachment_spec(s, j))),
        settings.premultiplied_alpha,
    )
}

/// Structural soundness of one emitted batch against the skeleton it came
/// from: the slot exists, texture coordinates pair up with vertices,
/// indices come in whole triangles and stay in range, and the tint, dark
/// color and blend mode are the slot's.
pub open spec fn batch_wf(b: SkeletonRenderable, s: Skeleton, pma: bool) -> bool {
    &&& b.slot_index < s.data.slots@.len()
    &&& b.slot_index < s.slots@.len()
    &&& b.uvs@.len() == b.vertices@.len()
    &&& b.indices@.len() % 3 == 0
    &&& forall|k: int|
        0 <= k < b.indices@.len() ==> (#[trigger] b.indices@[k]) < b.vertices@.len()
    &&& b.premultiplied_alpha == pma
    &&& b.blend_mode == s.data.slots@[b.slot_index as int].blend_mode
    &&& b.dark_color == s.slots@[b.slot_index as int].dark_color
}

/// A point carried through a world transform's affine map.
pub open spec fn transform_point_spec(w: WorldTransform, x: int, y: int) -> Vertex2 {
    Vertex2 {
        x: fp_add_spec(
            fp_add_spec(fp_mul_spec(w.a as int, x), fp_mul_spec(w.b as int, y)),
            w.tx as int,
        ) as i64,
        y: fp_add_spec(
            fp_add_spec(fp_mul_spec(w.c as int, x), fp_mul_spec(w.d as int, y)),
            w.ty as int,
        ) as i64,
    }
}

/// Carries a point through a world transform's affine map.
pub fn transform_point(w: WorldTransform, x: i64, y: i64) -> (v: Vertex2)
    requires
        w.in_range(),
        crate::fixed::fp_in_range(x as int),
        crate::fixed::fp_in_range(y as int),
    ensures
        v == transform_point_spec(w, x as int, y as int),
        v.in_range(),
{
    Vertex2 {
        x: fp_add(fp_add(fp_mul(w.a, x), fp_mul(w.b, y)), w.tx),
        y: fp_add(fp_add(fp_mul(w.c, x), fp_mul(w.d, y)), w.ty),
    }
}

/// The world transform of a region attachment: its authored offset
/// composed onto its slot's bone.
pub open spec fn region_world_spec(bone_world: WorldTransform, r: RegionAttachment) -> WorldTransform {
    compose_spec(
        bone_world,
        LocalTransform {
            x: r.x,
            y: r.y,
            rotation: r.rotation,
            scale_x: r.scale_x,
            scale_y: r.scale_y,
            shear_x: 0,
            shear_y: 0,
        },
        true,
        true,
    )
}

/// One corner of a region quad in world space, counterclockwise from the
/// bottom-left, with its texture coordinates.
pub open spec fn region_corner_spec(
    bone_world: WorldTransform,
    r: RegionAttachment,
    j: int,
) -> ClipVertex {
    let m = region_world_spec(bone_world, r);
    let w2 = scale_ratio_spec(r.width as int, 1, 2);
    let h2 = scale_ratio_spec(r.height as int, 1, 2);
    let corner = if j == 0 {
        transform_point_spec(m, -w2, -h2)
    } else if j == 1 {
        transform_point_spec(m, -w2, h2)
    } else if j == 2 {
        transform_point_spec(m, w2, h2)
    } else {
        transform_point_spec(m, w2, -h2)
    };
    let uv = if j == 0 {
        Vertex2 { x: 0, y: 0 }
    } else if j == 1 {
        Vertex2 { x: 0, y: FP_ONE }
    } else if j == 2 {
        Vertex2 { x: FP_ONE, y: FP_ONE }
    } else {
        Vertex2 { x: FP_ONE, y: 0 }
    };
    ClipVertex { pos: corner, uv }
}

/// The four world-space corners of a region quad.
pub fn region_vertices(bone_world: WorldTransform, r: &RegionAttachment) -> (v: Vec<ClipVertex>)
    requires
        bone_world.in_range(),
        crate::fixed::fp_in_range(r.x as int),
        crate::fixed::fp_in_range(r.y as int),
        crate::fixed::fp_in_range(r.rotation as int),
        crate::fixed::fp_in_range(r.scale_x as int),
        crate::fixed::fp_in_range(r.scale_y as int),
        crate::fixed::fp_in_range(r.width as int),
        crate::fixed::fp_in_range(r.height as int),
    ensures
        v@.len() == 4,
        forall|j: int| 0 <= j < 4 ==> v@[j] == region_corner_spec(bone_world, *r, j),
        forall|j: int| 0 <= j < v@.len() ==> (#[trigger] v@[j]).in_range(),
{
    let m = compose(
        bone_world,
        LocalTransform {
            x: r.x,
            y: r.y,
            rotation: r.rotation,
            scale_x: r.scale_x,
            scale_y: r.scale_y,
            shear_x: 0,
            shear_y: 0,
        },
        true,
        true,
    );
    let w2 = scale_ratio(r.width, 1, 2);
    let h2 = scale_ratio(r.height, 1, 2);
    let mut v: Vec<ClipVertex> = Vec::new();
    v.push(ClipVertex { pos: transform_point(m, -w2, -h2), uv: Vertex2 { x: 0, y: 0 } });
    v.push(ClipVertex { pos: transform_point(m, -w2, h2), uv: Vertex2 { x: 0, y: FP_ONE } });
    v.push(
        ClipVertex { pos: transform_point(m, w2, h2), uv: Vertex2 { x: FP_ONE, y: FP_ONE } },
    );
    v.push(ClipVertex { pos: transform_point(m, w2, -h2), uv: Vertex2 { x: FP_ONE, y: 0 } });
    v
}

/// One world-space mesh vertex: rigid vertices follow the slot's bone;
/// skinned vertices are the weighted sum of their bone influences, the
/// dominant per-frame kernel.
pub open spec fn mesh_vertex_pos_spec(
    bones: Seq<Bone>,
    slot_bone: int,
    m: MeshAttachment,
    v: int,
) -> Vertex2 {
    let mv = m.vertices@[v];
    if mv.influences@.len() == 0 {
        transform_point_spec(bones[slot_bone].world, mv.position.x as int, mv.position.y as int)
    } else {
        mesh_influence_sum_spec(bones, mv.influences@, mv.influences@.len() as int)
    }
}

/// The weighted sum of the first `k` bone influences of a skinned vertex.
pub open spec fn mesh_influence_sum_spec(
    bones: Seq<Bone>,
    infs: Seq<crate::attachment::BoneInfluence>,
    k: int,
) -> Vertex2
    decreases k,
{
    if k <= 0 {
        Vertex2 { x: 0, y: 0 }
    } else {
        let acc = mesh_influence_sum_spec(bones, infs, k - 1);
        let inf = infs[k - 1];
        let p = transform_point_spec(bones[inf.bone as int].world, inf.x as int, inf.y as int);
        Vertex2 {
            x: fp_add_spec(acc.x as int, fp_mul_spec(inf.weight as int, p.x as int)) as i64,
            y: fp_add_spec(acc.y as int, fp_mul_spec(inf.weight as int, p.y as int)) as i64,
        }
    }
}

/// The driver of one live skeleton: definition, pose, mixer, clipper and
/// renderer-wide settings.
#[derive(Clone, Debug)]
pub struct SkeletonController {
    pub skeleton: Skeleton,
    pub animation_state: AnimationState,
    pub clipper: SkeletonClipping,
    pub settings: SkeletonControllerSettings,
}

impl SkeletonController {
    /// A sound instance: a well-formed skeleton whose mixer references
    /// only declared animations, and whose active clip polygon, if any,
    /// is in numeric range.
    pub open spec fn wf(self) -> bool {
        &&& self.skeleton.wf()
        &&& self.animation_state.valid_for(self.skeleton.data)
        &&& match self.clipper.polygon {
            Some(p) => forall|k: int| 0 <= k < p@.len() ==> (#[trigger] p@[k]).in_range(),
            None => true,
        }
    }

    /// Builds a controller over a validated definition: the skeleton is
    /// put in setup pose and an initial world-transform pass runs.
    pub fn new(data: SkeletonData) -> (c: SkeletonController)
        requires
            data.wf(),
        ensures
            c.wf(),
            c.skeleton.data == data,
            c.animation_state.tracks@.len() == 0,
            c.animation_state.events@.len() == 0,
            c.clipper.polygon is None,
            c.settings.premultiplied_alpha == false,
            c.settings.cull_direction == CullDirection::Clockwise,
            c.skeleton.slots@.len() == data.slots@.len(),
            forall|j: int|
                0 <= j < c.skeleton.slots@.len() ==> crate::skeleton::slot_resolved(
                    data,
                    c.skeleton.slots@,
                    0,
                    j,
                ),
            locals_of(c.skeleton.bones@) =~= Seq::new(
                data.bones@.len(),
                |i: int| setup_local_spec(data, i),
            ),
            forall|i: int|
                0 <= i < c.skeleton.bones@.len() ==> (#[trigger] c.skeleton.bones@[i]).world
                    == world_spec(data, locals_of(c.skeleton.bones@), i),
    {
        SkeletonController {
            skeleton: Skeleton::new(data),
            animation_state: AnimationState::new(0),
            clipper: SkeletonClipping::new(),
            settings: SkeletonControllerSettings::new(),
        }
    }

    /// The same controller with another default crossfade duration for
    /// queued handovers, in ticks.
    pub fn with_default_mix(self, default_mix: u32) -> (c: Self)
        ensures
            c.animation_state.default_mix == default_mix,
            c.animation_state.tracks@ == self.animation_state.tracks@,
            c.animation_state.events@ == self.animation_state.events@,
            c.skeleton == self.skeleton,
            c.clipper == self.clipper,
            c.settings == self.settings,
    {
        let mut c = self;
        c.animation_state.default_mix = default_mix;
        c
    }

    /// The same controller with other renderer-wide settings.
    pub fn with_settings(self, settings: SkeletonControllerSettings) -> (c: Self)
        ensures
            c.settings == settings,
            c.skeleton == self.skeleton,
            c.animation_state == self.animation_state,
            c.clipper == self.clipper,
    {
        Self { settings, ..self }
    }

    /// Looks an animation up by name and replaces the track's entry with
    /// it; the lookup is the sole fallible step and leaves the mixer
    /// untouched when the name is unknown.
    pub fn set_animation_by_name(&mut self, track_index: usize, name: &str, looping: bool) -> (r:
        Result<usize, SkeletonError>)
        requires
            old(self).wf(),
        ensures
            final(self).wf(),
            final(self).skeleton == old(self).skeleton,
            final(self).settings == old(self).settings,
            final(self).animation_state.default_mix == old(self).animation_state.default_mix,
            match r {
                Ok(a) => {
                    &&& a < final(self).skeleton.data.animations@.len()
                    &&& final(self).skeleton.data.animations@[a as int].name@ == name@
                    &&& final(self).animation_state.tracks@.len() >= track_index + 1
                    &&& final(self).animation_state.tracks@[track_index as int] == Some(
                        new_entry_spec(Some(a), looping, 0, None),
                    )
                    &&& forall|i: int|
                        0 <= i < final(self).animation_state.tracks@.len() && i != track_index
                            ==> final(self).animation_state.tracks@[i] == if i < old(
                            self,
                        ).animation_state.tracks@.len() {
                            old(self).animation_state.tracks@[i]
                        } else {
                            Option::<TrackEntry>::None
                        }
                    &&& final(self).animation_state.events@ == old(
                        self,
                    ).animation_state.events@ + replace_events_spec(
                        old(self).skeleton.data,
                        track_index,
                        if track_index < old(self).animation_state.tracks@.len() {
                            old(self).animation_state.tracks@[track_index as int]
                        } else {
                            None
                        },
                        true,
                        Some(Some(a)),
                    )
                },
                Err(e) => e == SkeletonError::NotFound && final(self).animation_state == old(self).animation_state && (forall|i: int|
                    0 <= i < final(self).skeleton.data.animations@.len()
                        ==> (#[trigger] final(self).skeleton.data.animations@[i]).name@
                        != name@),
            },
    {
        match self.skeleton.data.find_animation(name) {
            Some(a) => {
                self.animation_state.set_animation(&self.skeleton.data, track_index, a, looping);
                Ok(a)
            },
            None => Err(SkeletonError::NotFound),
        }
    }

    /// Looks an animation up by name and queues it after the track's
    /// current entry plus `delay` ticks.
    pub fn add_animation_by_name(
        &mut self,
        track_index: usize,
        name: &str,
        looping: bool,
        delay: u32,
    ) -> (r: Result<usize, SkeletonError>)
        requires
            old(self).wf(),
        ensures
            final(self).wf(),
            final(self).skeleton == old(self).skeleton,
            final(self).settings == old(self).settings,
            final(self).animation_state.default_mix == old(self).animation_state.default_mix,
            match r {
                Ok(a) => {
                    &&& a < final(self).skeleton.data.animations@.len()
                    &&& final(self).skeleton.data.animations@[a as int].name@ == name@
                    &&& final(self).animation_state.tracks@.len() >= track_index + 1
                    &&& forall|i: int|
                        0 <= i < final(self).animation_state.tracks@.len() && i != track_index
                            ==> final(self).animation_state.tracks@[i] == if i < old(
                            self,
                        ).animation_state.tracks@.len() {
                            old(self).animation_state.tracks@[i]
                        } else {
                            Option::<TrackEntry>::None
                        }
                    &&& ({
                        let had = track_index < old(self).animation_state.tracks@.len() && old(
                            self,
                        ).animation_state.tracks@[track_index as int] is Some;
                        if had {
                            let e = old(
                                self,
                            ).animation_state.tracks@[track_index as int]->Some_0;
                            &&& final(self).animation_state.tracks@[track_index as int]
                                == Some(
                                TrackEntry {
                                    queued: Some(
                                        QueuedEntry {
                                            animation: Some(a),
                                            looping,
                                            start_at: start_at_spec(
                                                old(self).skeleton.data,
                                                e,
                                                delay as int,
                                            ) as u64,
                                            mix_duration: old(
                                                self,
                                            ).animation_state.default_mix,
                                        },
                                    ),
                                    ..e
                                },
                            )
                            &&& final(self).animation_state.events@ == old(
                                self,
                            ).animation_state.events@ + (match e.queued {
                                Some(q) => seq![
                                    plain_event(track_index, EventType::Dispose, q.animation),
                                ],
                                None => Seq::<QueuedEvent>::empty(),
                            })
                        } else {
                            &&& final(self).animation_state.tracks@[track_index as int]
                                == Some(new_entry_spec(Some(a), looping, 0, None))
                            &&& final(self).animation_state.events@ == old(
                                self,
                            ).animation_state.events@ + seq![
                                plain_event(track_index, EventType::Start, Some(a)),
                            ]
                        }
                    })
                },
                Err(e) => e == SkeletonError::NotFound && final(self).animation_state == old(self).animation_state,
            },
    {
        match self.skeleton.data.find_animation(name) {
            Some(a) => {
                self.animation_state.add_animation(
                    &self.skeleton.data,
                    track_index,
                    a,
                    looping,
                    delay,
                );
                Ok(a)
            },
            None => Err(SkeletonError::NotFound),
        }
    }

    /// One frame step: the mixer advances every track by `delta_ticks`,
    /// the resulting mix state is applied onto a setup-pose reset, and a
    /// world-transform pass follows, in that fixed order.
    pub fn update(&mut self, delta_ticks: u32)
        requires
            old(self).wf(),
        ensures
            final(self).wf(),
            final(self).skeleton.data == old(self).skeleton.data,
            final(self).skeleton.slots@ == old(self).skeleton.slots@,
            final(self).settings == old(self).settings,
            final(self).clipper == old(self).clipper,
            final(self).animation_state.tracks@.len() == old(self).animation_state.tracks@.len(),
            forall|i: int|
                0 <= i < final(self).animation_state.tracks@.len() ==> final(self).animation_state.tracks@[i] == (match old(self).animation_state.tracks@[i] {
                    Some(e) => Some(
                        advance_entry_spec(old(self).skeleton.data, e, delta_ticks as int),
                    ),
                    None => Option::<TrackEntry>::None,
                }),
            final(self).animation_state.events@ == old(self).animation_state.events@
                + update_events_spec(
                old(self).skeleton.data,
                old(self).animation_state.tracks@,
                delta_ticks as int,
                old(self).animation_state.tracks@.len() as int,
            ),
            locals_of(final(self).skeleton.bones@) == apply_tracks_spec(
                old(self).skeleton.data,
                final(self).animation_state.tracks@,
                final(self).animation_state.tracks@.len() as int,
                Seq::new(
                    old(self).skeleton.data.bones@.len(),
                    |i: int| setup_local_spec(old(self).skeleton.data, i),
                ),
            ),
            forall|i: int|
                0 <= i < final(self).skeleton.bones@.len()
                    ==> (#[trigger] final(self).skeleton.bones@[i]).world == world_spec(
                    old(self).skeleton.data,
                    locals_of(final(self).skeleton.bones@),
                    i,
                ),
    {
        self.animation_state.update(&self.skeleton.data, delta_ticks);
        self.animation_state.apply(&mut self.skeleton);
        self.skeleton.update_world_transform();
    }

    /// Switches the active skin by name, re-resolving every slot's
    /// attachment; the name lookup is the sole fallible step.
    pub fn set_skin_by_name(&mut self, name: &str) -> (r: Result<usize, SkeletonError>)
        requires
            old(self).wf(),
        ensures
            final(self).wf(),
            final(self).animation_state == old(self).animation_state,
            final(self).settings == old(self).settings,
            final(self).skeleton.data == old(self).skeleton.data,
            final(self).skeleton.bones@ == old(self).skeleton.bones@,
            match r {
                Ok(i) => {
                    &&& i < final(self).skeleton.data.skins@.len()
                    &&& final(self).skeleton.data.skins@[i as int].name@ == name@
                    &&& final(self).skeleton.skin == i
                    &&& forall|s: int|
                        0 <= s < final(self).skeleton.slots@.len()
                            ==> crate::skeleton::slot_resolved(
                            final(self).skeleton.data,
                            final(self).skeleton.slots@,
                            i as int,
                            s,
                        )
                },
                Err(e) => e == SkeletonError::NotFound && final(self).skeleton.slots@ == old(self).skeleton.slots@ && (forall|i: int|
                    0 <= i < final(self).skeleton.data.skins@.len()
                        ==> (#[trigger] final(self).skeleton.data.skins@[i]).name@ != name@),
            },
    {
        self.skeleton.set_skin_by_name(name)
    }

    /// Hands the notifications buffered by earlier frame steps to the
    /// host, in generation order, and clears the queue.
    pub fn drain_events(&mut self) -> (r: Vec<QueuedEvent>)
        requires
            old(self).wf(),
        ensures
            final(self).wf(),
            r@ == old(self).animation_state.events@,
            final(self).animation_state.events@.len() == 0,
            final(self).animation_state.tracks@ == old(self).animation_state.tracks@,
            final(self).skeleton == old(self).skeleton,
            final(self).settings == old(self).settings,
    {
        self.animation_state.drain_events()
    }

    /// Walks the slots in draw order and emits one renderable batch per
    /// drawable attachment, consulting and updating the clipping state
    /// machine: clipping attachments open or close the active polygon and
    /// emit nothing; while one is active, every triangle is clipped
    /// against it and the remainder fan-triangulated.  The clip scope is
    /// one pass: the clipper is idle again when the walk ends, so batch
    /// content is a function of the pose, the settings and the initial
    /// clipping state alone, and two passes over an unchanged pose from
    /// an idle clipper return equal batches.
    pub fn renderables(&mut self) -> (r: Vec<SkeletonRenderable>)
        requires
            old(self).wf(),
        ensures
            final(self).wf(),
            final(self).skeleton == old(self).skeleton,
            final(self).animation_state == old(self).animation_state,
            final(self).settings == old(self).settings,
            final(self).clipper.polygon is None,
            forall|k: int|
                0 <= k < r@.len() ==> batch_wf(
                    #[trigger] r@[k],
                    old(self).skeleton,
                    old(self).settings.premultiplied_alpha,
                ),
            r@.map_values(|b: SkeletonRenderable| b.slot_index as int) == drawables_upto(
                old(self).skeleton,
                old(self).skeleton.slots@.len() as int,
            ),
            forall|k: int|
                0 <= k < r@.len() ==> batch_exact(
                    #[trigger] r@[k],
                    old(self).skeleton,
                    r@[k].slot_index as int,
                    clip_state_spec(
                        old(self).skeleton,
                        clip_view(old(self).clipper),
                        r@[k].slot_index as int,
                    ),
                    old(self).settings,
                ),
    {
        let mut out: Vec<SkeletonRenderable> = Vec::new();
        let n_slots = self.skeleton.slots.len();
        let mut s: usize = 0;
        while s < n_slots
            invariant
                old(self).wf(),
                self.skeleton == old(self).skeleton,
                self.animation_state == old(self).animation_state,
                self.settings == old(self).settings,
                n_slots == self.skeleton.slots@.len(),
                0 <= s <= n_slots,
                forall|k: int|
                    0 <= k < out@.len() ==> batch_wf(
                        #[trigger] out@[k],
                        old(self).skeleton,
                        old(self).settings.premultiplied_alpha,
                    ),
                out@.map_values(|b: SkeletonRenderable| b.slot_index as int)
                    == drawables_upto(old(self).skeleton, s as int),
                clip_view(self.clipper) == clip_state_spec(
                    old(self).skeleton,
                    clip_view(old(self).clipper),
                    s as int,
                ),
                forall|k: int|
                    0 <= k < out@.len() ==> batch_exact(
                        #[trigger] out@[k],
                        old(self).skeleton,
                        out@[k].slot_index as int,
                        clip_state_spec(
                            old(self).skeleton,
                            clip_view(old(self).clipper),
                            out@[k].slot_index as int,
                        ),
                        old(self).settings,
                    ),
                match self.clipper.polygon {
                    Some(p) => forall|k: int|
                        0 <= k < p@.len() ==> (#[trigger] p@[k]).in_range(),
                    None => true,
                },
            decreases n_slots - s,
        {
            let ghost st_here = clip_state_spec(
                old(self).skeleton,
                clip_view(old(self).clipper),
                s as int,
            );
            let slot = self.skeleton.slots[s];
            match slot.attachment {
                None => {
                    proof {
                        assert(!slot_drawable(old(self).skeleton, s as int));
                        assert(clip_step_spec(old(self).skeleton, st_here, s as int)
                            == st_here);
                    }
                },
                Some(ar) => {
                    proof {
                        assert(self.skeleton.slots@[s as int].attachment is Some);
                        assert(self.skeleton.data.indices_ok());
                        assert(self.skeleton.data.slots@[s as int].bone
                            < self.skeleton.data.bones@.len());
                    }
                    let bone_index = self.skeleton.data.slots[s].bone;
                    let bone_world = self.skeleton.bones[bone_index].world;
                    proof {
                        assert(self.skeleton.data.geometry_ok());
                        assert(crate::skeleton_data::attachment_geometry_ok(
                            self.skeleton.data.skins@[ar.skin as int].entries@[ar.entry as int].attachment,
                        ));
                    }
                    let entry = &self.skeleton.data.skins[ar.skin].entries[ar.entry];
                    match &entry.attachment.data {
                        AttachmentData::Clipping(c) => {
                            if c.points.len() == 0 {
                                self.clipper.clip_end();
                                proof {
                                    assert(clip_view(self.clipper) == clip_step_spec(
                                        old(self).skeleton,
                                        st_here,
                                        s as int,
                                    ));
                                }
                            } else {
                                let pts = transform_points(bone_world, &c.points);
                                proof {
                                    assert(pts@ =~= Seq::new(
                                        c.points@.len(),
                                        |k: int|
                                            transform_point_spec(
                                                old(self).skeleton.bones@[old(
                                                    self,
                                                ).skeleton.data.slots@[s as int].bone as int].world,
                                                c.points@[k].x as int,
                                                c.points@[k].y as int,
                                            ),
                                    ));
                                }
                                self.clipper.clip_start(pts);
                                proof {
                                    assert(clip_view(self.clipper) == clip_step_spec(
                                        old(self).skeleton,
                                        st_here,
                                        s as int,
                                    ));
                                }
                            }
                            proof {
                                assert(!slot_drawable(old(self).skeleton, s as int));
                            }
                        },
                        AttachmentData::Region(rg) => {
                            let verts = region_vertices(bone_world, rg);
                            proof {
                                assert(verts@ =~= slot_source_verts_spec(
                                    old(self).skeleton,
                                    s as int,
                                ));
                            }
                            let batch = build_batch(
                                s,
                                &verts,
                                &region_triangles(),
                                slot,
                                self.skeleton.data.slots[s].blend_mode,
                                rg.color,
                                &self.clipper,
                                self.settings,
                            );
                            out.push(batch);
                            proof {
                                assert(slot_drawable(old(self).skeleton, s as int));
                                assert(out@.map_values(
                                    |b: SkeletonRenderable| b.slot_index as int,
                                ) =~= drawables_upto(old(self).skeleton, s as int).push(
                                    s as int,
                                ));
                                assert(clip_step_spec(old(self).skeleton, st_here, s as int)
                                    == st_here);
                                assert(batch_exact(
                                    out@[out@.len() - 1],
                                    old(self).skeleton,
                                    s as int,
                                    st_here,
                                    old(self).settings,
                                ));
                            }
                        },
                        AttachmentData::Mesh(m) => {
                            proof {
                                assert(crate::skeleton_data::attachment_indices_ok(
                                    self.skeleton.data.skins@[ar.skin as int].entries@[ar.entry as int].attachment,
                                    self.skeleton.data.bones@.len() as int,
                                ));
                            }
                            let verts = mesh_vertices(&self.skeleton.bones, bone_index, m);
                            proof {
                                assert(verts@ =~= slot_source_verts_spec(
                                    old(self).skeleton,
                                    s as int,
                                ));
                            }
                            let batch = build_batch(
                                s,
                                &verts,
                                &m.triangles,
                                slot,
                                self.skeleton.data.slots[s].blend_mode,
                                m.color,
                                &self.clipper,
                                self.settings,
                            );
                            out.push(batch);
                            proof {
                                assert(slot_drawable(old(self).skeleton, s as int));
                                assert(out@.map_values(
                                    |b: SkeletonRenderable| b.slot_index as int,
                                ) =~= drawables_upto(old(self).skeleton, s as int).push(
                                    s as int,
                                ));
                                assert(clip_step_spec(old(self).skeleton, st_here, s as int)
                                    == st_here);
                                assert(batch_exact(
                                    out@[out@.len() - 1],
                                    old(self).skeleton,
                                    s as int,
                                    st_here,
                                    old(self).settings,
                                ));
                            }
                        },
                        _ => {
                            proof {
                                assert(!slot_drawable(old(self).skeleton, s as int));
                                assert(clip_step_spec(old(self).skeleton, st_here, s as int)
                                    == st_here);
                            }
                        },
                    }
                },
            }
            s = s + 1;
        }
        self.clipper.clip_end();
        out
    }
}

/// The two triangles of a region quad, counterclockwise.
fn region_triangles() -> (t: Vec<u16>)
    ensures
        t@ == seq![0u16, 1u16, 2u16, 2u16, 3u16, 0u16],
        t@.len() == 6,
        forall|k: int| 0 <= k < t@.len() ==> (#[trigger] t@[k]) < 4,
{
    let mut t: Vec<u16> = Vec::new();
    t.push(0);
    t.push(1);
    t.push(2);
    t.push(2);
    t.push(3);
    t.push(0);
    proof {
        assert(t@ =~= seq![0u16, 1u16, 2u16, 2u16, 3u16, 0u16]);
    }
    t
}

/// Carries each authored point through the bone's world transform.
fn transform_points(w: WorldTransform, points: &Vec<Vertex2>) -> (r: Vec<Vertex2>)
    requires
        w.in_range(),
        forall|k: int| 0 <= k < points@.len() ==> (#[trigger] points@[k]).in_range(),
    ensures
        r@.len() == points@.len(),
        forall|k: int|
            0 <= k < r@.len() ==> #[trigger] r@[k] == transform_point_spec(
                w,
                points@[k].x as int,
                points@[k].y as int,
            ),
        forall|k: int| 0 <= k < r@.len() ==> (#[trigger] r@[k]).in_range(),
{
    let mut r: Vec<Vertex2> = Vec::new();
    let mut k: usize = 0;
    while k < points.len()
        invariant
            w.in_range(),
            forall|j: int| 0 <= j < points@.len() ==> (#[trigger] points@[j]).in_range(),
            0 <= k <= points@.len(),
            r@.len() == k,
            forall|j: int|
                0 <= j < k ==> #[trigger] r@[j] == transform_point_spec(
                    w,
                    points@[j].x as int,
                    points@[j].y as int,
                ),
            forall|j: int| 0 <= j < r@.len() ==> (#[trigger] r@[j]).in_range(),
        decreases points@.len() - k,
    {
        let p = points[k];
        r.push(transform_point(w, p.x, p.y));
        k = k + 1;
    }
    r
}

/// The world-space vertices of a mesh, with their texture coordinates.
fn mesh_vertices(bones: &Vec<Bone>, slot_bone: usize, m: &MeshAttachment) -> (r: Vec<ClipVertex>)
    requires
        slot_bone < bones@.len(),
        forall|i: int| 0 <= i < bones@.len() ==> (#[trigger] bones@[i]).world.in_range(),
        crate::skeleton_data::mesh_geometry_ok(*m),
        crate::skeleton_data::mesh_indices_ok(*m, bones@.len() as int),
        m.uvs@.len() == m.vertices@.len(),
    ensures
        r@.len() == m.vertices@.len(),
        forall|v: int|
            0 <= v < r@.len() ==> (#[trigger] r@[v]).pos == mesh_vertex_pos_spec(
                bones@,
                slot_bone as int,
                *m,
                v,
            ),
        forall|v: int| 0 <= v < r@.len() ==> (#[trigger] r@[v]).uv == m.uvs@[v],
        forall|v: int| 0 <= v < r@.len() ==> (#[trigger] r@[v]).in_range(),
{
    let mut r: Vec<ClipVertex> = Vec::new();
    let mut v: usize = 0;
    while v < m.vertices.len()
        invariant
            slot_bone < bones@.len(),
            forall|i: int| 0 <= i < bones@.len() ==> (#[trigger] bones@[i]).world.in_range(),
            crate::skeleton_data::mesh_geometry_ok(*m),
            crate::skeleton_data::mesh_indices_ok(*m, bones@.len() as int),
            m.uvs@.len() == m.vertices@.len(),
            0 <= v <= m.vertices@.len(),
            r@.len() == v,
            forall|j: int|
                0 <= j < v ==> (#[trigger] r@[j]).pos == mesh_vertex_pos_spec(
                    bones@,
                    slot_bone as int,
                    *m,
                    j,
                ),
            forall|j: int| 0 <= j < v ==> (#[trigger] r@[j]).uv == m.uvs@[j],
            forall|j: int| 0 <= j < r@.len() ==> (#[trigger] r@[j]).in_range(),
        decreases m.vertices@.len() - v,
    {
        let mv = &m.vertices[v];
        let pos: Vertex2 = if mv.influences.len() == 0 {
            transform_point(bones[slot_bone].world, mv.position.x, mv.position.y)
        } else {
            let mut acc = Vertex2 { x: 0, y: 0 };
            let mut k: usize = 0;
            while k < mv.influences.len()
                invariant
                    forall|i: int|
                        0 <= i < bones@.len() ==> (#[trigger] bones@[i]).world.in_range(),
                    crate::skeleton_data::mesh_geometry_ok(*m),
                    crate::skeleton_data::mesh_indices_ok(*m, bones@.len() as int),
                    v < m.vertices@.len(),
                    mv.influences@ == m.vertices@[v as int].influences@,
                    0 <= k <= mv.influences@.len(),
                    acc == mesh_influence_sum_spec(bones@, mv.influences@, k as int),
                    acc.in_range(),
                decreases mv.influences@.len() - k,
            {
                let inf = &mv.influences[k];
                let p = transform_point(bones[inf.bone].world, inf.x, inf.y);
                acc = Vertex2 {
                    x: fp_add(acc.x, fp_mul(inf.weight, p.x)),
                    y: fp_add(acc.y, fp_mul(inf.weight, p.y)),
                };
                k = k + 1;
            }
            acc
        };
        r.push(ClipVertex { pos, uv: m.uvs[v] });
        v = v + 1;
    }
    r
}

/// Flattens one attachment's triangles into a batch, clipping each
/// triangle against the active polygon and fan-triangulating the
/// remainder; the vertex budget of a batch is the index type's range.
fn build_batch(
    slot_index: usize,
    verts: &Vec<ClipVertex>,
    triangles: &Vec<u16>,
    slot: crate::skeleton::Slot,
    blend_mode: BlendMode,
    attachment_color: Color,
    clipper: &SkeletonClipping,
    settings: SkeletonControllerSettings,
) -> (b: SkeletonRenderable)
    requires
        forall|k: int| 0 <= k < verts@.len() ==> (#[trigger] verts@[k]).in_range(),
        forall|k: int| 0 <= k < triangles@.len() ==> (#[trigger] triangles@[k]) < verts@.len(),
        match clipper.polygon {
            Some(p) => forall|k: int| 0 <= k < p@.len() ==> (#[trigger] p@[k]).in_range(),
            None => true,
        },
    ensures
        b.slot_index == slot_index,
        b.uvs@.len() == b.vertices@.len(),
        b.indices@.len() % 3 == 0,
        forall|k: int|
            0 <= k < b.indices@.len() ==> (#[trigger] b.indices@[k]) < b.vertices@.len(),
        b.premultiplied_alpha == settings.premultiplied_alpha,
        b.blend_mode == blend_mode,
        b.dark_color == slot.dark_color,
        b.color == pma_spec(
            modulate_spec(slot.color, attachment_color),
            settings.premultiplied_alpha,
        ),
        ({
            let g = batch_geom_spec(verts@, triangles@, clip_view(*clipper), settings.cull_direction);
            b.vertices@ == g.0 && b.uvs@ == g.1 && b.indices@ == g.2
        }),
{
    let mut vertices: Vec<Vertex2> = Vec::new();
    let mut uvs: Vec<Vertex2> = Vec::new();
    let mut indices: Vec<u16> = Vec::new();
    let clipping_active: bool = match &clipper.polygon {
        Some(p) => p.len() > 0,
        None => false,
    };
    let n_tris = triangles.len() / 3;
    if !clipping_active {
        // Without an active clip polygon the attachment's vertices are
        // shared: one copy of each, with the authored indices.
        if verts.len() <= 0xffff {
            let mut j: usize = 0;
            while j < verts.len()
                invariant
                    forall|k: int| 0 <= k < verts@.len() ==> (#[trigger] verts@[k]).in_range(),
                    0 <= j <= verts@.len(),
                    verts@.len() <= 0xffff,
                    vertices@.len() == j,
                    uvs@.len() == j,
                    vertices@ == verts@.take(j as int).map_values(|c: ClipVertex| c.pos),
                    uvs@ == verts@.take(j as int).map_values(|c: ClipVertex| c.uv),
                decreases verts@.len() - j,
            {
                let cvx = verts[j];
                vertices.push(cvx.pos);
                uvs.push(cvx.uv);
                proof {
                    assert(verts@.take(j + 1).drop_last() =~= verts@.take(j as int));
                    assert(vertices@ =~= verts@.take(j + 1).map_values(
                        |c: ClipVertex| c.pos,
                    ));
                    assert(uvs@ =~= verts@.take(j + 1).map_values(|c: ClipVertex| c.uv));
                }
                j = j + 1;
            }
            proof {
                assert(verts@.take(verts@.len() as int) =~= verts@);
            }
            let mut t: usize = 0;
            while t < n_tris
                invariant
                    forall|k: int|
                        0 <= k < triangles@.len() ==> (#[trigger] triangles@[k])
                            < verts@.len(),
                    n_tris == triangles@.len() / 3,
                    triangles@.len() <= usize::MAX,
                    0 <= t <= n_tris,
                    vertices@.len() == verts@.len(),
                    vertices@ == verts@.map_values(|c: ClipVertex| c.pos),
                    uvs@ == verts@.map_values(|c: ClipVertex| c.uv),
                    uvs@.len() == vertices@.len(),
                    indices@ == flat_indices_spec(triangles@, t as int, settings.cull_direction),
                    indices@.len() % 3 == 0,
                    forall|k: int|
                        0 <= k < indices@.len() ==> (#[trigger] indices@[k])
                            < vertices@.len(),
                decreases n_tris - t,
            {
                proof {
                    vstd::arithmetic::div_mod::lemma_fundamental_div_mod(
                        triangles@.len() as int,
                        3,
                    );
                    vstd::arithmetic::div_mod::lemma_mod_division_less_than_divisor(
                        triangles@.len() as int,
                        3,
                    );
                    assert(3 * (t as int) + 2 < triangles@.len());
                }
                push_winding(
                    &mut indices,
                    triangles[3 * t],
                    triangles[3 * t + 1],
                    triangles[3 * t + 2],
                    settings.cull_direction,
                );
                proof {
                    assert(indices@ =~= flat_indices_spec(
                        triangles@,
                        t + 1,
                        settings.cull_direction,
                    ));
                }
                t = t + 1;
            }
        }
    } else {
        match &clipper.polygon {
            Some(poly) => {
                let mut t: usize = 0;
                while t < n_tris
                    invariant
                        forall|k: int|
                            0 <= k < verts@.len() ==> (#[trigger] verts@[k]).in_range(),
                        forall|k: int|
                            0 <= k < triangles@.len() ==> (#[trigger] triangles@[k])
                                < verts@.len(),
                        forall|k: int|
                            0 <= k < poly@.len() ==> (#[trigger] poly@[k]).in_range(),
                        n_tris == triangles@.len() / 3,
                        triangles@.len() <= usize::MAX,
                        0 <= t <= n_tris,
                        uvs@.len() == vertices@.len(),
                        vertices@.len() <= 0xffff,
                        indices@.len() % 3 == 0,
                        (vertices@, uvs@, indices@) == clipped_geom_spec(
                            verts@,
                            triangles@,
                            t as int,
                            poly@,
                            settings.cull_direction,
                        ),
                        forall|k: int|
                            0 <= k < indices@.len() ==> (#[trigger] indices@[k])
                                < vertices@.len(),
                    decreases n_tris - t,
                {
                    proof {
                        vstd::arithmetic::div_mod::lemma_fundamental_div_mod(
                            triangles@.len() as int,
                            3,
                        );
                        vstd::arithmetic::div_mod::lemma_mod_division_less_than_divisor(
                            triangles@.len() as int,
                            3,
                        );
                        assert(3 * (t as int) + 2 < triangles@.len());
                    }
                    let i0 = triangles[3 * t] as usize;
                    let i1 = triangles[3 * t + 1] as usize;
                    let i2 = triangles[3 * t + 2] as usize;
                    append_clipped_triangle(
                        &mut vertices,
                        &mut uvs,
                        &mut indices,
                        verts[i0],
                        verts[i1],
                        verts[i2],
                        poly,
                        settings.cull_direction,
                    );
                    t = t + 1;
                }
            },
            None => {},
        }
    }
    let color = apply_pma(slot.color.modulate(attachment_color), settings.premultiplied_alpha);
    SkeletonRenderable {
        slot_index,
        vertices,
        uvs,
        indices,
        color,
        dark_color: slot.dark_color,
        blend_mode,
        premultiplied_alpha: settings.premultiplied_alpha,
    }
}

/// Premultiplies the color channels by alpha when the setting asks.
fn apply_pma(c: Color, pma: bool) -> (r: Color)
    ensures
        r == pma_spec(c, pma),
{
    if pma {
        let a = Color { r: c.a, g: c.a, b: c.a, a: 255 };
        let m = c.modulate(a);
        Color { r: m.r, g: m.g, b: m.b, a: c.a }
    } else {
        c
    }
}

/// Clips one triangle against the active polygon and appends the
/// surviving loop to the batch buffers, fan-triangulated in the
/// configured winding; exactly one `clipped_step_spec` step.
fn append_clipped_triangle(
    vertices: &mut Vec<Vertex2>,
    uvs: &mut Vec<Vertex2>,
    indices: &mut Vec<u16>,
    v0: ClipVertex,
    v1: ClipVertex,
    v2: ClipVertex,
    poly: &Vec<Vertex2>,
    cull: CullDirection,
)
    requires
        v0.in_range(),
        v1.in_range(),
        v2.in_range(),
        old(uvs)@.len() == old(vertices)@.len(),
        old(vertices)@.len() <= 0xffff,
        old(indices)@.len() % 3 == 0,
        forall|k: int|
            0 <= k < old(indices)@.len() ==> (#[trigger] old(indices)@[k]) < old(vertices)@.len(),
        forall|k: int| 0 <= k < poly@.len() ==> (#[trigger] poly@[k]).in_range(),
    ensures
        ({
            let g = clipped_step_spec(
                (old(vertices)@, old(uvs)@, old(indices)@),
                seq![v0, v1, v2],
                poly@,
                cull,
            );
            final(vertices)@ == g.0 && final(uvs)@ == g.1 && final(indices)@ == g.2
        }),
        final(uvs)@.len() == final(vertices)@.len(),
        final(vertices)@.len() <= 0xffff,
        final(indices)@.len() % 3 == 0,
        forall|k: int|
            0 <= k < final(indices)@.len() ==> (#[trigger] final(indices)@[k]) < final(vertices)@.len(),
{
    let mut tri: Vec<ClipVertex> = Vec::new();
    tri.push(v0);
    tri.push(v1);
    tri.push(v2);
    proof {
        assert(tri@ =~= seq![v0, v1, v2]);
    }
    let clipped = clip_polygon(&tri, poly);
    if clipped.len() >= 3 && clipped.len() <= 0xffff && vertices.len() <= 0xffff
        - clipped.len() {
        let base = vertices.len();
        let mut j: usize = 0;
        while j < clipped.len()
            invariant
                forall|k: int|
                    0 <= k < clipped@.len() ==> (#[trigger] clipped@[k]).in_range(),
                0 <= j <= clipped@.len(),
                vertices@.len() == base + j,
                base == old(vertices)@.len(),
                base + clipped@.len() <= 0xffff,
                vertices@ == old(vertices)@ + clipped@.take(j as int).map_values(
                    |c: ClipVertex| c.pos,
                ),
                uvs@ == old(uvs)@ + clipped@.take(j as int).map_values(|c: ClipVertex| c.uv),
                uvs@.len() == vertices@.len(),
                indices@ == old(indices)@,
            decreases clipped@.len() - j,
        {
            let cv = clipped[j];
            vertices.push(cv.pos);
            uvs.push(cv.uv);
            proof {
                assert(clipped@.take(j + 1).drop_last() =~= clipped@.take(j as int));
                assert(clipped@.take(j + 1).map_values(|c: ClipVertex| c.pos)
                    =~= clipped@.take(j as int).map_values(|c: ClipVertex| c.pos).push(cv.pos));
                assert(clipped@.take(j + 1).map_values(|c: ClipVertex| c.uv)
                    =~= clipped@.take(j as int).map_values(|c: ClipVertex| c.uv).push(cv.uv));
                assert(vertices@ =~= old(vertices)@ + clipped@.take(j + 1).map_values(
                    |c: ClipVertex| c.pos,
                ));
                assert(uvs@ =~= old(uvs)@ + clipped@.take(j + 1).map_values(
                    |c: ClipVertex| c.uv,
                ));
            }
            j = j + 1;
        }
        proof {
            assert(clipped@.take(clipped@.len() as int) =~= clipped@);
        }
        let mut f: usize = 1;
        while f + 1 < clipped.len()
            invariant
                1 <= f,
                f <= clipped@.len() - 1,
                clipped@.len() >= 3,
                base == old(vertices)@.len(),
                base + clipped@.len() <= 0xffff,
                vertices@.len() == base + clipped@.len(),
                uvs@.len() == vertices@.len(),
                indices@ == old(indices)@ + fan_spec(base as int, f as int, cull),
                old(indices)@.len() % 3 == 0,
                indices@.len() % 3 == 0,
                forall|k: int|
                    0 <= k < old(indices)@.len() ==> (#[trigger] old(indices)@[k])
                        < old(vertices)@.len(),
            decreases clipped@.len() - f,
        {
            push_winding(
                indices,
                base as u16,
                (base + f) as u16,
                (base + f + 1) as u16,
                cull,
            );
            proof {
                assert(indices@ =~= old(indices)@ + fan_spec(base as int, f + 1, cull));
            }
            f = f + 1;
        }
        proof {
            assert(f == clipped@.len() - 1);
            assert(forall|k: int|
                0 <= k < indices@.len() ==> (#[trigger] indices@[k]) < vertices@.len())
                by {
                lemma_fan_bounds(base as int, clipped@.len() - 1, cull);
                assert(forall|k: int|
                    0 <= k < old(indices)@.len() ==> (#[trigger] old(indices)@[k])
                        < vertices@.len());
            }
        }
    }
}

/// Every index a fan emits lies in `[base, base + f]`, so within the
/// vertex range the loop occupies.
proof fn lemma_fan_bounds(base: int, f: int, cull: CullDirection)
    requires
        0 <= base,
        base + f <= 0xfffe,
    ensures
        fan_spec(base, f, cull).len() % 3 == 0,
        forall|k: int|
            0 <= k < fan_spec(base, f, cull).len() ==> (#[trigger] fan_spec(base, f, cull)[k])
                <= base + f,
    decreases f,
{
    if f > 1 {
        lemma_fan_bounds(base, f - 1, cull);
    }
}

/// Pushes one triangle's indices in the winding the cull direction asks.
fn push_winding(indices: &mut Vec<u16>, a: u16, b: u16, c: u16, cull: CullDirection)
    ensures
        final(indices)@ == (match cull {
            CullDirection::Clockwise => old(indices)@.push(a).push(b).push(c),
            CullDirection::CounterClockwise => old(indices)@.push(a).push(c).push(b),
        }),
{
    match cull {
        CullDirection::Clockwise => {
            indices.push(a);
            indices.push(b);
            indices.push(c);
        },
        CullDirection::CounterClockwise => {
            indices.push(a);
            indices.push(c);
            indices.push(b);
        },
    }
}

} // verus!
