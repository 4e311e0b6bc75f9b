//! The immutable definition tables a skeleton instance is built from.
//!
//! Bones, slots, skins, animations and events are validated once at load;
//! afterwards every runtime pass trusts the indices and ranges stated by
//! `SkeletonData::wf`, so the hot path never re-checks them.

use vstd::prelude::*;
use crate::animation::{Animation, Timeline, TimelineTarget, frames_sorted, frames_in_range, keys_sorted};
use crate::attachment::{Attachment, AttachmentData, BlendMode, Color, MeshAttachment};
use crate::event::EventData;
use crate::fixed::fp_in_range;

verus! {

/// The immutable definition of one bone: its parent and setup-pose local
/// transform.  Coordinates and scales are fixed point; angles millidegrees.
#[derive(Clone, Debug)]
pub struct BoneData {
    pub name: String,
    pub parent: Option<usize>,
    pub x: i64,
    pub y: i64,
    pub rotation: i64,
    pub scale_x: i64,
    pub scale_y: i64,
    pub shear_x: i64,
    pub shear_y: i64,
    pub inherit_rotation: bool,
    pub inherit_scale: bool,
}

impl BoneData {
    /// A parent always precedes its children, so a single forward walk
    /// updates parents strictly before children.
    pub open spec fn indices_ok(self, index: int) -> bool {
        match self.parent {
            Some(p) => p < index,
            None => true,
        }
    }

    /// All setup-pose components lie in the fixed-point range.
    pub open spec fn values_ok(self) -> bool {
        &&& fp_in_range(self.x as int)
        &&& fp_in_range(self.y as int)
        &&& fp_in_range(self.rotation as int)
        &&& fp_in_range(self.scale_x as int)
        &&& fp_in_range(self.scale_y as int)
        &&& fp_in_range(self.shear_x as int)
        &&& fp_in_range(self.shear_y as int)
    }
}

/// The immutable definition of one slot; slot order is draw order.  The
/// dark color feeds two-color tint blending and is handed to the consumer
/// unmodified.
#[derive(Clone, Debug)]
pub struct SlotData {
    pub name: String,
    pub bone: usize,
    pub attachment_name: Option<String>,
    pub blend_mode: BlendMode,
    pub color: Color,
    pub dark_color: Color,
}

/// One attachment a skin places on a slot, under a lookup name.
#[derive(Clone, Debug)]
pub struct SkinEntry {
    pub slot: usize,
    pub name: String,
    pub attachment: Attachment,
}

/// A named remapping of which attachment each slot carries.
#[derive(Clone, Debug)]
pub struct Skin {
    pub name: String,
    pub entries: Vec<SkinEntry>,
}

/// Index references inside a mesh point at declared bones.
pub open spec fn mesh_indices_ok(m: MeshAttachment, n_bones: int) -> bool {
    forall|v: int, k: int|
        0 <= v < m.vertices@.len() && 0 <= k < m.vertices@[v].influences@.len()
            ==> (#[trigger] m.vertices@[v].influences@[k]).bone < n_bones
}

/// Mesh geometry is internally consistent: triangle corners reference
/// declared vertices, texture coordinates pair up with vertices, and every
/// coordinate and weight lies in the fixed-point range.
pub open spec fn mesh_geometry_ok(m: MeshAttachment) -> bool {
    &&& m.uvs@.len() == m.vertices@.len()
    &&& forall|k: int|
        0 <= k < m.triangles@.len() ==> (#[trigger] m.triangles@[k]) < m.vertices@.len()
    &&& forall|v: int|
        0 <= v < m.vertices@.len() ==> (#[trigger] m.vertices@[v]).position.in_range()
    &&& forall|v: int| 0 <= v < m.uvs@.len() ==> (#[trigger] m.uvs@[v]).in_range()
    &&& forall|v: int, k: int|
        0 <= v < m.vertices@.len() && 0 <= k < m.vertices@[v].influences@.len() ==> {
            let inf = #[trigger] m.vertices@[v].influences@[k];
            fp_in_range(inf.x as int) && fp_in_range(inf.y as int) && fp_in_range(
                inf.weight as int,
            )
        }
}

/// Index references inside an attachment point at declared bones.
pub open spec fn attachment_indices_ok(a: Attachment, n_bones: int) -> bool {
    match a.data {
        AttachmentData::Mesh(m) => mesh_indices_ok(m, n_bones),
        _ => true,
    }
}

/// The geometry of an attachment is internally consistent and in range.
pub open spec fn attachment_geometry_ok(a: Attachment) -> bool {
    match a.data {
        AttachmentData::Region(r) => {
            &&& fp_in_range(r.x as int)
            &&& fp_in_range(r.y as int)
            &&& fp_in_range(r.rotation as int)
            &&& fp_in_range(r.scale_x as int)
            &&& fp_in_range(r.scale_y as int)
            &&& fp_in_range(r.width as int)
            &&& fp_in_range(r.height as int)
        },
        AttachmentData::Mesh(m) => mesh_geometry_ok(m),
        AttachmentData::BoundingBox(b) => forall|k: int|
            0 <= k < b.points@.len() ==> (#[trigger] b.points@[k]).in_range(),
        AttachmentData::Path(p) => forall|k: int|
            0 <= k < p.points@.len() ==> (#[trigger] p.points@[k]).in_range(),
        AttachmentData::Point(p) => {
            &&& fp_in_range(p.x as int)
            &&& fp_in_range(p.y as int)
            &&& fp_in_range(p.rotation as int)
        },
        AttachmentData::Clipping(c) => forall|k: int|
            0 <= k < c.points@.len() ==> (#[trigger] c.points@[k]).in_range(),
    }
}

/// Why a definition table was rejected at load.
#[derive(Clone, Copy, PartialEq, Eq, Structural, Debug)]
pub enum SkeletonError {
    /// A name lookup found no match.
    NotFound,
    /// A cross-reference index points outside its table, or a parent does
    /// not precede its child.
    InvalidIndex,
    /// Geometry is internally inconsistent or out of numeric range.
    MalformedGeometry,
}

/// The immutable, shareable definition a skeleton instance reads.
#[derive(Clone, Debug)]
pub struct SkeletonData {
    pub bones: Vec<BoneData>,
    pub slots: Vec<SlotData>,
    pub skins: Vec<Skin>,
    pub animations: Vec<Animation>,
    pub events: Vec<EventData>,
}

impl SkeletonData {
    /// Every cross-reference index lands inside its table and parents
    /// precede children.
    pub open spec fn indices_ok(self) -> bool {
        &&& forall|i: int|
            0 <= i < self.bones@.len() ==> (#[trigger] self.bones@[i]).indices_ok(i)
        &&& forall|i: int|
            0 <= i < self.slots@.len() ==> (#[trigger] self.slots@[i]).bone < self.bones@.len()
        &&& forall|s: int, e: int|
            0 <= s < self.skins@.len() && 0 <= e < self.skins@[s].entries@.len() ==> {
                let entry = #[trigger] self.skins@[s].entries@[e];
                entry.slot < self.slots@.len() && attachment_indices_ok(
                    entry.attachment,
                    self.bones@.len() as int,
                )
            }
        &&& forall|a: int, t: int|
            0 <= a < self.animations@.len() && 0 <= t < self.animations@[a].timelines@.len()
                ==> timeline_target_ok(
                #[trigger] self.animations@[a].timelines@[t],
                self.bones@.len() as int,
            )
        &&& forall|a: int, k: int|
            0 <= a < self.animations@.len() && 0 <= k < self.animations@[a].event_keys@.len()
                ==> (#[trigger] self.animations@[a].event_keys@[k]).event
                < self.events@.len()
    }

    /// All geometry and keyframe data is internally consistent: setup poses
    /// and attachment geometry in range, keyframes present and sorted,
    /// event keys sorted and within their animation's duration.
    pub open spec fn geometry_ok(self) -> bool {
        &&& forall|i: int| 0 <= i < self.bones@.len() ==> (#[trigger] self.bones@[i]).values_ok()
        &&& forall|s: int, e: int|
            0 <= s < self.skins@.len() && 0 <= e < self.skins@[s].entries@.len()
                ==> attachment_geometry_ok(
                (#[trigger] self.skins@[s].entries@[e]).attachment,
            )
        &&& forall|a: int, t: int|
            0 <= a < self.animations@.len() && 0 <= t < self.animations@[a].timelines@.len()
                ==> timeline_frames_ok(#[trigger] self.animations@[a].timelines@[t])
        &&& forall|a: int|
            0 <= a < self.animations@.len() ==> animation_keys_ok(#[trigger] self.animations@[a])
    }

    /// A well-formed definition: validated indices and geometry.
    pub open spec fn wf(self) -> bool {
        self.indices_ok() && self.geometry_ok()
    }

    /// Builds a definition from its tables, validating every
    /// cross-reference and every geometric range exactly once.
    pub fn new(
        bones: Vec<BoneData>,
        slots: Vec<SlotData>,
        skins: Vec<Skin>,
        animations: Vec<Animation>,
        events: Vec<EventData>,
    ) -> (r: Result<SkeletonData, SkeletonError>)
        ensures
            ({
                let d = SkeletonData { bones, slots, skins, animations, events };
                &&& r is Ok <==> d.wf()
                &&& r is Ok ==> r->Ok_0 == d
                &&& r == Result::<SkeletonData, SkeletonError>::Err(SkeletonError::InvalidIndex)
                    <==> !d.indices_ok()
                &&& r == Result::<SkeletonData, SkeletonError>::Err(
                    SkeletonError::MalformedGeometry,
                ) <==> d.indices_ok() && !d.geometry_ok()
            }),
    {
        let d = SkeletonData { bones, slots, skins, animations, events };
        if !d.check_indices() {
            Err(SkeletonError::InvalidIndex)
        } else if !d.check_geometry() {
            Err(SkeletonError::MalformedGeometry)
        } else {
            Ok(d)
        }
    }

    /// Searches the animation table for a name; the sole fallible lookup on
    /// the hot path.
    pub fn find_animation(&self, name: &str) -> (r: Option<usize>)
        ensures
            match r {
                Some(i) => i < self.animations@.len() && self.animations@[i as int].name@
                    == name@,
                None => forall|i: int|
                    0 <= i < self.animations@.len()
                        ==> (#[trigger] self.animations@[i]).name@ != name@,
            },
    {
        let goal: String = name.to_owned();
        let mut i: usize = 0;
        while i < self.animations.len()
            invariant
                goal@ == name@,
                0 <= i <= self.animations@.len(),
                forall|j: int|
                    0 <= j < i ==> (#[trigger] self.animations@[j]).name@ != name@,
            decreases self.animations@.len() - i,
        {
            if self.animations[i].name == goal {
                return Some(i);
            }
            i = i + 1;
        }
        None
    }

    fn check_indices(&self) -> (r: bool)
        ensures
            r == self.indices_ok(),
    {
        let nb = self.bones.len();
        let mut i: usize = 0;
        while i < self.bones.len()
            invariant
                0 <= i <= self.bones@.len(),
                forall|j: int| 0 <= j < i ==> (#[trigger] self.bones@[j]).indices_ok(j),
            decreases self.bones@.len() - i,
        {
            match self.bones[i].parent {
                Some(p) => {
                    if p >= i {
                        return false;
                    }
                },
                None => {},
            }
            i = i + 1;
        }
        let mut s: usize = 0;
        while s < self.slots.len()
            invariant
                0 <= s <= self.slots@.len(),
                nb == self.bones@.len(),
                forall|j: int| 0 <= j < s ==> (#[trigger] self.slots@[j]).bone < nb,
            decreases self.slots@.len() - s,
        {
            if self.slots[s].bone >= nb {
                return false;
            }
            s = s + 1;
        }
        let mut sk: usize = 0;
        while sk < self.skins.len()
            invariant
                0 <= sk <= self.skins@.len(),
                nb == self.bones@.len(),
                forall|j: int, e: int|
                    0 <= j < sk && 0 <= e < self.skins@[j].entries@.len() ==> {
                        let entry = #[trigger] self.skins@[j].entries@[e];
                        entry.slot < self.slots@.len() && attachment_indices_ok(
                            entry.attachment,
                            nb as int,
                        )
                    },
            decreases self.skins@.len() - sk,
        {
            let entries = &self.skins[sk].entries;
            let mut e: usize = 0;
            while e < entries.len()
                invariant
                    0 <= e <= entries@.len(),
                    nb == self.bones@.len(),
                    entries@ == self.skins@[sk as int].entries@,
                    sk < self.skins@.len(),
                    forall|k: int|
                        0 <= k < e ==> {
                            let entry = #[trigger] entries@[k];
                            entry.slot < self.slots@.len() && attachment_indices_ok(
                                entry.attachment,
                                nb as int,
                            )
                        },
                decreases entries@.len() - e,
            {
                if entries[e].slot >= self.slots.len() {
                    return false;
                }
                match &entries[e].attachment.data {
                    AttachmentData::Mesh(m) => {
                        if !check_mesh_indices(m, nb) {
                            return false;
                        }
                    },
                    _ => {},
                }
                e = e + 1;
            }
            sk = sk + 1;
        }
        let mut a: usize = 0;
        while a < self.animations.len()
            invariant
                0 <= a <= self.animations@.len(),
                nb == self.bones@.len(),
                forall|j: int, t: int|
                    0 <= j < a && 0 <= t < self.animations@[j].timelines@.len()
                        ==> timeline_target_ok(
                        #[trigger] self.animations@[j].timelines@[t],
                        nb as int,
                    ),
                forall|j: int, k: int|
                    0 <= j < a && 0 <= k < self.animations@[j].event_keys@.len()
                        ==> (#[trigger] self.animations@[j].event_keys@[k]).event
                        < self.events@.len(),
            decreases self.animations@.len() - a,
        {
            let anim = &self.animations[a];
            let mut t: usize = 0;
            while t < anim.timelines.len()
                invariant
                    0 <= t <= anim.timelines@.len(),
                    nb == self.bones@.len(),
                    anim.timelines@ == self.animations@[a as int].timelines@,
                    a < self.animations@.len(),
                    forall|k: int|
                        0 <= k < t ==> timeline_target_ok(
                            #[trigger] anim.timelines@[k],
                            nb as int,
                        ),
                decreases anim.timelines@.len() - t,
            {
                let bone = timeline_bone(&anim.timelines[t]);
                if bone >= nb {
                    return false;
                }
                t = t + 1;
            }
            let mut k: usize = 0;
            while k < anim.event_keys.len()
                invariant
                    0 <= k <= anim.event_keys@.len(),
                    anim.event_keys@ == self.animations@[a as int].event_keys@,
                    a < self.animations@.len(),
                    forall|j: int|
                        0 <= j < k ==> (#[trigger] anim.event_keys@[j]).event
                            < self.events@.len(),
                decreases anim.event_keys@.len() - k,
            {
                if anim.event_keys[k].event >= self.events.len() {
                    return false;
                }
                k = k + 1;
            }
            a = a + 1;
        }
        true
    }

    fn check_geometry(&self) -> (r: bool)
        ensures
            r == self.geometry_ok(),
    {
        let mut i: usize = 0;
        while i < self.bones.len()
            invariant
                0 <= i <= self.bones@.len(),
                forall|j: int| 0 <= j < i ==> (#[trigger] self.bones@[j]).values_ok(),
            decreases self.bones@.len() - i,
        {
            if !check_bone_values(&self.bones[i]) {
                return false;
            }
            i = i + 1;
        }
        let mut sk: usize = 0;
        while sk < self.skins.len()
            invariant
                0 <= sk <= self.skins@.len(),
                forall|j: int, e: int|
                    0 <= j < sk && 0 <= e < self.skins@[j].entries@.len()
                        ==> attachment_geometry_ok(
                        (#[trigger] self.skins@[j].entries@[e]).attachment,
                    ),
            decreases self.skins@.len() - sk,
        {
            let entries = &self.skins[sk].entries;
            let mut e: usize = 0;
            while e < entries.len()
                invariant
                    0 <= e <= entries@.len(),
                    entries@ == self.skins@[sk as int].entries@,
                    sk < self.skins@.len(),
                    forall|k: int|
                        0 <= k < e ==> attachment_geometry_ok(
                            (#[trigger] entries@[k]).attachment,
                        ),
                decreases entries@.len() - e,
            {
                if !check_attachment_geometry(&entries[e].attachment) {
                    return false;
                }
                e = e + 1;
            }
            sk = sk + 1;
        }
        let mut a: usize = 0;
        while a < self.animations.len()
            invariant
                0 <= a <= self.animations@.len(),
                forall|j: int, t: int|
                    0 <= j < a && 0 <= t < self.animations@[j].timelines@.len()
                        ==> timeline_frames_ok(#[trigger] self.animations@[j].timelines@[t]),
                forall|j: int|
                    0 <= j < a ==> animation_keys_ok(#[trigger] self.animations@[j]),
            decreases self.animations@.len() - a,
        {
            let anim = &self.animations[a];
            let mut t: usize = 0;
            while t < anim.timelines.len()
                invariant
                    0 <= t <= anim.timelines@.len(),
                    anim.timelines@ == self.animations@[a as int].timelines@,
                    a < self.animations@.len(),
                    forall|k: int|
                        0 <= k < t ==> timeline_frames_ok(#[trigger] anim.timelines@[k]),
                decreases anim.timelines@.len() - t,
            {
                if !check_timeline_frames(&anim.timelines[t]) {
                    return false;
                }
                t = t + 1;
            }
            if !check_animation_keys(anim) {
                return false;
            }
            a = a + 1;
        }
        true
    }
}

/// The bone index a timeline writes to.
pub open spec fn timeline_bone_spec(tl: Timeline) -> int {
    match tl.target {
        TimelineTarget::X(b) => b as int,
        TimelineTarget::Y(b) => b as int,
        TimelineTarget::Rotation(b) => b as int,
        TimelineTarget::ScaleX(b) => b as int,
        TimelineTarget::ScaleY(b) => b as int,
    }
}

/// A timeline's target points at a declared bone.
pub open spec fn timeline_target_ok(tl: Timeline, n_bones: int) -> bool {
    timeline_bone_spec(tl) < n_bones
}

/// A timeline has at least one keyframe, sorted times, and in-range values.
pub open spec fn timeline_frames_ok(tl: Timeline) -> bool {
    &&& tl.frames@.len() > 0
    &&& frames_sorted(tl.frames@)
    &&& frames_in_range(tl.frames@)
}

/// Event keys fire in chronological order, within the duration.
pub open spec fn animation_keys_ok(a: Animation) -> bool {
    &&& keys_sorted(a.event_keys@)
    &&& forall|k: int|
        0 <= k < a.event_keys@.len() ==> (#[trigger] a.event_keys@[k]).time <= a.duration
}

/// The bone index a timeline writes to.
pub fn timeline_bone(tl: &Timeline) -> (b: usize)
    ensures
        b == timeline_bone_spec(*tl),
{
    match tl.target {
        TimelineTarget::X(b) => b,
        TimelineTarget::Y(b) => b,
        TimelineTarget::Rotation(b) => b,
        TimelineTarget::ScaleX(b) => b,
        TimelineTarget::ScaleY(b) => b,
    }
}

fn check_bone_values(b: &BoneData) -> (r: bool)
    ensures
        r == b.values_ok(),
{
    in_fp_range(b.x) && in_fp_range(b.y) && in_fp_range(b.rotation) && in_fp_range(b.scale_x)
        && in_fp_range(b.scale_y) && in_fp_range(b.shear_x) && in_fp_range(b.shear_y)
}

fn in_fp_range(v: i64) -> (r: bool)
    ensures
        r == fp_in_range(v as int),
{
    -crate::fixed::FP_MAX <= v && v <= crate::fixed::FP_MAX
}

fn check_mesh_indices(m: &MeshAttachment, n_bones: usize) -> (r: bool)
    ensures
        r == mesh_indices_ok(*m, n_bones as int),
{
    let mut v: usize = 0;
    while v < m.vertices.len()
        invariant
            0 <= v <= m.vertices@.len(),
            forall|j: int, k: int|
                0 <= j < v && 0 <= k < m.vertices@[j].influences@.len()
                    ==> (#[trigger] m.vertices@[j].influences@[k]).bone < n_bones,
        decreases m.vertices@.len() - v,
    {
        let infs = &m.vertices[v].influences;
        let mut k: usize = 0;
        while k < infs.len()
            invariant
                0 <= k <= infs@.len(),
                infs@ == m.vertices@[v as int].influences@,
                v < m.vertices@.len(),
                forall|j: int| 0 <= j < k ==> (#[trigger] infs@[j]).bone < n_bones,
            decreases infs@.len() - k,
        {
            if infs[k].bone >= n_bones {
                return false;
            }
            k = k + 1;
        }
        v = v + 1;
    }
    true
}

fn check_mesh_geometry(m: &MeshAttachment) -> (r: bool)
    ensures
        r == mesh_geometry_ok(*m),
{
    if m.uvs.len() != m.vertices.len() {
        return false;
    }
    let mut u: usize = 0;
    while u < m.uvs.len()
        invariant
            0 <= u <= m.uvs@.len(),
            forall|j: int| 0 <= j < u ==> (#[trigger] m.uvs@[j]).in_range(),
        decreases m.uvs@.len() - u,
    {
        if !in_fp_range(m.uvs[u].x) || !in_fp_range(m.uvs[u].y) {
            return false;
        }
        u = u + 1;
    }
    let mut k: usize = 0;
    while k < m.triangles.len()
        invariant
            0 <= k <= m.triangles@.len(),
            forall|j: int| 0 <= j < k ==> (#[trigger] m.triangles@[j]) < m.vertices@.len(),
        decreases m.triangles@.len() - k,
    {
        if m.triangles[k] as usize >= m.vertices.len() {
            return false;
        }
        k = k + 1;
    }
    let mut v: usize = 0;
    while v < m.vertices.len()
        invariant
            0 <= v <= m.vertices@.len(),
            forall|j: int| 0 <= j < v ==> (#[trigger] m.vertices@[j]).position.in_range(),
            forall|j: int, i: int|
                0 <= j < v && 0 <= i < m.vertices@[j].influences@.len() ==> {
                    let inf = #[trigger] m.vertices@[j].influences@[i];
                    fp_in_range(inf.x as int) && fp_in_range(inf.y as int) && fp_in_range(
                        inf.weight as int,
                    )
                },
        decreases m.vertices@.len() - v,
    {
        let vert = &m.vertices[v];
        if !in_fp_range(vert.position.x) || !in_fp_range(vert.position.y) {
            return false;
        }
        let mut i: usize = 0;
        while i < vert.influences.len()
            invariant
                0 <= i <= vert.influences@.len(),
                vert.influences@ == m.vertices@[v as int].influences@,
                v < m.vertices@.len(),
                forall|j: int|
                    0 <= j < i ==> {
                        let inf = #[trigger] vert.influences@[j];
                        fp_in_range(inf.x as int) && fp_in_range(inf.y as int) && fp_in_range(
                            inf.weight as int,
                        )
                    },
            decreases vert.influences@.len() - i,
        {
            let inf = &vert.influences[i];
            if !in_fp_range(inf.x) || !in_fp_range(inf.y) || !in_fp_range(inf.weight) {
                return false;
            }
            i = i + 1;
        }
        v = v + 1;
    }
    true
}

fn check_points_in_range(points: &Vec<crate::attachment::Vertex2>) -> (r: bool)
    ensures
        r == forall|k: int| 0 <= k < points@.len() ==> (#[trigger] points@[k]).in_range(),
{
    let mut k: usize = 0;
    while k < points.len()
        invariant
            0 <= k <= points@.len(),
            forall|j: int| 0 <= j < k ==> (#[trigger] points@[j]).in_range(),
        decreases points@.len() - k,
    {
        if !in_fp_range(points[k].x) || !in_fp_range(points[k].y) {
            return false;
        }
        k = k + 1;
    }
    true
}

fn check_attachment_geometry(a: &Attachment) -> (r: bool)
    ensures
        r == attachment_geometry_ok(*a),
{
    match &a.data {
        AttachmentData::Region(rg) => in_fp_range(rg.x) && in_fp_range(rg.y) && in_fp_range(
            rg.rotation,
        ) && in_fp_range(rg.scale_x) && in_fp_range(rg.scale_y) && in_fp_range(rg.width)
            && in_fp_range(rg.height),
        AttachmentData::Mesh(m) => check_mesh_geometry(m),
        AttachmentData::BoundingBox(b) => check_points_in_range(&b.points),
        AttachmentData::Path(p) => check_points_in_range(&p.points),
        AttachmentData::Point(p) => in_fp_range(p.x) && in_fp_range(p.y) && in_fp_range(
            p.rotation,
        ),
        AttachmentData::Clipping(c) => check_points_in_range(&c.points),
    }
}

fn check_timeline_frames(tl: &Timeline) -> (r: bool)
    ensures
        r == timeline_frames_ok(*tl),
{
    if tl.frames.len() == 0 {
        return false;
    }
    let mut i: usize = 0;
    while i < tl.frames.len()
        invariant
            0 <= i <= tl.frames@.len(),
            forall|j: int| 0 <= j < i ==> fp_in_range(#[trigger] tl.frames@[j].value as int),
            forall|j: int| 0 < j < i ==> tl.frames@[j - 1].time <= #[trigger] tl.frames@[j].time,
        decreases tl.frames@.len() - i,
    {
        if !in_fp_range(tl.frames[i].value) {
            assert(!frames_in_range(tl.frames@));
            return false;
        }
        if i > 0 && tl.frames[i - 1].time > tl.frames[i].time {
            assert(!frames_sorted(tl.frames@));
            return false;
        }
        i = i + 1;
    }
    proof {
        lemma_adjacent_implies_sorted(tl.frames@);
    }
    true
}

fn check_animation_keys(a: &Animation) -> (r: bool)
    ensures
        r == animation_keys_ok(*a),
{
    let mut k: usize = 0;
    while k < a.event_keys.len()
        invariant
            0 <= k <= a.event_keys@.len(),
            forall|j: int|
                0 <= j < k ==> (#[trigger] a.event_keys@[j]).time <= a.duration,
            forall|j: int|
                0 < j < k ==> a.event_keys@[j - 1].time <= #[trigger] a.event_keys@[j].time,
        decreases a.event_keys@.len() - k,
    {
        if a.event_keys[k].time > a.duration {
            return false;
        }
        if k > 0 && a.event_keys[k - 1].time > a.event_keys[k].time {
            return false;
        }
        k = k + 1;
    }
    true
}

/// Adjacent ordering of keyframes extends to every pair of indices.
proof fn lemma_adjacent_implies_sorted(frames: Seq<crate::animation::Keyframe>)
    requires
        forall|j: int| 0 < j < frames.len() ==> frames[j - 1].time <= #[trigger] frames[j].time,
    ensures
        frames_sorted(frames),
{
    assert forall|i: int, j: int| 0 <= i <= j < frames.len() implies #[trigger] frames[i].time
        <= #[trigger] frames[j].time by {
        lemma_sorted_pair(frames, i, j);
    }
}

proof fn lemma_sorted_pair(frames: Seq<crate::animation::Keyframe>, i: int, j: int)
    requires
        forall|k: int| 0 < k < frames.len() ==> frames[k - 1].time <= #[trigger] frames[k].time,
        0 <= i <= j < frames.len(),
    ensures
        frames[i].time <= frames[j].time,
    decreases j - i,
{
    if i < j {
        lemma_sorted_pair(frames, i, j - 1);
        assert(frames[j - 1].time <= frames[j].time);
    }
}

} // verus!
