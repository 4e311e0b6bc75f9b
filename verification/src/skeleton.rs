//! Live skeleton instances: per-bone local and world transforms, per-slot
//! attachment state, and the top-down world-transform propagation pass.
//!
//! `update_world_transform` is proved equal to the pure spec function
//! `world_spec`, so the produced matrices are a function of the definition
//! tables and the current local transforms alone.

use vstd::prelude::*;
use crate::attachment::Color;
use crate::fixed::{
    add_mdeg, cos_mdeg, cos_mdeg_spec, fp_add, fp_add_spec, fp_in_range, fp_mul, fp_mul_spec,
    norm_mdeg, norm_mdeg_spec, sin_mdeg, sin_mdeg_spec, FP_ONE, QUARTER_TURN_MDEG,
    TURN_MDEG,
};
use crate::skeleton_data::SkeletonData;

verus! {

/// A bone's mutable local transform: position and scale in fixed point,
/// rotation and shear in millidegrees.
#[derive(Clone, Copy, PartialEq, Eq, Structural, Debug)]
pub struct LocalTransform {
    pub x: i64,
    pub y: i64,
    pub rotation: i64,
    pub scale_x: i64,
    pub scale_y: i64,
    pub shear_x: i64,
    pub shear_y: i64,
}

impl LocalTransform {
    /// All components lie in the fixed-point range.
    pub open spec fn in_range(self) -> bool {
        &&& fp_in_range(self.x as int)
        &&& fp_in_range(self.y as int)
        &&& fp_in_range(self.rotation as int)
        &&& fp_in_range(self.scale_x as int)
        &&& fp_in_range(self.scale_y as int)
        &&& fp_in_range(self.shear_x as int)
        &&& fp_in_range(self.shear_y as int)
    }
}

/// A bone's computed world transform: the 2x3 affine matrix, plus the
/// accumulated rotation and scale records used when a child suppresses
/// inheritance of one component.
#[derive(Clone, Copy, PartialEq, Eq, Structural, Debug)]
pub struct WorldTransform {
    pub a: i64,
    pub b: i64,
    pub c: i64,
    pub d: i64,
    pub tx: i64,
    pub ty: i64,
    pub rot: u32,
    pub sx: i64,
    pub sy: i64,
}

impl WorldTransform {
    /// All entries in range, rotation record normalized.
    pub open spec fn in_range(self) -> bool {
        &&& fp_in_range(self.a as int)
        &&& fp_in_range(self.b as int)
        &&& fp_in_range(self.c as int)
        &&& fp_in_range(self.d as int)
        &&& fp_in_range(self.tx as int)
        &&& fp_in_range(self.ty as int)
        &&& self.rot < TURN_MDEG
        &&& fp_in_range(self.sx as int)
        &&& fp_in_range(self.sy as int)
    }
}

/// The identity world transform: the root's implicit parent.
pub open spec fn identity_world() -> WorldTransform {
    WorldTransform {
        a: FP_ONE,
        b: 0,
        c: 0,
        d: FP_ONE,
        tx: 0,
        ty: 0,
        rot: 0,
        sx: FP_ONE,
        sy: FP_ONE,
    }
}

/// The world transform of a bone with local transform `l` under the parent
/// world `pw`, honoring the inheritance flags: a cleared flag drops that
/// component of the parent's basis before composing.
pub open spec fn compose_spec(
    pw: WorldTransform,
    l: LocalTransform,
    inherit_rotation: bool,
    inherit_scale: bool,
) -> WorldTransform {
    let basis = basis_spec(pw, inherit_rotation, inherit_scale);
    let rot_x = norm_mdeg_spec(l.rotation + l.shear_x);
    let rot_y = norm_mdeg_spec(l.rotation + QUARTER_TURN_MDEG + l.shear_y);
    let la = fp_mul_spec(cos_mdeg_spec(rot_x), l.scale_x as int);
    let lc = fp_mul_spec(sin_mdeg_spec(rot_x), l.scale_x as int);
    let lb = fp_mul_spec(cos_mdeg_spec(rot_y), l.scale_y as int);
    let ld = fp_mul_spec(sin_mdeg_spec(rot_y), l.scale_y as int);
    WorldTransform {
        a: fp_add_spec(fp_mul_spec(basis.a as int, la), fp_mul_spec(basis.b as int, lc)) as i64,
        b: fp_add_spec(fp_mul_spec(basis.a as int, lb), fp_mul_spec(basis.b as int, ld)) as i64,
        c: fp_add_spec(fp_mul_spec(basis.c as int, la), fp_mul_spec(basis.d as int, lc)) as i64,
        d: fp_add_spec(fp_mul_spec(basis.c as int, lb), fp_mul_spec(basis.d as int, ld)) as i64,
        tx: fp_add_spec(
            fp_add_spec(
                fp_mul_spec(basis.a as int, l.x as int),
                fp_mul_spec(basis.b as int, l.y as int),
            ),
            pw.tx as int,
        ) as i64,
        ty: fp_add_spec(
            fp_add_spec(
                fp_mul_spec(basis.c as int, l.x as int),
                fp_mul_spec(basis.d as int, l.y as int),
            ),
            pw.ty as int,
        ) as i64,
        rot: (if inherit_rotation {
            (pw.rot + norm_mdeg_spec(l.rotation as int)) % (TURN_MDEG as int)
        } else {
            norm_mdeg_spec(l.rotation as int)
        }) as u32,
        sx: (if inherit_scale {
            fp_mul_spec(pw.sx as int, l.scale_x as int)
        } else {
            l.scale_x as int
        }) as i64,
        sy: (if inherit_scale {
            fp_mul_spec(pw.sy as int, l.scale_y as int)
        } else {
            l.scale_y as int
        }) as i64,
    }
}

/// The linear part of the parent a child actually inherits: the full basis,
/// a pure-rotation basis, a pure-scale basis, or the identity.
pub open spec fn basis_spec(
    pw: WorldTransform,
    inherit_rotation: bool,
    inherit_scale: bool,
) -> WorldTransform {
    if inherit_rotation && inherit_scale {
        pw
    } else if inherit_rotation {
        WorldTransform {
            a: cos_mdeg_spec(pw.rot as int) as i64,
            b: (-sin_mdeg_spec(pw.rot as int)) as i64,
            c: sin_mdeg_spec(pw.rot as int) as i64,
            d: cos_mdeg_spec(pw.rot as int) as i64,
            ..pw
        }
    } else if inherit_scale {
        WorldTransform { a: pw.sx, b: 0, c: 0, d: pw.sy, ..pw }
    } else {
        WorldTransform { a: FP_ONE, b: 0, c: 0, d: FP_ONE, ..pw }
    }
}

/// The world transform of bone `i`: its local transform composed onto its
/// parent's world transform, the identity at a root.  Parents precede
/// children, so the recursion descends along strictly smaller indices.
pub open spec fn world_spec(data: SkeletonData, locals: Seq<LocalTransform>, i: int) -> WorldTransform
    recommends
        data.wf(),
        locals.len() == data.bones@.len(),
        0 <= i < locals.len(),
    decreases i,
{
    let bd = data.bones@[i];
    match bd.parent {
        None => compose_spec(identity_world(), locals[i], true, true),
        Some(p) => if p < i {
            compose_spec(
                world_spec(data, locals, p as int),
                locals[i],
                bd.inherit_rotation,
                bd.inherit_scale,
            )
        } else {
            identity_world()
        },
    }
}

/// World transforms are a pure function of the definition tables and the
/// local transforms: two skeletons that agree on both produce identical
/// matrices, with no hidden time or traversal-order dependence.
pub proof fn lemma_world_transform_deterministic(
    d1: SkeletonData,
    d2: SkeletonData,
    l1: Seq<LocalTransform>,
    l2: Seq<LocalTransform>,
    i: int,
)
    requires
        d1 == d2,
        l1 == l2,
    ensures
        world_spec(d1, l1, i) == world_spec(d2, l2, i),
{
}

/// A live bone: the current local transform and the world transform of the
/// last propagation pass.
#[derive(Clone, Copy, PartialEq, Eq, Structural, Debug)]
pub struct Bone {
    pub local: LocalTransform,
    pub world: WorldTransform,
}

/// Which skin entry a slot currently shows.
#[derive(Clone, Copy, PartialEq, Eq, Structural, Debug)]
pub struct AttachmentRef {
    pub skin: usize,
    pub entry: usize,
}

/// A live slot: its active attachment (an index into the definition's skin
/// tables, so geometry is shared, never copied) and its current tint.
#[derive(Clone, Copy, PartialEq, Eq, Structural, Debug)]
pub struct Slot {
    pub attachment: Option<AttachmentRef>,
    pub color: Color,
    pub dark_color: Color,
}

/// A live skeleton instance over an immutable definition.
#[derive(Clone, Debug)]
pub struct Skeleton {
    pub data: SkeletonData,
    pub bones: Vec<Bone>,
    pub slots: Vec<Slot>,
    pub skin: usize,
}

/// The setup-pose local transform of a bone.
pub open spec fn setup_local_spec(data: SkeletonData, i: int) -> LocalTransform {
    let bd = data.bones@[i];
    LocalTransform {
        x: bd.x,
        y: bd.y,
        rotation: bd.rotation,
        scale_x: bd.scale_x,
        scale_y: bd.scale_y,
        shear_x: bd.shear_x,
        shear_y: bd.shear_y,
    }
}

/// The sequence of current bone local transforms.
pub open spec fn locals_of(bones: Seq<Bone>) -> Seq<LocalTransform> {
    bones.map_values(|b: Bone| b.local)
}

/// A live slot's attachment is the resolution of its setup attachment
/// name against skin `skin`: present if and only if the slot names an
/// attachment and the skin has an entry of that name for the slot, and
/// then it points at exactly such an entry.
pub open spec fn slot_resolved(data: SkeletonData, slot_states: Seq<Slot>, skin: int, j: int) -> bool {
    &&& (slot_states[j].attachment is Some <==> (data.slots@[j].attachment_name is Some
        && skin < data.skins@.len() && skin_has_entry(
        data,
        skin,
        j,
        data.slots@[j].attachment_name->Some_0@,
    )))
    &&& match slot_states[j].attachment {
        Some(ar) => {
            &&& ar.skin == skin
            &&& ar.entry < data.skins@[skin].entries@.len()
            &&& data.skins@[skin].entries@[ar.entry as int].slot == j
            &&& data.skins@[skin].entries@[ar.entry as int].name@
                == data.slots@[j].attachment_name->Some_0@
        },
        None => true,
    }
}

impl Skeleton {
    /// Structural well-formedness of a live instance: validated definition,
    /// live tables sized to match it, and every live value in range.
    pub open spec fn wf(self) -> bool {
        &&& self.data.wf()
        &&& self.bones@.len() == self.data.bones@.len()
        &&& self.slots@.len() == self.data.slots@.len()
        &&& forall|i: int|
            0 <= i < self.bones@.len() ==> (#[trigger] self.bones@[i]).local.in_range()
        &&& forall|i: int|
            0 <= i < self.bones@.len() ==> (#[trigger] self.bones@[i]).world.in_range()
        &&& forall|i: int|
            0 <= i < self.slots@.len() ==> match (#[trigger] self.slots@[i]).attachment {
                Some(r) => r.skin < self.data.skins@.len() && r.entry
                    < self.data.skins@[r.skin as int].entries@.len(),
                None => true,
            }
    }

    /// Builds a live instance in setup pose and propagates an initial
    /// world-transform pass.
    pub fn new(data: SkeletonData) -> (s: Skeleton)
        requires
            data.wf(),
        ensures
            s.wf(),
            s.data == data,
            s.skin == 0,
            locals_of(s.bones@) =~= Seq::new(
                data.bones@.len(),
                |i: int| setup_local_spec(data, i),
            ),
            forall|i: int|
                0 <= i < s.bones@.len() ==> (#[trigger] s.bones@[i]).world == world_spec(
                    s.data,
                    locals_of(s.bones@),
                    i,
                ),
            s.slots@.len() == data.slots@.len(),
            forall|j: int|
                0 <= j < s.slots@.len() ==> slot_resolved(data, s.slots@, 0, j),
            forall|j: int|
                0 <= j < s.slots@.len() ==> (#[trigger] s.slots@[j]).color
                    == data.slots@[j].color && s.slots@[j].dark_color
                    == data.slots@[j].dark_color,
    {
        let n = data.bones.len();
        let mut bones: Vec<Bone> = Vec::new();
        let mut i: usize = 0;
        while i < n
            invariant
                data.wf(),
                n == data.bones@.len(),
                0 <= i <= n,
                bones@.len() == i,
                forall|j: int|
                    0 <= j < i ==> (#[trigger] bones@[j]).local == setup_local_spec(data, j),
                forall|j: int| 0 <= j < i ==> (#[trigger] bones@[j]).local.in_range(),
                forall|j: int| 0 <= j < i ==> (#[trigger] bones@[j]).world.in_range(),
            decreases n - i,
        {
            let bd = &data.bones[i];
            bones.push(
                Bone {
                    local: LocalTransform {
                        x: bd.x,
                        y: bd.y,
                        rotation: bd.rotation,
                        scale_x: bd.scale_x,
                        scale_y: bd.scale_y,
                        shear_x: bd.shear_x,
                        shear_y: bd.shear_y,
                    },
                    world: WorldTransform {
                        a: FP_ONE,
                        b: 0,
                        c: 0,
                        d: FP_ONE,
                        tx: 0,
                        ty: 0,
                        rot: 0,
                        sx: FP_ONE,
                        sy: FP_ONE,
                    },
                },
            );
            i = i + 1;
        }
        let mut slots: Vec<Slot> = Vec::new();
        let mut s: usize = 0;
        while s < data.slots.len()
            invariant
                data.wf(),
                0 <= s <= data.slots@.len(),
                slots@.len() == s,
                forall|j: int|
                    0 <= j < s ==> match (#[trigger] slots@[j]).attachment {
                        Some(r) => r.skin < data.skins@.len() && r.entry
                            < data.skins@[r.skin as int].entries@.len(),
                        None => true,
                    },
                forall|j: int| 0 <= j < s ==> slot_resolved(data, slots@, 0, j),
                forall|j: int|
                    0 <= j < s ==> (#[trigger] slots@[j]).color == data.slots@[j].color
                        && slots@[j].dark_color == data.slots@[j].dark_color,
            decreases data.slots@.len() - s,
        {
            let sd = &data.slots[s];
            let attachment: Option<AttachmentRef> = match &sd.attachment_name {
                Some(name) => find_skin_entry(&data, 0, s, name),
                None => None,
            };
            let ghost slots0 = slots@;
            slots.push(Slot { attachment, color: sd.color, dark_color: sd.dark_color });
            proof {
                assert(slot_resolved(data, slots@, 0, s as int));
                assert forall|j: int| 0 <= j < s implies slot_resolved(data, slots@, 0, j) by {
                    assert(slot_resolved(data, slots0, 0, j));
                    assert(slots@[j] == slots0[j]);
                }
            }
            s = s + 1;
        }
        let mut skeleton = Skeleton { data, bones, slots, skin: 0 };
        proof {
            assert(locals_of(skeleton.bones@) =~= Seq::new(
                skeleton.data.bones@.len(),
                |i: int| setup_local_spec(skeleton.data, i),
            ));
        }
        skeleton.update_world_transform();
        skeleton
    }

    /// Resets every bone's local transform to the setup pose; required
    /// before each mixing pass, since additive blending is defined relative
    /// to the setup pose and applying onto stale locals drifts.
    pub fn set_to_setup_pose(&mut self)
        requires
            old(self).wf(),
        ensures
            final(self).wf(),
            final(self).data == old(self).data,
            final(self).slots@ == old(self).slots@,
            final(self).skin == old(self).skin,
            final(self).bones@.len() == old(self).bones@.len(),
            forall|i: int|
                0 <= i < final(self).bones@.len() ==> (#[trigger] final(self).bones@[i]).local
                    == setup_local_spec(final(self).data, i),
            forall|i: int|
                0 <= i < final(self).bones@.len() ==> (#[trigger] final(self).bones@[i]).world
                    == old(self).bones@[i].world,
    {
        let n = self.bones.len();
        let mut i: usize = 0;
        while i < n
            invariant
                old(self).wf(),
                self.data == old(self).data,
                self.slots@ == old(self).slots@,
                self.skin == old(self).skin,
                n == self.bones@.len(),
                self.bones@.len() == old(self).bones@.len(),
                0 <= i <= n,
                forall|j: int|
                    0 <= j < i ==> (#[trigger] self.bones@[j]).local == setup_local_spec(
                        self.data,
                        j,
                    ),
                forall|j: int|
                    i <= j < n ==> (#[trigger] self.bones@[j]) == old(self).bones@[j],
                forall|j: int|
                    0 <= j < n ==> (#[trigger] self.bones@[j]).world == old(self).bones@[j].world,
                forall|j: int| 0 <= j < i ==> (#[trigger] self.bones@[j]).local.in_range(),
            decreases n - i,
        {
            let bd = &self.data.bones[i];
            let local = LocalTransform {
                x: bd.x,
                y: bd.y,
                rotation: bd.rotation,
                scale_x: bd.scale_x,
                scale_y: bd.scale_y,
                shear_x: bd.shear_x,
                shear_y: bd.shear_y,
            };
            let world = self.bones[i].world;
            self.bones.set(i, Bone { local, world });
            i = i + 1;
        }
    }

    /// One top-down propagation pass: every bone's world transform becomes
    /// `world_spec` of the definition and the current locals.  Parents are
    /// written strictly before children, so each composition reads an
    /// already-final parent world.
    pub fn update_world_transform(&mut self)
        requires
            old(self).wf(),
        ensures
            final(self).wf(),
            final(self).data == old(self).data,
            final(self).slots@ == old(self).slots@,
            final(self).skin == old(self).skin,
            final(self).bones@.len() == old(self).bones@.len(),
            forall|i: int|
                0 <= i < final(self).bones@.len() ==> (#[trigger] final(self).bones@[i]).local
                    == old(self).bones@[i].local,
            forall|i: int|
                0 <= i < final(self).bones@.len() ==> (#[trigger] final(self).bones@[i]).world
                    == world_spec(final(self).data, locals_of(final(self).bones@), i),
    {
        let ghost locals0 = locals_of(old(self).bones@);
        let n = self.bones.len();
        let mut i: usize = 0;
        while i < n
            invariant
                old(self).wf(),
                self.data == old(self).data,
                self.slots@ == old(self).slots@,
                self.skin == old(self).skin,
                n == self.bones@.len(),
                self.bones@.len() == old(self).bones@.len(),
                0 <= i <= n,
                forall|j: int|
                    0 <= j < n ==> (#[trigger] self.bones@[j]).local == old(self).bones@[j].local,
                locals_of(self.bones@) =~= locals0,
                forall|j: int|
                    0 <= j < i ==> (#[trigger] self.bones@[j]).world == world_spec(
                        self.data,
                        locals0,
                        j,
                    ),
                forall|j: int| 0 <= j < i ==> (#[trigger] self.bones@[j]).world.in_range(),
                forall|j: int|
                    i <= j < n ==> (#[trigger] self.bones@[j]).world == old(self).bones@[j].world,
            decreases n - i,
        {
            let bd = &self.data.bones[i];
            let pw: WorldTransform = match bd.parent {
                Some(p) => self.bones[p].world,
                None => WorldTransform {
                    a: FP_ONE,
                    b: 0,
                    c: 0,
                    d: FP_ONE,
                    tx: 0,
                    ty: 0,
                    rot: 0,
                    sx: FP_ONE,
                    sy: FP_ONE,
                },
            };
            let (inherit_rotation, inherit_scale) = match bd.parent {
                Some(_) => (bd.inherit_rotation, bd.inherit_scale),
                None => (true, true),
            };
            let local = self.bones[i].local;
            let world = compose(pw, local, inherit_rotation, inherit_scale);
            let bone = Bone { local, world };
            self.bones.set(i, bone);
            proof {
                assert(locals_of(self.bones@) =~= locals0);
                assert(self.bones@[i as int].world == world_spec(self.data, locals0, i as int));
            }
            i = i + 1;
        }
        proof {
            assert(locals_of(self.bones@) =~= locals0);
        }
    }

    /// Switches the active skin by name and re-resolves every slot's
    /// attachment from it; an unknown name changes nothing.  Name lookup
    /// is the sole fallible step.
    pub fn set_skin_by_name(&mut self, name: &str) -> (r: Result<usize, crate::skeleton_data::SkeletonError>)
        requires
            old(self).wf(),
        ensures
            final(self).wf(),
            final(self).data == old(self).data,
            final(self).bones@ == old(self).bones@,
            final(self).slots@.len() == old(self).slots@.len(),
            match r {
                Ok(i) => {
                    &&& i < final(self).data.skins@.len()
                    &&& final(self).data.skins@[i as int].name@ == name@
                    &&& final(self).skin == i
                    &&& forall|s: int|
                        0 <= s < final(self).slots@.len() ==> {
                            let slot = #[trigger] final(self).slots@[s];
                            &&& slot.color == old(self).slots@[s].color
                            &&& slot.dark_color == old(self).slots@[s].dark_color
                        }
                    &&& forall|s: int|
                        0 <= s < final(self).slots@.len() ==> slot_resolved(
                            final(self).data,
                            final(self).slots@,
                            i as int,
                            s,
                        )
                },
                Err(e) => {
                    &&& e == crate::skeleton_data::SkeletonError::NotFound
                    &&& final(self).slots@ == old(self).slots@
                    &&& final(self).skin == old(self).skin
                    &&& forall|i: int|
                        0 <= i < final(self).data.skins@.len()
                            ==> (#[trigger] final(self).data.skins@[i]).name@ != name@
                },
            },
    {
        let found = find_skin(&self.data, name);
        match found {
            None => Err(crate::skeleton_data::SkeletonError::NotFound),
            Some(i) => {
                self.skin = i;
                let n = self.slots.len();
                let mut s: usize = 0;
                while s < n
                    invariant
                        old(self).wf(),
                        self.data == old(self).data,
                        self.bones@ == old(self).bones@,
                        self.skin == i,
                        i < self.data.skins@.len(),
                        n == self.slots@.len(),
                        self.slots@.len() == old(self).slots@.len(),
                        0 <= s <= n,
                        forall|j: int|
                            s <= j < n ==> (#[trigger] self.slots@[j]) == old(self).slots@[j],
                        forall|j: int|
                            0 <= j < s ==> {
                                let slot = #[trigger] self.slots@[j];
                                &&& slot.color == old(self).slots@[j].color
                                &&& slot.dark_color == old(self).slots@[j].dark_color
                            },
                        forall|j: int|
                            0 <= j < s ==> slot_resolved(self.data, self.slots@, i as int, j),
                    decreases n - s,
                {
                    let attachment: Option<AttachmentRef> = match &self.data.slots[s].attachment_name {
                        Some(an) => find_skin_entry(&self.data, i, s, an),
                        None => None,
                    };
                    let old_slot = self.slots[s];
                    let ghost slots0 = self.slots@;
                    self.slots.set(
                        s,
                        Slot {
                            attachment,
                            color: old_slot.color,
                            dark_color: old_slot.dark_color,
                        },
                    );
                    proof {
                        assert(slot_resolved(self.data, self.slots@, i as int, s as int));
                        assert forall|j: int| 0 <= j < s implies slot_resolved(
                            self.data,
                            self.slots@,
                            i as int,
                            j,
                        ) by {
                            assert(slot_resolved(self.data, slots0, i as int, j));
                            assert(self.slots@[j] == slots0[j]);
                        }
                    }
                    s = s + 1;
                }
                proof {
                    assert forall|j: int| 0 <= j < self.slots@.len() implies match (
                    #[trigger] self.slots@[j]).attachment {
                        Some(r) => r.skin < self.data.skins@.len() && r.entry
                            < self.data.skins@[r.skin as int].entries@.len(),
                        None => true,
                    } by {
                        assert(slot_resolved(self.data, self.slots@, i as int, j));
                    }
                }
                Ok(i)
            },
        }
    }
}

/// Searches the skin table for a name.
pub fn find_skin(data: &SkeletonData, name: &str) -> (r: Option<usize>)
    ensures
        match r {
            Some(i) => i < data.skins@.len() && data.skins@[i as int].name@ == name@,
            None => forall|i: int|
                0 <= i < data.skins@.len() ==> (#[trigger] data.skins@[i]).name@ != name@,
        },
{
    let goal: String = name.to_owned();
    let mut i: usize = 0;
    while i < data.skins.len()
        invariant
            goal@ == name@,
            0 <= i <= data.skins@.len(),
            forall|j: int| 0 <= j < i ==> (#[trigger] data.skins@[j]).name@ != name@,
        decreases data.skins@.len() - i,
    {
        if data.skins[i].name == goal {
            return Some(i);
        }
        i = i + 1;
    }
    None
}

/// Whether a skin places an attachment of the given name on a slot.
pub open spec fn skin_has_entry(data: SkeletonData, skin: int, slot: int, name: Seq<char>) -> bool {
    exists|e: int|
        0 <= e < data.skins@[skin].entries@.len()
            && (#[trigger] data.skins@[skin].entries@[e]).slot == slot
            && data.skins@[skin].entries@[e].name@ == name
}

/// Looks up the entry of skin `skin` that places an attachment named
/// `name` on slot `slot`; found if and only if the skin has one.
pub fn find_skin_entry(data: &SkeletonData, skin: usize, slot: usize, name: &String) -> (r:
    Option<AttachmentRef>)
    ensures
        r is Some <==> skin < data.skins@.len() && skin_has_entry(
            *data,
            skin as int,
            slot as int,
            name@,
        ),
        match r {
            Some(ar) => {
                &&& ar.skin == skin
                &&& skin < data.skins@.len()
                &&& ar.entry < data.skins@[skin as int].entries@.len()
                &&& data.skins@[skin as int].entries@[ar.entry as int].slot == slot
                &&& data.skins@[skin as int].entries@[ar.entry as int].name@ == name@
            },
            None => true,
        },
{
    if skin >= data.skins.len() {
        return None;
    }
    let entries = &data.skins[skin].entries;
    let mut e: usize = 0;
    while e < entries.len()
        invariant
            0 <= e <= entries@.len(),
            skin < data.skins@.len(),
            entries@ == data.skins@[skin as int].entries@,
            forall|j: int|
                0 <= j < e ==> !((#[trigger] entries@[j]).slot == slot && entries@[j].name@
                    == name@),
        decreases entries@.len() - e,
    {
        if entries[e].slot == slot && entries[e].name == *name {
            proof {
                assert(data.skins@[skin as int].entries@[e as int].slot == slot
                    && data.skins@[skin as int].entries@[e as int].name@ == name@);
            }
            return Some(AttachmentRef { skin, entry: e });
        }
        e = e + 1;
    }
    None
}

/// Composes a local transform onto a parent world transform, honoring the
/// inheritance flags; equal to `compose_spec` by construction.
pub fn compose(
    pw: WorldTransform,
    l: LocalTransform,
    inherit_rotation: bool,
    inherit_scale: bool,
) -> (w: WorldTransform)
    requires
        pw.in_range(),
        l.in_range(),
    ensures
        w == compose_spec(pw, l, inherit_rotation, inherit_scale),
        w.in_range(),
{
    let basis: WorldTransform = if inherit_rotation && inherit_scale {
        pw
    } else if inherit_rotation {
        let cr = cos_mdeg(pw.rot);
        let sr = sin_mdeg(pw.rot);
        WorldTransform { a: cr, b: -sr, c: sr, d: cr, ..pw }
    } else if inherit_scale {
        WorldTransform { a: pw.sx, b: 0, c: 0, d: pw.sy, ..pw }
    } else {
        WorldTransform { a: FP_ONE, b: 0, c: 0, d: FP_ONE, ..pw }
    };
    let rot_x = norm_mdeg(l.rotation + l.shear_x);
    let rot_y = norm_mdeg(l.rotation + QUARTER_TURN_MDEG as i64 + l.shear_y);
    let la = fp_mul(cos_mdeg(rot_x), l.scale_x);
    let lc = fp_mul(sin_mdeg(rot_x), l.scale_x);
    let lb = fp_mul(cos_mdeg(rot_y), l.scale_y);
    let ld = fp_mul(sin_mdeg(rot_y), l.scale_y);
    let lrot = norm_mdeg(l.rotation);
    WorldTransform {
        a: fp_add(fp_mul(basis.a, la), fp_mul(basis.b, lc)),
        b: fp_add(fp_mul(basis.a, lb), fp_mul(basis.b, ld)),
        c: fp_add(fp_mul(basis.c, la), fp_mul(basis.d, lc)),
        d: fp_add(fp_mul(basis.c, lb), fp_mul(basis.d, ld)),
        tx: fp_add(fp_add(fp_mul(basis.a, l.x), fp_mul(basis.b, l.y)), pw.tx),
        ty: fp_add(fp_add(fp_mul(basis.c, l.x), fp_mul(basis.d, l.y)), pw.ty),
        rot: if inherit_rotation {
            add_mdeg(pw.rot, lrot)
        } else {
            lrot
        },
        sx: if inherit_scale {
            fp_mul(pw.sx, l.scale_x)
        } else {
            l.scale_x
        },
        sy: if inherit_scale {
            fp_mul(pw.sy, l.scale_y)
        } else {
            l.scale_y
        },
    }
}

} // verus!
