//! Slot attachments: the closed set of geometry kinds a slot can carry.
//!
//! Attachment geometry is immutable after load; live slots reference it and
//! never copy it.  The variant set is fixed by the data format, so dispatch
//! is an exhaustive match over a sum type.

use vstd::prelude::*;
use crate::fixed::fp_in_range;

verus! {

/// An RGBA tint with eight bits per channel.
#[derive(Clone, Copy, PartialEq, Eq, Structural, Debug)]
pub struct Color {
    pub r: u8,
    pub g: u8,
    pub b: u8,
    pub a: u8,
}

impl Color {
    /// Opaque white: the multiplicative identity for tinting.
    pub fn white() -> (c: Color)
        ensures
            c == (Color { r: 255, g: 255, b: 255, a: 255 }),
    {
        Color { r: 255, g: 255, b: 255, a: 255 }
    }

    /// Channel-wise product of two tints, each channel scaled into 0..=255.
    pub fn modulate(self, other: Color) -> (c: Color)
        ensures
            c.r == (self.r as int * other.r as int) / 255,
            c.g == (self.g as int * other.g as int) / 255,
            c.b == (self.b as int * other.b as int) / 255,
            c.a == (self.a as int * other.a as int) / 255,
    {
        Color {
            r: mul_channel(self.r, other.r),
            g: mul_channel(self.g, other.g),
            b: mul_channel(self.b, other.b),
            a: mul_channel(self.a, other.a),
        }
    }
}

/// Product of two color channels, rescaled so that 255 acts as one.
fn mul_channel(a: u8, b: u8) -> (r: u8)
    ensures
        r == (a as int * b as int) / 255,
{
    proof {
        assert(0 <= a as int * b as int <= 65025) by (nonlinear_arith)
            requires
                0 <= a as int <= 255,
                0 <= b as int <= 255,
        ;
    }
    ((a as u32 * b as u32) / 255) as u8
}

/// How a slot's colors combine with what is already in the framebuffer.
#[derive(Clone, Copy, PartialEq, Eq, Structural, Debug)]
pub enum BlendMode {
    Normal,
    Additive,
    Multiply,
    Screen,
}

/// A two-dimensional point or vector in fixed-point coordinates.
#[derive(Clone, Copy, PartialEq, Eq, Structural, Debug)]
pub struct Vertex2 {
    pub x: i64,
    pub y: i64,
}

impl Vertex2 {
    /// Whether both coordinates lie within the fixed-point range.
    pub open spec fn in_range(self) -> bool {
        fp_in_range(self.x as int) && fp_in_range(self.y as int)
    }
}

/// A textured quad positioned relative to its bone.
#[derive(Clone, Copy, Debug)]
pub struct RegionAttachment {
    pub x: i64,
    pub y: i64,
    pub rotation: i64,
    pub scale_x: i64,
    pub scale_y: i64,
    pub width: i64,
    pub height: i64,
    pub color: Color,
}

/// One bone's contribution to a skinned mesh vertex: a position in that
/// bone's coordinate space and a fixed-point weight.
#[derive(Clone, Copy, PartialEq, Eq, Structural, Debug)]
pub struct BoneInfluence {
    pub bone: usize,
    pub x: i64,
    pub y: i64,
    pub weight: i64,
}

/// One mesh vertex: a rest position, and for skinned meshes a list of bone
/// influences (empty for a rigid vertex that follows the slot's bone).
#[derive(Clone, Debug)]
pub struct MeshVertex {
    pub position: Vertex2,
    pub influences: Vec<BoneInfluence>,
}

/// A triangulated mesh deformed by the animation.
#[derive(Clone, Debug)]
pub struct MeshAttachment {
    pub vertices: Vec<MeshVertex>,
    pub uvs: Vec<Vertex2>,
    pub triangles: Vec<u16>,
    pub color: Color,
}

/// A polygon consumed by collision or hit-testing systems; never rendered.
#[derive(Clone, Debug)]
pub struct BoundingBoxAttachment {
    pub points: Vec<Vertex2>,
}

/// A spline consumed by path constraints; never rendered.
#[derive(Clone, Debug)]
pub struct PathAttachment {
    pub points: Vec<Vertex2>,
}

/// A single oriented point; never rendered.
#[derive(Clone, Copy, Debug)]
pub struct PointAttachment {
    pub x: i64,
    pub y: i64,
    pub rotation: i64,
}

/// A clip polygon: subsequent drawables in draw order are clipped against
/// it.  An empty vertex list is the conventional end-of-clip marker.
#[derive(Clone, Debug)]
pub struct ClippingAttachment {
    pub points: Vec<Vertex2>,
}

/// The closed set of attachment variants.
#[derive(Clone, Debug)]
pub enum AttachmentData {
    Region(RegionAttachment),
    BoundingBox(BoundingBoxAttachment),
    Mesh(MeshAttachment),
    Path(PathAttachment),
    Point(PointAttachment),
    Clipping(ClippingAttachment),
}

/// The tag of an attachment variant.
#[derive(Clone, Copy, PartialEq, Eq, Structural, Debug)]
pub enum AttachmentType {
    Region,
    BoundingBox,
    Mesh,
    LinkedMesh,
    Path,
    Point,
    Clipping,
    Unknown,
}

impl AttachmentType {
    /// The variant a loader-side numeric code stands for; codes outside the
    /// declared set map to `Unknown`.
    pub fn from_code(code: u32) -> (t: AttachmentType)
        ensures
            t == AttachmentType::code_spec(code as int),
    {
        match code {
            0 => AttachmentType::Region,
            1 => AttachmentType::BoundingBox,
            2 => AttachmentType::Mesh,
            3 => AttachmentType::LinkedMesh,
            4 => AttachmentType::Path,
            5 => AttachmentType::Point,
            6 => AttachmentType::Clipping,
            _ => AttachmentType::Unknown,
        }
    }

    /// The mapping from loader-side numeric codes to variants.
    pub open spec fn code_spec(code: int) -> AttachmentType {
        if code == 0 {
            AttachmentType::Region
        } else if code == 1 {
            AttachmentType::BoundingBox
        } else if code == 2 {
            AttachmentType::Mesh
        } else if code == 3 {
            AttachmentType::LinkedMesh
        } else if code == 4 {
            AttachmentType::Path
        } else if code == 5 {
            AttachmentType::Point
        } else if code == 6 {
            AttachmentType::Clipping
        } else {
            AttachmentType::Unknown
        }
    }
}

/// A named, immutable attachment.
#[derive(Clone, Debug)]
pub struct Attachment {
    pub name: String,
    pub data: AttachmentData,
}

impl Attachment {
    /// The variant tag of this attachment's data.
    pub open spec fn type_spec(&self) -> AttachmentType {
        match self.data {
            AttachmentData::Region(_) => AttachmentType::Region,
            AttachmentData::BoundingBox(_) => AttachmentType::BoundingBox,
            AttachmentData::Mesh(_) => AttachmentType::Mesh,
            AttachmentData::Path(_) => AttachmentType::Path,
            AttachmentData::Point(_) => AttachmentType::Point,
            AttachmentData::Clipping(_) => AttachmentType::Clipping,
        }
    }

    /// The variant tag of this attachment's data.
    pub fn attachment_type(&self) -> (t: AttachmentType)
        ensures
            t == self.type_spec(),
    {
        match &self.data {
            AttachmentData::Region(_) => AttachmentType::Region,
            AttachmentData::BoundingBox(_) => AttachmentType::BoundingBox,
            AttachmentData::Mesh(_) => AttachmentType::Mesh,
            AttachmentData::Path(_) => AttachmentType::Path,
            AttachmentData::Point(_) => AttachmentType::Point,
            AttachmentData::Clipping(_) => AttachmentType::Clipping,
        }
    }

    /// The region data, when this attachment is a region.
    pub fn as_region(&self) -> (r: Option<RegionAttachment>)
        ensures
            r.is_some() <==> self.data is Region,
            self.data is Region ==> r == Some(self.data->Region_0),
    {
        match &self.data {
            AttachmentData::Region(a) => Some(*a),
            _ => None,
        }
    }

    /// The point data, when this attachment is a point.
    pub fn as_point(&self) -> (r: Option<PointAttachment>)
        ensures
            r.is_some() <==> self.data is Point,
            self.data is Point ==> r == Some(self.data->Point_0),
    {
        match &self.data {
            AttachmentData::Point(a) => Some(*a),
            _ => None,
        }
    }

    /// The mesh data, when this attachment is a mesh; borrowed, since mesh
    /// geometry is shared and must never be copied per frame.
    pub fn as_mesh(&self) -> (r: Option<&MeshAttachment>)
        ensures
            r.is_some() <==> self.data is Mesh,
            self.data is Mesh ==> r == Some(&self.data->Mesh_0),
    {
        match &self.data {
            AttachmentData::Mesh(a) => Some(a),
            _ => None,
        }
    }

    /// The bounding-box data, when this attachment is a bounding box.
    pub fn as_bounding_box(&self) -> (r: Option<&BoundingBoxAttachment>)
        ensures
            r.is_some() <==> self.data is BoundingBox,
            self.data is BoundingBox ==> r == Some(&self.data->BoundingBox_0),
    {
        match &self.data {
            AttachmentData::BoundingBox(a) => Some(a),
            _ => None,
        }
    }

    /// The clip polygon, when this attachment is a clipping attachment.
    pub fn as_clipping(&self) -> (r: Option<&ClippingAttachment>)
        ensures
            r.is_some() <==> self.data is Clipping,
            self.data is Clipping ==> r == Some(&self.data->Clipping_0),
    {
        match &self.data {
            AttachmentData::Clipping(a) => Some(a),
            _ => None,
        }
    }
}

} // verus!
