//! A per-object transform: position, rotation about the Z axis, and a
//! uniform scale. Instances are ephemeral: the grid generator rebuilds
//! them wholesale whenever anything relevant changes.

use vstd::prelude::*;

use crate::math::{
    cos_milli, div_floor, lemma_div_range, lemma_mul_bound, sin_milli, spec_cos_milli,
    spec_sin_milli, Mat4, Vec3,
};

verus! {

/// Largest uniform scale, in thousandths.
pub const INSTANCE_SCALE_LIMIT: i64 = 1_000_000;

/// Largest rotation magnitude, in millidegrees.
pub const INSTANCE_ANGLE_LIMIT: i64 = 100_000_000_000;

/// One instance of a model: where it stands, how far it is rotated
/// about the Z axis (millidegrees), and its uniform scale (thousandths).
#[derive(Clone, Copy, PartialEq, Eq, Structural, Debug)]
pub struct Instance {
    pub position: Vec3,
    pub rotation_z: i64,
    pub scale: i64,
}

impl Instance {
    /// Range bounds under which the transform can be serialized.
    pub open spec fn wf(self) -> bool {
        &&& 0 <= self.scale <= INSTANCE_SCALE_LIMIT
        &&& -INSTANCE_ANGLE_LIMIT <= self.rotation_z <= INSTANCE_ANGLE_LIMIT
    }
}

/// The serialized form of an instance: its model matrix, which is the
/// translation to its position composed with the rotation about Z and
/// the uniform scale.
pub open spec fn spec_instance_to_raw(i: Instance) -> Mat4 {
    let c = spec_cos_milli(i.rotation_z as int);
    let s = spec_sin_milli(i.rotation_z as int);
    Mat4 {
        m00: (i.scale * c / 1000) as i64,
        m01: ((-(i.scale * s)) / 1000) as i64,
        m02: 0,
        m03: i.position.x,
        m10: (i.scale * s / 1000) as i64,
        m11: (i.scale * c / 1000) as i64,
        m12: 0,
        m13: i.position.y,
        m20: 0,
        m21: 0,
        m22: i.scale,
        m23: i.position.z,
        m30: 0,
        m31: 0,
        m32: 0,
        m33: 1000,
    }
}

impl Instance {
    /// Serialize the instance into the form the GPU buffer mirrors.
    pub fn to_raw(&self) -> (r: Mat4)
        requires
            self.wf(),
        ensures
            r == spec_instance_to_raw(*self),
    {
        let c: i64 = cos_milli(self.rotation_z);
        let s: i64 = sin_milli(self.rotation_z);
        proof {
            lemma_mul_bound(self.scale as int, c as int, INSTANCE_SCALE_LIMIT as int, 1000);
            lemma_mul_bound(self.scale as int, s as int, INSTANCE_SCALE_LIMIT as int, 1000);
            lemma_div_range(self.scale as int * c as int, 1_000_000_000, 1000);
            lemma_div_range(self.scale as int * s as int, 1_000_000_000, 1000);
            lemma_div_range(-(self.scale as int * s as int), 1_000_000_000, 1000);
        }
        let sc: i64 = div_floor(self.scale * c, 1000);
        let ss: i64 = div_floor(self.scale * s, 1000);
        let nss: i64 = div_floor(-(self.scale * s), 1000);
        Mat4 {
            m00: sc,
            m01: nss,
            m02: 0,
            m03: self.position.x,
            m10: ss,
            m11: sc,
            m12: 0,
            m13: self.position.y,
            m20: 0,
            m21: 0,
            m22: self.scale,
            m23: self.position.z,
            m30: 0,
            m31: 0,
            m32: 0,
            m33: 1000,
        }
    }
}

} // verus!
