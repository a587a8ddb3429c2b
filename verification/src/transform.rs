//! Instance transforms and their world matrices.
//!
//! A transform carries a translation, a rotation (already in matrix form)
//! and a per-axis scale.  Its world matrix is the product
//! `translation * (rotation * scale)`: scale is applied first, then the
//! rotation, then the translation.  That composition order is a contract;
//! authored scenes depend on it.

use vstd::prelude::*;

use crate::matrix::Mat3I;
use crate::matrix::Mat4I;
use crate::matrix::Vec3I;
use crate::matrix::MUL_LEFT_BOUND;
use crate::matrix::MUL_RIGHT_BOUND;
use crate::matrix::bounded;
use crate::matrix::lemma_mat_prod_bound;
use crate::matrix::mat_mul;
use crate::matrix::mat_prod;
use crate::matrix::rotation_matrix;
use crate::matrix::rotation_seq;
use crate::matrix::scale_matrix;
use crate::matrix::scale_seq;
use crate::matrix::translation_matrix;
use crate::matrix::translation_seq;

verus! {

/// Transform components stay within this bound, so that world-matrix
/// entries fit in `i64` with room to spare.
pub const COMPONENT_BOUND: i64 = 32768;

/// Position, rotation and scale of one instance, in model units.
#[derive(Clone, PartialEq, Eq, Debug)]
pub struct Transform {
    pub translation: Vec3I,
    pub rotation: Mat3I,
    pub scale: Vec3I,
}

/// All components of `v` lie in `[-b, b]`.
pub open spec fn vec3_bounded(v: Vec3I, b: int) -> bool {
    &&& -b <= v.x <= b
    &&& -b <= v.y <= b
    &&& -b <= v.z <= b
}

impl Transform {
    /// The rotation holds its 9 entries and every component is bounded.
    pub open spec fn wf(self) -> bool {
        &&& self.rotation.m@.len() == 9
        &&& vec3_bounded(self.translation, COMPONENT_BOUND as int)
        &&& vec3_bounded(self.scale, COMPONENT_BOUND as int)
        &&& bounded(rotation_seq(self.rotation), COMPONENT_BOUND as int)
    }

    /// The world matrix of this transform: scale, then rotate, then
    /// translate.
    pub open spec fn world_matrix(self) -> Seq<int> {
        mat_prod(
            translation_seq(self.translation),
            mat_prod(rotation_seq(self.rotation), scale_seq(self.scale)),
        )
    }

    /// The transform that leaves geometry where it is.
    pub fn identity() -> (res: Transform)
        ensures
            res.wf(),
            res.translation == (Vec3I { x: 0, y: 0, z: 0 }),
            res.scale == (Vec3I { x: 1, y: 1, z: 1 }),
            res.rotation.m@ =~= seq![1i64, 0, 0, 0, 1, 0, 0, 0, 1],
    {
        Transform {
            translation: Vec3I { x: 0, y: 0, z: 0 },
            rotation: Mat3I { m: vec![1, 0, 0, 0, 1, 0, 0, 0, 1] },
            scale: Vec3I { x: 1, y: 1, z: 1 },
        }
    }

    /// The packed world matrix of this instance, ready for the instance
    /// buffer.
    pub fn to_raw(&self) -> (res: Mat4I)
        requires
            self.wf(),
        ensures
            res.wf(),
            res.view_int() == self.world_matrix(),
    {
        let rot = rotation_matrix(&self.rotation);
        let scl = scale_matrix(self.scale);
        proof {
            assert(bounded(rot.view_int(), MUL_LEFT_BOUND as int));
            assert(bounded(scl.view_int(), MUL_RIGHT_BOUND as int));
        }
        let rs = mat_mul(&rot, &scl);
        proof {
            lemma_mat_prod_bound(
                rot.view_int(),
                scl.view_int(),
                COMPONENT_BOUND as int,
                COMPONENT_BOUND as int,
            );
            assert(bounded(rs.view_int(), MUL_RIGHT_BOUND as int));
        }
        let tra = translation_matrix(self.translation);
        proof {
            assert(bounded(tra.view_int(), MUL_LEFT_BOUND as int));
        }
        mat_mul(&tra, &rs)
    }
}

} // verus!
