//! CPU-side meshes.
//!
//! A mesh holds its vertices in model units and, optionally, an index
//! list.  Every index must address an existing vertex; a mesh that
//! satisfies that can be turned into GPU buffer payloads and a model
//! sub-mesh whose element count matches exactly what was uploaded, so
//! an indexed draw never reads past the data it was given.

use vstd::prelude::*;

use crate::matrix::Vec3I;
use crate::model::ModelMesh;

verus! {

/// One mesh vertex: position, normal and texture coordinates, all in
/// model units.
#[derive(Clone, Copy, PartialEq, Eq, Structural, Debug)]
pub struct Vertex {
    pub position: Vec3I,
    pub normal: Vec3I,
    pub uv_u: i64,
    pub uv_v: i64,
}

/// Vertex data plus an optional index list.
#[derive(Clone, PartialEq, Eq, Debug)]
pub struct Mesh {
    pub vertices: Vec<Vertex>,
    pub indices: Option<Vec<u32>>,
}

impl Mesh {
    /// Every index addresses an existing vertex.
    pub open spec fn wf(self) -> bool {
        self.indices matches Some(ix) ==> forall|i: int|
            0 <= i < ix@.len() ==> #[trigger] ix@[i] < self.vertices@.len()
    }

    /// The element count an indexed draw of this mesh uses: the index
    /// count, or one for a mesh without indices.
    pub open spec fn spec_num_elements(self) -> int {
        match self.indices {
            Some(ix) => ix@.len() as int,
            None => 1,
        }
    }

    /// The raw bytes of the index buffer, four bytes per index, as
    /// they are handed to the GPU context.  A mesh without indices has
    /// no index buffer to get.
    pub fn get_index_buffer(&self) -> (res: Vec<u8>)
        requires
            self.indices is Some,
        ensures
            res@.len() == 4 * self.indices->Some_0@.len(),
    {
        match &self.indices {
            Some(ix) => cast_index_bytes(ix),
            None => Vec::new(),
        }
    }
}

/// Relies on bytemuck::cast_slice: it reinterprets the index words as
/// their raw bytes, four per index, and cannot fail for this element
/// pair.
#[verifier::external_body]
fn cast_index_bytes(indices: &Vec<u32>) -> (res: Vec<u8>)
    ensures
        res@.len() == 4 * indices@.len(),
{
    let bytes: &[u8] = bytemuck::cast_slice(indices.as_slice());
    bytes.to_vec()
}

impl ModelMesh {
    /// Builds the sub-mesh record for a mesh uploaded to the GPU: the
    /// element count of its indexed draw and the material it uses.
    pub fn from_mesh(mesh: &Mesh, material_id: usize) -> (res: ModelMesh)
        requires
            mesh.spec_num_elements() <= u32::MAX,
        ensures
            res.num_elements == mesh.spec_num_elements(),
            res.material_id == material_id,
    {
        let num_elements: u32 = match &mesh.indices {
            Some(ix) => ix.len() as u32,
            None => 1,
        };
        ModelMesh { num_elements, material_id }
    }
}

} // verus!
