//! Models, their sub-meshes and their materials.
//!
//! A model is an ordered list of (sub-mesh, material index) pairs plus
//! its material list.  A sub-mesh is drawn in the transparent pass
//! exactly when its material's alpha is below fully opaque, otherwise in
//! the opaque pass; one model may contribute draws to both passes.
//! Missing or out-of-range materials are substituted with the default
//! material rather than failing: visually wrong but running is preferred
//! over crashing a real-time loop.

use vstd::prelude::*;

verus! {

/// Alpha value of a fully opaque material, in model units.  A material
/// with a smaller alpha is blended in the transparent pass.
pub const ALPHA_OPAQUE: i64 = 65536;

/// Color unit: the value that stands for a channel at full intensity.
pub const COLOR_UNIT: i64 = 65536;

/// An RGBA color in model units.
#[derive(Clone, Copy, PartialEq, Eq, Structural, Debug)]
pub struct ColorI {
    pub r: i64,
    pub g: i64,
    pub b: i64,
    pub a: i64,
}

/// Surface parameters of one material.  Texture fields carry the
/// handles under which the caller registered the decoded images.
#[derive(Clone, Copy, PartialEq, Eq, Structural, Debug)]
pub struct Material {
    pub base_color: ColorI,
    /// Opacity: `ALPHA_OPAQUE` draws in the opaque pass, less in the
    /// transparent pass.
    pub alpha: i64,
    pub gloss: i64,
    pub diffuse_texture: u32,
    pub normal_texture: Option<u32>,
    pub specular_texture: Option<u32>,
}

/// Texture handle of the built-in all-white image every caller provides.
pub const DEFAULT_TEXTURE: u32 = 0;

impl Material {
    /// Alpha stays within its scale.
    pub open spec fn wf(self) -> bool {
        0 <= self.alpha <= ALPHA_OPAQUE
    }

    /// The material draws in the opaque pass.
    pub open spec fn spec_is_opaque(self) -> bool {
        self.alpha == ALPHA_OPAQUE
    }

    /// Whether the material draws in the opaque pass; anything below
    /// fully opaque is blended instead.
    pub fn is_opaque(&self) -> (res: bool)
        ensures
            res == self.spec_is_opaque(),
    {
        self.alpha == ALPHA_OPAQUE
    }
}

/// The default material: fully opaque white over the built-in white
/// texture.  It stands in wherever a mesh cannot resolve a material.
pub fn default_material() -> (res: Material)
    ensures
        res == spec_default_material(),
{
    Material {
        base_color: ColorI { r: COLOR_UNIT, g: COLOR_UNIT, b: COLOR_UNIT, a: COLOR_UNIT },
        alpha: ALPHA_OPAQUE,
        gloss: ALPHA_OPAQUE,
        diffuse_texture: DEFAULT_TEXTURE,
        normal_texture: None,
        specular_texture: None,
    }
}

/// The value `default_material` returns.
pub open spec fn spec_default_material() -> Material {
    Material {
        base_color: ColorI { r: COLOR_UNIT, g: COLOR_UNIT, b: COLOR_UNIT, a: COLOR_UNIT },
        alpha: ALPHA_OPAQUE,
        gloss: ALPHA_OPAQUE,
        diffuse_texture: DEFAULT_TEXTURE,
        normal_texture: None,
        specular_texture: None,
    }
}

/// One sub-mesh of a model: how many indexed elements it draws and
/// which entry of the model's material list it uses.
#[derive(Clone, Copy, PartialEq, Eq, Structural, Debug)]
pub struct ModelMesh {
    pub num_elements: u32,
    pub material_id: usize,
}

/// An ordered list of sub-meshes plus the material list they index.
#[derive(Clone, PartialEq, Eq, Debug)]
pub struct Model {
    pub meshes: Vec<ModelMesh>,
    pub materials: Vec<Material>,
}

impl Model {
    /// Every material keeps its alpha within scale.
    pub open spec fn wf(self) -> bool {
        forall|i: int| 0 <= i < self.materials@.len() ==> #[trigger] self.materials@[i].wf()
    }

    /// The material sub-mesh `m` resolves to: its own entry when the
    /// index is in range, the first entry when it is not, and the
    /// default material when the material list is empty.
    pub open spec fn resolved_material(self, m: int) -> Material {
        if self.materials@.len() == 0 {
            spec_default_material()
        } else if 0 <= m < self.meshes@.len() && self.meshes@[m].material_id
            < self.materials@.len() {
            self.materials@[self.meshes@[m].material_id as int]
        } else {
            self.materials@[0]
        }
    }

    /// The material sub-mesh `mesh_index` resolves to.  A missing entry
    /// falls back to the first material, an empty list to the default
    /// material, so every sub-mesh always has a valid material.
    pub fn material_for_mesh(&self, mesh_index: usize) -> (res: Material)
        requires
            mesh_index < self.meshes@.len(),
        ensures
            res == self.resolved_material(mesh_index as int),
    {
        if self.materials.len() == 0 {
            default_material()
        } else {
            let id = self.meshes[mesh_index].material_id;
            if id < self.materials.len() {
                self.materials[id]
            } else {
                self.materials[0]
            }
        }
    }
}

/// Applies the global gloss override: every material of the model takes
/// the new gloss value; nothing else changes.
pub fn set_global_gloss(model: &mut Model, gloss: i64)
    ensures
        final(model).meshes@ == old(model).meshes@,
        final(model).materials@.len() == old(model).materials@.len(),
        forall|i: int|
            0 <= i < old(model).materials@.len() ==> #[trigger] final(model).materials@[i] == (
            Material { gloss, ..old(model).materials@[i] }),
{
    let mut i: usize = 0;
    while i < model.materials.len()
        invariant
            model.meshes@ == old(model).meshes@,
            model.materials@.len() == old(model).materials@.len(),
            i <= model.materials@.len(),
            forall|j: int|
                0 <= j < i ==> #[trigger] model.materials@[j] == (Material {
                    gloss,
                    ..old(model).materials@[j]
                }),
            forall|j: int|
                i <= j < model.materials@.len() ==> #[trigger] model.materials@[j] == old(
                    model,
                ).materials@[j],
        decreases model.materials@.len() - i,
    {
        model.materials[i].gloss = gloss;
        i = i + 1;
    }
}

} // verus!
