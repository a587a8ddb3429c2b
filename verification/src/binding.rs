//! Resource binding layer.
//!
//! Translates CPU-side parameter values (camera, light, material) into
//! the uniform words and binding groups the pipelines consume.  The
//! binding-group layouts are built here, once, as plain value objects;
//! the pipeline registry receives the very same values, so a structural
//! mismatch between a binding group and a pipeline layout is impossible
//! by construction instead of surfacing as a draw-time fault.
//!
//! Uniform blocks keep the 16-byte alignment of the GPU layout: vectors
//! occupy four words, scalar tails are padded with zero words.

use vstd::prelude::*;

use crate::matrix::Mat4I;
use crate::matrix::Vec3I;
use crate::matrix::ints;
use crate::model::ColorI;
use crate::model::Material;

verus! {

/// The resource kind one binding slot carries.
#[derive(Clone, Copy, PartialEq, Eq, Structural, Debug)]
pub enum BindingKind {
    UniformBuffer,
    Texture2d,
    FilteringSampler,
    DepthTexture2d,
    ComparisonSampler,
}

/// One slot of a binding-group layout.
#[derive(Clone, Copy, PartialEq, Eq, Structural, Debug)]
pub struct LayoutEntry {
    pub binding: u32,
    pub visible_vertex: bool,
    pub visible_fragment: bool,
    pub kind: BindingKind,
}

/// The structure of one binding group: its slots in order.
#[derive(Clone, PartialEq, Eq, Debug)]
pub struct BindGroupLayoutDesc {
    pub entries: Vec<LayoutEntry>,
}

impl BindGroupLayoutDesc {
    /// A copy of the layout, slot for slot.
    pub fn duplicate(&self) -> (res: BindGroupLayoutDesc)
        ensures
            res.entries@ == self.entries@,
    {
        let mut entries: Vec<LayoutEntry> = Vec::new();
        let mut i: usize = 0;
        while i < self.entries.len()
            invariant
                i <= self.entries@.len(),
                entries@ == self.entries@.subrange(0, i as int),
            decreases self.entries@.len() - i,
        {
            entries.push(self.entries[i]);
            proof {
                assert(entries@ =~= self.entries@.subrange(0, i + 1));
            }
            i = i + 1;
        }
        proof {
            assert(entries@ =~= self.entries@);
        }
        BindGroupLayoutDesc { entries }
    }

    /// Structural equality of two layouts: same binding indices, same
    /// resource kinds, same visibility, in the same order.
    pub fn matches(&self, other: &BindGroupLayoutDesc) -> (res: bool)
        ensures
            res <==> self.entries@ == other.entries@,
    {
        if self.entries.len() != other.entries.len() {
            proof {
                assert(self.entries@.len() != other.entries@.len());
            }
            return false;
        }
        let mut i: usize = 0;
        while i < self.entries.len()
            invariant
                self.entries@.len() == other.entries@.len(),
                i <= self.entries@.len(),
                forall|j: int| 0 <= j < i ==> self.entries@[j] == other.entries@[j],
            decreases self.entries@.len() - i,
        {
            let a = self.entries[i];
            let b = other.entries[i];
            if !(a.binding == b.binding && a.visible_vertex == b.visible_vertex
                && a.visible_fragment == b.visible_fragment && a.kind == b.kind) {
                proof {
                    assert(self.entries@[i as int] != other.entries@[i as int]);
                }
                return false;
            }
            i = i + 1;
        }
        proof {
            assert(self.entries@ =~= other.entries@);
        }
        true
    }
}

/// The camera layout: one uniform buffer visible to both stages.
pub open spec fn spec_camera_layout() -> Seq<LayoutEntry> {
    seq![
        LayoutEntry {
            binding: 0,
            visible_vertex: true,
            visible_fragment: true,
            kind: BindingKind::UniformBuffer,
        },
    ]
}

/// The light layout: one uniform buffer visible to both stages.
pub open spec fn spec_light_layout() -> Seq<LayoutEntry> {
    seq![
        LayoutEntry {
            binding: 0,
            visible_vertex: true,
            visible_fragment: true,
            kind: BindingKind::UniformBuffer,
        },
    ]
}

/// The material layout: a small uniform block, the diffuse texture and
/// its sampler, all fragment-only.
pub open spec fn spec_material_layout() -> Seq<LayoutEntry> {
    seq![
        LayoutEntry {
            binding: 0,
            visible_vertex: false,
            visible_fragment: true,
            kind: BindingKind::UniformBuffer,
        },
        LayoutEntry {
            binding: 1,
            visible_vertex: false,
            visible_fragment: true,
            kind: BindingKind::Texture2d,
        },
        LayoutEntry {
            binding: 2,
            visible_vertex: false,
            visible_fragment: true,
            kind: BindingKind::FilteringSampler,
        },
    ]
}

/// The depth-overlay layout: the depth texture sampled with a
/// comparison sampler, fragment-only.
pub open spec fn spec_depth_overlay_layout() -> Seq<LayoutEntry> {
    seq![
        LayoutEntry {
            binding: 0,
            visible_vertex: false,
            visible_fragment: true,
            kind: BindingKind::DepthTexture2d,
        },
        LayoutEntry {
            binding: 1,
            visible_vertex: false,
            visible_fragment: true,
            kind: BindingKind::ComparisonSampler,
        },
    ]
}

/// The shared layout descriptions, constructed once and injected into
/// both the binding layer and the pipeline registry.
#[derive(Clone, PartialEq, Eq, Debug)]
pub struct SharedLayouts {
    pub camera: BindGroupLayoutDesc,
    pub light: BindGroupLayoutDesc,
    pub material: BindGroupLayoutDesc,
    pub depth_overlay: BindGroupLayoutDesc,
}

impl SharedLayouts {
    /// Each description holds exactly its fixed slots.
    pub open spec fn wf(self) -> bool {
        &&& self.camera.entries@ == spec_camera_layout()
        &&& self.light.entries@ == spec_light_layout()
        &&& self.material.entries@ == spec_material_layout()
        &&& self.depth_overlay.entries@ == spec_depth_overlay_layout()
    }

    /// Builds the one shared set of layout descriptions.
    pub fn new() -> (res: SharedLayouts)
        ensures
            res.wf(),
    {
        let camera = BindGroupLayoutDesc {
            entries: vec![
                LayoutEntry {
                    binding: 0,
                    visible_vertex: true,
                    visible_fragment: true,
                    kind: BindingKind::UniformBuffer,
                },
            ],
        };
        let light = BindGroupLayoutDesc {
            entries: vec![
                LayoutEntry {
                    binding: 0,
                    visible_vertex: true,
                    visible_fragment: true,
                    kind: BindingKind::UniformBuffer,
                },
            ],
        };
        let material = BindGroupLayoutDesc {
            entries: vec![
                LayoutEntry {
                    binding: 0,
                    visible_vertex: false,
                    visible_fragment: true,
                    kind: BindingKind::UniformBuffer,
                },
                LayoutEntry {
                    binding: 1,
                    visible_vertex: false,
                    visible_fragment: true,
                    kind: BindingKind::Texture2d,
                },
                LayoutEntry {
                    binding: 2,
                    visible_vertex: false,
                    visible_fragment: true,
                    kind: BindingKind::FilteringSampler,
                },
            ],
        };
        let depth_overlay = BindGroupLayoutDesc {
            entries: vec![
                LayoutEntry {
                    binding: 0,
                    visible_vertex: false,
                    visible_fragment: true,
                    kind: BindingKind::DepthTexture2d,
                },
                LayoutEntry {
                    binding: 1,
                    visible_vertex: false,
                    visible_fragment: true,
                    kind: BindingKind::ComparisonSampler,
                },
            ],
        };
        let res = SharedLayouts { camera, light, material, depth_overlay };
        proof {
            assert(res.camera.entries@ =~= spec_camera_layout());
            assert(res.light.entries@ =~= spec_light_layout());
            assert(res.material.entries@ =~= spec_material_layout());
            assert(res.depth_overlay.entries@ =~= spec_depth_overlay_layout());
        }
        res
    }
}

/// The camera uniform block: eye position, then the view-projection
/// matrix, shared by every draw of a frame.
#[derive(Clone, PartialEq, Eq, Debug)]
pub struct CameraUniform {
    pub eye: Vec3I,
    pub view_proj: Mat4I,
}

/// The words of the camera uniform block: the eye position padded to
/// four words with a unit, then the 16 matrix entries.
pub open spec fn camera_uniform_words(eye: Vec3I, view_proj: Seq<int>) -> Seq<int> {
    seq![eye.x as int, eye.y as int, eye.z as int, 1] + view_proj
}

impl CameraUniform {
    /// The identity camera block: eye at the origin, identity matrix.
    pub fn new() -> (res: CameraUniform)
        ensures
            res.eye == (Vec3I { x: 0, y: 0, z: 0 }),
            res.view_proj.wf(),
            res.view_proj.view_int() =~= seq![
                1int, 0, 0, 0,
                0, 1, 0, 0,
                0, 0, 1, 0,
                0, 0, 0, 1,
            ],
    {
        let m: Vec<i64> = vec![1, 0, 0, 0, 0, 1, 0, 0, 0, 0, 1, 0, 0, 0, 0, 1];
        CameraUniform { eye: Vec3I { x: 0, y: 0, z: 0 }, view_proj: Mat4I { m } }
    }

    /// Replaces the block's contents with a freshly computed eye
    /// position and view-projection matrix.
    pub fn update_view_proj(&mut self, eye: Vec3I, view_proj: Mat4I)
        requires
            view_proj.wf(),
        ensures
            final(self).eye == eye,
            final(self).view_proj == view_proj,
    {
        self.eye = eye;
        self.view_proj = view_proj;
    }

    /// Packs the block into uniform words.
    pub fn words(&self) -> (res: Vec<i64>)
        requires
            self.view_proj.wf(),
        ensures
            ints(res@) == camera_uniform_words(self.eye, self.view_proj.view_int()),
    {
        let mut res: Vec<i64> = vec![self.eye.x, self.eye.y, self.eye.z, 1];
        let mut i: usize = 0;
        while i < 16
            invariant
                self.view_proj.wf(),
                i <= 16,
                res@.len() == 4 + i,
                forall|j: int| 0 <= j < 4 + i ==> #[trigger] res@[j] as int == camera_uniform_words(
                    self.eye,
                    self.view_proj.view_int(),
                )[j],
            decreases 16 - i,
        {
            res.push(self.view_proj.m[i]);
            i = i + 1;
        }
        proof {
            assert(ints(res@) =~= camera_uniform_words(self.eye, self.view_proj.view_int()));
        }
        res
    }
}

/// The light uniform block: position and color, each padded to four
/// words for the 16-byte uniform alignment.
#[derive(Clone, Copy, PartialEq, Eq, Structural, Debug)]
pub struct LightUniform {
    pub position: Vec3I,
    pub color: ColorI,
}

/// The words of the light uniform block: position, a zero pad word,
/// color, a zero pad word.
pub open spec fn light_uniform_words(u: LightUniform) -> Seq<int> {
    seq![
        u.position.x as int, u.position.y as int, u.position.z as int, 0,
        u.color.r as int, u.color.g as int, u.color.b as int, 0,
    ]
}

impl LightUniform {
    /// Builds the block from a position and a color.
    pub fn new(position: Vec3I, color: ColorI) -> (res: LightUniform)
        ensures
            res.position == position,
            res.color == color,
    {
        LightUniform { position, color }
    }

    /// Packs the block into uniform words, pad words included.
    pub fn words(&self) -> (res: Vec<i64>)
        ensures
            ints(res@) == light_uniform_words(*self),
    {
        let res: Vec<i64> = vec![
            self.position.x,
            self.position.y,
            self.position.z,
            0,
            self.color.r,
            self.color.g,
            self.color.b,
            0,
        ];
        proof {
            assert(ints(res@) =~= light_uniform_words(*self));
        }
        res
    }
}

/// The words of a material's uniform block: the base color, then the
/// alpha value, padded to a full 16-byte row.
pub open spec fn material_uniform_words(m: Material) -> Seq<int> {
    seq![
        m.base_color.r as int, m.base_color.g as int, m.base_color.b as int, m.base_color.a as int,
        m.alpha as int, 0, 0, 0,
    ]
}

/// What one update leaves in a dirty-flag-driven uniform buffer: the
/// new words when the resource was marked changed, the old contents
/// otherwise.
pub open spec fn updated_uniform(dirty: bool, current: Seq<int>, new_words: Seq<int>) -> Seq<int> {
    if dirty {
        new_words
    } else {
        current
    }
}

/// The camera's GPU-visible parameter block: its uniform words, its
/// binding-group layout, and the dirty flag that gates uploads.
#[derive(Clone, PartialEq, Eq, Debug)]
pub struct CameraBinding {
    pub uniform: Vec<i64>,
    pub layout: BindGroupLayoutDesc,
    pub dirty: bool,
}

impl CameraBinding {
    /// The binding uses the shared camera layout.
    pub open spec fn wf(self) -> bool {
        self.layout.entries@ == spec_camera_layout()
    }
}

/// Allocates the camera's uniform buffer with its initial contents and
/// builds its binding against the shared camera layout.
pub fn create_camera_binding(shared: &SharedLayouts, uniform: &CameraUniform) -> (res:
    CameraBinding)
    requires
        shared.wf(),
        uniform.view_proj.wf(),
    ensures
        res.wf(),
        ints(res.uniform@) == camera_uniform_words(uniform.eye, uniform.view_proj.view_int()),
        !res.dirty,
{
    CameraBinding { uniform: uniform.words(), layout: shared.camera.duplicate(), dirty: false }
}

/// Marks the camera resource changed, so that the next update uploads.
pub fn mark_camera_changed(binding: &mut CameraBinding)
    ensures
        final(binding).dirty,
        final(binding).uniform@ == old(binding).uniform@,
        final(binding).layout == old(binding).layout,
{
    binding.dirty = true;
}

/// Rewrites the camera uniform only when the camera was marked changed
/// this frame; an unchanged camera causes no upload.  Either way the
/// dirty flag is consumed, so a repeated call in the same frame writes
/// nothing more.
pub fn update_camera(binding: &mut CameraBinding, new_words: &Vec<i64>)
    ensures
        ints(final(binding).uniform@) == updated_uniform(
            old(binding).dirty,
            ints(old(binding).uniform@),
            ints(new_words@),
        ),
        !final(binding).dirty,
        final(binding).layout == old(binding).layout,
{
    if binding.dirty {
        binding.uniform = clone_words(new_words);
        binding.dirty = false;
    } else {
        binding.dirty = false;
    }
}

/// A copy of a word vector, entry for entry.
fn clone_words(words: &Vec<i64>) -> (res: Vec<i64>)
    ensures
        res@ == words@,
{
    let mut res: Vec<i64> = Vec::new();
    let mut i: usize = 0;
    while i < words.len()
        invariant
            i <= words@.len(),
            res@ == words@.subrange(0, i as int),
        decreases words@.len() - i,
    {
        res.push(words[i]);
        proof {
            assert(res@ =~= words@.subrange(0, i + 1));
        }
        i = i + 1;
    }
    proof {
        assert(res@ =~= words@);
    }
    res
}

/// Updating twice with the same words leaves exactly the contents of
/// the first update.  The second update writes nothing: its dirty flag
/// was consumed by the first, and even a re-marked camera whose words
/// did not change rewrites the same contents.
pub proof fn lemma_update_camera_idempotent(
    dirty: bool,
    current: Seq<int>,
    new_words: Seq<int>,
    remarked: bool,
)
    requires
        remarked ==> dirty,
    ensures
        updated_uniform(remarked, updated_uniform(dirty, current, new_words), new_words)
            == updated_uniform(dirty, current, new_words),
{
}

/// The light's GPU-visible parameter block.
#[derive(Clone, PartialEq, Eq, Debug)]
pub struct LightBinding {
    pub uniform: Vec<i64>,
    pub layout: BindGroupLayoutDesc,
}

impl LightBinding {
    /// The binding uses the shared light layout.
    pub open spec fn wf(self) -> bool {
        self.layout.entries@ == spec_light_layout()
    }
}

/// Allocates the light's uniform buffer with its initial contents and
/// builds its binding against the shared light layout.
pub fn create_light_binding(shared: &SharedLayouts, uniform: &LightUniform) -> (res: LightBinding)
    requires
        shared.wf(),
    ensures
        res.wf(),
        ints(res.uniform@) == light_uniform_words(*uniform),
{
    LightBinding { uniform: uniform.words(), layout: shared.light.duplicate() }
}

/// Rewrites the light uniform, but only while the animate-light setting
/// is enabled; otherwise the buffer is left untouched.
pub fn update_light(binding: &mut LightBinding, uniform: &LightUniform, animate: bool)
    ensures
        ints(final(binding).uniform@) == updated_uniform(
            animate,
            ints(old(binding).uniform@),
            light_uniform_words(*uniform),
        ),
        final(binding).layout == old(binding).layout,
{
    if animate {
        binding.uniform = uniform.words();
    }
}

/// One material's GPU-visible bundle: its uniform words plus the
/// texture and sampler slots, against the shared material layout.
/// Built once per material at load time and immutable thereafter.
#[derive(Clone, PartialEq, Eq, Debug)]
pub struct MaterialBinding {
    pub uniform: Vec<i64>,
    pub diffuse_texture: u32,
    pub layout: BindGroupLayoutDesc,
}

impl MaterialBinding {
    /// The binding uses the shared material layout.
    pub open spec fn wf(self) -> bool {
        self.layout.entries@ == spec_material_layout()
    }
}

/// Bundles a material's small uniform block with its diffuse texture
/// view and sampler into one binding against the shared material
/// layout.
pub fn create_material_binding(shared: &SharedLayouts, material: &Material) -> (res:
    MaterialBinding)
    requires
        shared.wf(),
    ensures
        res.wf(),
        ints(res.uniform@) == material_uniform_words(*material),
        res.diffuse_texture == material.diffuse_texture,
{
    let uniform: Vec<i64> = vec![
        material.base_color.r,
        material.base_color.g,
        material.base_color.b,
        material.base_color.a,
        material.alpha,
        0,
        0,
        0,
    ];
    proof {
        assert(ints(uniform@) =~= material_uniform_words(*material));
    }
    MaterialBinding {
        uniform,
        diffuse_texture: material.diffuse_texture,
        layout: shared.material.duplicate(),
    }
}

} // verus!
