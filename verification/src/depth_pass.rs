//! Depth texture and depth debug overlay.
//!
//! The depth texture is sized to the current surface and recreated on
//! every resize.  The overlay is a self-contained full-screen-quad pass
//! that samples the depth texture through a comparison sampler; its
//! binding references the texture by value, so texture and binding are
//! always rebuilt together — there is no state in which one of the two
//! still points at the old dimensions.

use vstd::prelude::*;

use crate::binding::BindGroupLayoutDesc;
use crate::binding::SharedLayouts;
use crate::binding::spec_depth_overlay_layout;
use crate::matrix::Vec3I;

verus! {

/// Pixel format of a texture.
#[derive(Clone, Copy, PartialEq, Eq, Structural, Debug)]
pub enum TextureFormat {
    Rgba8UnormSrgb,
    Depth32Float,
}

/// Dimensions and format of one texture.
#[derive(Clone, Copy, PartialEq, Eq, Structural, Debug)]
pub struct TextureInfo {
    pub width: u32,
    pub height: u32,
    pub format: TextureFormat,
}

/// The depth texture for a surface of the given size.
pub fn create_depth_texture(width: u32, height: u32) -> (res: TextureInfo)
    ensures
        res == (TextureInfo { width, height, format: TextureFormat::Depth32Float }),
{
    TextureInfo { width, height, format: TextureFormat::Depth32Float }
}

/// The overlay's binding: the depth texture it samples plus the layout
/// it is bound with.
#[derive(Clone, PartialEq, Eq, Debug)]
pub struct DepthBinding {
    pub texture: TextureInfo,
    pub layout: BindGroupLayoutDesc,
}

/// One vertex of the overlay's full-screen quad.
#[derive(Clone, Copy, PartialEq, Eq, Structural, Debug)]
pub struct OverlayVertex {
    pub position: Vec3I,
    pub u: i64,
    pub v: i64,
}

/// The four corners of the full-screen quad.
pub open spec fn spec_quad_vertices() -> Seq<OverlayVertex> {
    seq![
        OverlayVertex { position: Vec3I { x: -1i64, y: -1i64, z: 0i64 }, u: 0i64, v: 1i64 },
        OverlayVertex { position: Vec3I { x: 1i64, y: -1i64, z: 0i64 }, u: 1i64, v: 1i64 },
        OverlayVertex { position: Vec3I { x: 1i64, y: 1i64, z: 0i64 }, u: 1i64, v: 0i64 },
        OverlayVertex { position: Vec3I { x: -1i64, y: 1i64, z: 0i64 }, u: 0i64, v: 0i64 },
    ]
}

/// The quad's two triangles.
pub open spec fn spec_quad_indices() -> Seq<u32> {
    seq![0u32, 1, 2, 0, 2, 3]
}

/// The depth debug overlay: the depth texture, the binding that
/// samples it, and the quad geometry it owns.
#[derive(Clone, PartialEq, Eq, Debug)]
pub struct DepthPass {
    pub texture: TextureInfo,
    pub binding: DepthBinding,
    pub quad_vertices: Vec<OverlayVertex>,
    pub quad_indices: Vec<u32>,
    pub num_depth_indices: u32,
}

impl DepthPass {
    /// The texture has the depth format, the binding references that
    /// very texture with the shared overlay layout, and the quad is the
    /// fixed two-triangle fan with every index in range.
    pub open spec fn wf(self) -> bool {
        &&& self.texture.format == TextureFormat::Depth32Float
        &&& self.binding.texture == self.texture
        &&& self.binding.layout.entries@ == spec_depth_overlay_layout()
        &&& self.quad_vertices@ == spec_quad_vertices()
        &&& self.quad_indices@ == spec_quad_indices()
        &&& self.num_depth_indices == spec_quad_indices().len()
        &&& forall|i: int|
            0 <= i < self.quad_indices@.len() ==> #[trigger] self.quad_indices@[i]
                < self.quad_vertices@.len()
    }

    /// Builds the overlay for a surface of the given size.
    pub fn new(shared: &SharedLayouts, width: u32, height: u32) -> (res: DepthPass)
        requires
            shared.wf(),
        ensures
            res.wf(),
            res.texture.width == width,
            res.texture.height == height,
    {
        let texture = create_depth_texture(width, height);
        let binding = DepthBinding { texture, layout: shared.depth_overlay.duplicate() };
        let quad_vertices: Vec<OverlayVertex> = vec![
            OverlayVertex { position: Vec3I { x: -1, y: -1, z: 0 }, u: 0, v: 1 },
            OverlayVertex { position: Vec3I { x: 1, y: -1, z: 0 }, u: 1, v: 1 },
            OverlayVertex { position: Vec3I { x: 1, y: 1, z: 0 }, u: 1, v: 0 },
            OverlayVertex { position: Vec3I { x: -1, y: 1, z: 0 }, u: 0, v: 0 },
        ];
        let quad_indices: Vec<u32> = vec![0, 1, 2, 0, 2, 3];
        let res = DepthPass {
            texture,
            binding,
            quad_vertices,
            quad_indices,
            num_depth_indices: 6,
        };
        proof {
            assert(res.quad_vertices@ =~= spec_quad_vertices());
            assert(res.quad_indices@ =~= spec_quad_indices());
        }
        res
    }

    /// The overlay after a resize to `width` x `height`: a fresh depth
    /// texture and a binding to it, everything else kept.
    pub open spec fn spec_resize(self, width: u32, height: u32) -> DepthPass {
        DepthPass {
            texture: TextureInfo { width, height, format: TextureFormat::Depth32Float },
            binding: DepthBinding {
                texture: TextureInfo { width, height, format: TextureFormat::Depth32Float },
                layout: self.binding.layout,
            },
            quad_vertices: self.quad_vertices,
            quad_indices: self.quad_indices,
            num_depth_indices: self.num_depth_indices,
        }
    }

    /// Recreates the depth texture for the new surface size and rebinds
    /// the overlay to it, in one step.
    pub fn resize(&mut self, width: u32, height: u32)
        requires
            old(self).wf(),
        ensures
            *final(self) == old(self).spec_resize(width, height),
            final(self).wf(),
            final(self).texture.width == width,
            final(self).texture.height == height,
    {
        let texture = create_depth_texture(width, height);
        self.texture = texture;
        self.binding.texture = texture;
    }
}

/// Resizing to any size and then back to the original restores the
/// overlay exactly: the same depth texture dimensions, the same format,
/// the same binding.
pub proof fn lemma_resize_round_trip(d: DepthPass, width: u32, height: u32)
    requires
        d.wf(),
    ensures
        d.spec_resize(width, height).spec_resize(d.texture.width, d.texture.height) == d,
{
}

} // verus!
