//! Pipeline registry.
//!
//! The renderer uses a fixed set of four pipeline state objects: the
//! opaque pass, the transparent pass (alpha blending, same depth test,
//! depth write left enabled: transparent draws are not sorted against
//! each other), the light-marker pass and the depth-overlay pass.  Each
//! pipeline's binding-group layouts are the very layout values the
//! binding layer owns, never re-derived, so bind groups always match
//! the pipeline they are bound against.

use vstd::prelude::*;

use crate::binding::BindGroupLayoutDesc;
use crate::binding::LayoutEntry;
use crate::binding::SharedLayouts;
use crate::binding::spec_camera_layout;
use crate::binding::spec_depth_overlay_layout;
use crate::binding::spec_light_layout;
use crate::binding::spec_material_layout;

verus! {

/// How a pipeline combines fragment output with the color target.
#[derive(Clone, Copy, PartialEq, Eq, Structural, Debug)]
pub enum BlendMode {
    /// The fragment replaces the target color.
    Replace,
    /// The fragment is blended by its alpha.
    AlphaBlending,
}

/// How often a vertex buffer advances.
#[derive(Clone, Copy, PartialEq, Eq, Structural, Debug)]
pub enum VertexStepMode {
    Vertex,
    Instance,
}

/// The component layout of one vertex attribute.
#[derive(Clone, Copy, PartialEq, Eq, Structural, Debug)]
pub enum VertexFormat {
    Float32x2,
    Float32x3,
    Float32x4,
}

/// The byte width of a vertex format.
pub open spec fn format_size(f: VertexFormat) -> int {
    match f {
        VertexFormat::Float32x2 => 8,
        VertexFormat::Float32x3 => 12,
        VertexFormat::Float32x4 => 16,
    }
}

/// One attribute of a vertex buffer layout.
#[derive(Clone, Copy, PartialEq, Eq, Structural, Debug)]
pub struct VertexAttribute {
    pub offset: u64,
    pub shader_location: u32,
    pub format: VertexFormat,
}

/// The layout of one vertex buffer slot.
#[derive(Clone, PartialEq, Eq, Debug)]
pub struct VertexBufferLayout {
    pub array_stride: u64,
    pub step_mode: VertexStepMode,
    pub attributes: Vec<VertexAttribute>,
}

impl VertexBufferLayout {
    /// Every attribute lies within the stride.
    pub open spec fn wf(self) -> bool {
        forall|i: int|
            0 <= i < self.attributes@.len() ==> (#[trigger] self.attributes@[i]).offset
                + format_size(self.attributes@[i].format) <= self.array_stride
    }
}

/// The mesh vertex layout: position, normal and texture coordinates,
/// packed one after the other, advancing per vertex.
pub open spec fn spec_model_vertex_layout() -> Seq<VertexAttribute> {
    seq![
        VertexAttribute { offset: 0, shader_location: 0, format: VertexFormat::Float32x3 },
        VertexAttribute { offset: 12, shader_location: 1, format: VertexFormat::Float32x3 },
        VertexAttribute { offset: 24, shader_location: 2, format: VertexFormat::Float32x2 },
    ]
}

/// Builds the mesh vertex layout.
pub fn model_vertex_layout() -> (res: VertexBufferLayout)
    ensures
        res.array_stride == 32,
        res.step_mode == VertexStepMode::Vertex,
        res.attributes@ == spec_model_vertex_layout(),
        res.wf(),
{
    let res = VertexBufferLayout {
        array_stride: 32,
        step_mode: VertexStepMode::Vertex,
        attributes: vec![
            VertexAttribute { offset: 0, shader_location: 0, format: VertexFormat::Float32x3 },
            VertexAttribute { offset: 12, shader_location: 1, format: VertexFormat::Float32x3 },
            VertexAttribute { offset: 24, shader_location: 2, format: VertexFormat::Float32x2 },
        ],
    };
    proof {
        assert(res.attributes@ =~= spec_model_vertex_layout());
    }
    res
}

/// The instance matrix layout: a 4x4 matrix takes four vector slots,
/// reassembled in the shader, advancing once per instance.
pub open spec fn spec_instance_matrix_layout() -> Seq<VertexAttribute> {
    seq![
        VertexAttribute { offset: 0, shader_location: 5, format: VertexFormat::Float32x4 },
        VertexAttribute { offset: 16, shader_location: 6, format: VertexFormat::Float32x4 },
        VertexAttribute { offset: 32, shader_location: 7, format: VertexFormat::Float32x4 },
        VertexAttribute { offset: 48, shader_location: 8, format: VertexFormat::Float32x4 },
    ]
}

/// Builds the instance matrix layout: one world matrix per instance,
/// 64 bytes, split over four attribute slots.
pub fn instance_matrix_layout() -> (res: VertexBufferLayout)
    ensures
        res.array_stride == 64,
        res.step_mode == VertexStepMode::Instance,
        res.attributes@ == spec_instance_matrix_layout(),
        res.wf(),
{
    let res = VertexBufferLayout {
        array_stride: 64,
        step_mode: VertexStepMode::Instance,
        attributes: vec![
            VertexAttribute { offset: 0, shader_location: 5, format: VertexFormat::Float32x4 },
            VertexAttribute { offset: 16, shader_location: 6, format: VertexFormat::Float32x4 },
            VertexAttribute { offset: 32, shader_location: 7, format: VertexFormat::Float32x4 },
            VertexAttribute { offset: 48, shader_location: 8, format: VertexFormat::Float32x4 },
        ],
    };
    proof {
        assert(res.attributes@ =~= spec_instance_matrix_layout());
    }
    res
}

/// The overlay quad vertex layout: a position and a texture coordinate.
pub open spec fn spec_overlay_vertex_layout() -> Seq<VertexAttribute> {
    seq![
        VertexAttribute { offset: 0, shader_location: 0, format: VertexFormat::Float32x3 },
        VertexAttribute { offset: 12, shader_location: 1, format: VertexFormat::Float32x2 },
    ]
}

/// Builds the overlay quad vertex layout.
pub fn overlay_vertex_layout() -> (res: VertexBufferLayout)
    ensures
        res.array_stride == 20,
        res.step_mode == VertexStepMode::Vertex,
        res.attributes@ == spec_overlay_vertex_layout(),
        res.wf(),
{
    let res = VertexBufferLayout {
        array_stride: 20,
        step_mode: VertexStepMode::Vertex,
        attributes: vec![
            VertexAttribute { offset: 0, shader_location: 0, format: VertexFormat::Float32x3 },
            VertexAttribute { offset: 12, shader_location: 1, format: VertexFormat::Float32x2 },
        ],
    };
    proof {
        assert(res.attributes@ =~= spec_overlay_vertex_layout());
    }
    res
}

/// One compiled pipeline state object: blend and depth state plus the
/// binding-group layouts and vertex layouts it was built against.
#[derive(Clone, PartialEq, Eq, Debug)]
pub struct PipelineDesc {
    pub blend: BlendMode,
    pub depth_test: bool,
    pub depth_write: bool,
    pub bind_layouts: Vec<BindGroupLayoutDesc>,
    pub vertex_buffers: Vec<VertexBufferLayout>,
}

impl PipelineDesc {
    /// The binding-group layouts of this pipeline, slot by slot.
    pub open spec fn layout_seqs(self) -> Seq<Seq<LayoutEntry>> {
        Seq::new(self.bind_layouts@.len(), |i: int| self.bind_layouts@[i].entries@)
    }
}

/// The fixed set of pipelines the renderer draws with.
#[derive(Clone, PartialEq, Eq, Debug)]
pub struct PipelineRegistry {
    pub opaque: PipelineDesc,
    pub transparent: PipelineDesc,
    pub light_marker: PipelineDesc,
    pub depth_overlay: PipelineDesc,
}

impl PipelineRegistry {
    /// What each pipeline must look like.
    ///
    /// - Opaque: depth test and write on, no blending; bound against
    ///   camera, light and material layouts.
    /// - Transparent: alpha blending with the same depth state, depth
    ///   write deliberately left enabled (no back-to-front sorting is
    ///   performed); same binding layouts.
    /// - Light marker: camera and light only, no material; it does not
    ///   write depth.
    /// - Depth overlay: no depth test at all; bound against the overlay
    ///   layout only.
    pub open spec fn wf(self) -> bool {
        &&& self.opaque.blend == BlendMode::Replace
        &&& self.opaque.depth_test
        &&& self.opaque.depth_write
        &&& self.opaque.layout_seqs() == seq![
            spec_camera_layout(),
            spec_light_layout(),
            spec_material_layout(),
        ]
        &&& self.transparent.blend == BlendMode::AlphaBlending
        &&& self.transparent.depth_test
        &&& self.transparent.depth_write
        &&& self.transparent.layout_seqs() == seq![
            spec_camera_layout(),
            spec_light_layout(),
            spec_material_layout(),
        ]
        &&& self.light_marker.blend == BlendMode::Replace
        &&& self.light_marker.depth_test
        &&& !self.light_marker.depth_write
        &&& self.light_marker.layout_seqs() == seq![spec_camera_layout(), spec_light_layout()]
        &&& self.depth_overlay.blend == BlendMode::Replace
        &&& !self.depth_overlay.depth_test
        &&& !self.depth_overlay.depth_write
        &&& self.depth_overlay.layout_seqs() == seq![spec_depth_overlay_layout()]
        &&& self.opaque.vertex_buffers@.len() == 2
        &&& self.opaque.vertex_buffers@[0].attributes@ == spec_model_vertex_layout()
        &&& self.opaque.vertex_buffers@[0].array_stride == 32
        &&& self.opaque.vertex_buffers@[0].step_mode == VertexStepMode::Vertex
        &&& self.opaque.vertex_buffers@[1].attributes@ == spec_instance_matrix_layout()
        &&& self.opaque.vertex_buffers@[1].array_stride == 64
        &&& self.opaque.vertex_buffers@[1].step_mode == VertexStepMode::Instance
        &&& self.transparent.vertex_buffers@.len() == 2
        &&& self.transparent.vertex_buffers@[0].attributes@ == spec_model_vertex_layout()
        &&& self.transparent.vertex_buffers@[0].array_stride == 32
        &&& self.transparent.vertex_buffers@[0].step_mode == VertexStepMode::Vertex
        &&& self.transparent.vertex_buffers@[1].attributes@ == spec_instance_matrix_layout()
        &&& self.transparent.vertex_buffers@[1].array_stride == 64
        &&& self.transparent.vertex_buffers@[1].step_mode == VertexStepMode::Instance
        &&& self.light_marker.vertex_buffers@.len() == 1
        &&& self.light_marker.vertex_buffers@[0].attributes@ == spec_model_vertex_layout()
        &&& self.light_marker.vertex_buffers@[0].array_stride == 32
        &&& self.light_marker.vertex_buffers@[0].step_mode == VertexStepMode::Vertex
        &&& self.depth_overlay.vertex_buffers@.len() == 1
        &&& self.depth_overlay.vertex_buffers@[0].attributes@ == spec_overlay_vertex_layout()
        &&& self.depth_overlay.vertex_buffers@[0].array_stride == 20
        &&& self.depth_overlay.vertex_buffers@[0].step_mode == VertexStepMode::Vertex
    }

    /// Compiles the fixed pipeline set against the shared layout
    /// descriptions.  Layout compatibility with the binding layer is a
    /// construction-time contract: the layouts used here are the same
    /// values the binding layer hands out.
    pub fn new(shared: &SharedLayouts) -> (res: PipelineRegistry)
        requires
            shared.wf(),
        ensures
            res.wf(),
    {
        let scene_layouts: Vec<BindGroupLayoutDesc> = vec![
            shared.camera.duplicate(),
            shared.light.duplicate(),
            shared.material.duplicate(),
        ];
        let scene_layouts_2: Vec<BindGroupLayoutDesc> = vec![
            shared.camera.duplicate(),
            shared.light.duplicate(),
            shared.material.duplicate(),
        ];
        let light_layouts: Vec<BindGroupLayoutDesc> = vec![
            shared.camera.duplicate(),
            shared.light.duplicate(),
        ];
        let overlay_layouts: Vec<BindGroupLayoutDesc> = vec![shared.depth_overlay.duplicate()];

        let opaque = PipelineDesc {
            blend: BlendMode::Replace,
            depth_test: true,
            depth_write: true,
            bind_layouts: scene_layouts,
            vertex_buffers: vec![model_vertex_layout(), instance_matrix_layout()],
        };
        let transparent = PipelineDesc {
            blend: BlendMode::AlphaBlending,
            depth_test: true,
            depth_write: true,
            bind_layouts: scene_layouts_2,
            vertex_buffers: vec![model_vertex_layout(), instance_matrix_layout()],
        };
        let light_marker = PipelineDesc {
            blend: BlendMode::Replace,
            depth_test: true,
            depth_write: false,
            bind_layouts: light_layouts,
            vertex_buffers: vec![model_vertex_layout()],
        };
        let depth_overlay = PipelineDesc {
            blend: BlendMode::Replace,
            depth_test: false,
            depth_write: false,
            bind_layouts: overlay_layouts,
            vertex_buffers: vec![overlay_vertex_layout()],
        };
        let res = PipelineRegistry { opaque, transparent, light_marker, depth_overlay };
        proof {
            assert(res.opaque.layout_seqs() =~= seq![
                spec_camera_layout(),
                spec_light_layout(),
                spec_material_layout(),
            ]);
            assert(res.transparent.layout_seqs() =~= seq![
                spec_camera_layout(),
                spec_light_layout(),
                spec_material_layout(),
            ]);
            assert(res.light_marker.layout_seqs() =~= seq![
                spec_camera_layout(),
                spec_light_layout(),
            ]);
            assert(res.depth_overlay.layout_seqs() =~= seq![spec_depth_overlay_layout()]);
        }
        res
    }
}

/// A binding group with the given entries can be bound at slot `slot`
/// of the pipeline: the pipeline declares exactly that layout there.
pub open spec fn binds_at(pipeline: PipelineDesc, slot: int, entries: Seq<LayoutEntry>) -> bool {
    &&& 0 <= slot < pipeline.bind_layouts@.len()
    &&& pipeline.bind_layouts@[slot].entries@ == entries
}

/// Checks at construction time that a binding-group layout equals the
/// layout a pipeline declares at `slot`; a mismatch is a fatal
/// configuration error, never a recoverable one.
pub fn check_binding_compatible(
    pipeline: &PipelineDesc,
    slot: usize,
    group_layout: &BindGroupLayoutDesc,
) -> (res: bool)
    ensures
        res <==> binds_at(*pipeline, slot as int, group_layout.entries@),
{
    if slot >= pipeline.bind_layouts.len() {
        return false;
    }
    pipeline.bind_layouts[slot].matches(group_layout)
}

} // verus!
