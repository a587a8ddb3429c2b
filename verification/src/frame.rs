//! Render phase orchestrator.
//!
//! Sequences all draw work for one frame:
//! acquire the target, open the main pass (clearing color and depth),
//! draw the light markers, the opaque geometry, then the transparent
//! geometry, close the pass, optionally composite the depth overlay in
//! a second pass that loads instead of clears, submit and present.
//!
//! A sub-mesh is visited in the transparent pass exactly when its
//! resolved material is not fully opaque; a model with mixed materials
//! contributes draws to both passes.  Opaque draws always precede
//! transparent draws: the transparent depth test depends on the depth
//! the opaque draws wrote.
//!
//! When the surface cannot be acquired the frame is abandoned whole:
//! no command is recorded, no state changes, and the next frame simply
//! tries again.

use vstd::prelude::*;

use crate::binding::CameraBinding;
use crate::binding::LightBinding;
use crate::binding::MaterialBinding;
use crate::binding::SharedLayouts;
use crate::instances::InstanceBufferArena;
use crate::instances::Instances;
use crate::instances::packed;
use crate::depth_pass::DepthPass;
use crate::model::Material;
use crate::model::Model;
use crate::pipeline::PipelineRegistry;
use crate::pipeline::binds_at;

verus! {

/// How many instances an entity draws; never less than one, so single
/// and instanced entities share one draw path.
#[derive(Clone, Copy, PartialEq, Eq, Structural, Debug)]
pub struct InstanceCount(pub usize);

/// One renderable entity: its model and its current instance count.
/// The entity id keys its instance buffer in the arena.
#[derive(Clone, PartialEq, Eq, Debug)]
pub struct Renderable {
    pub entity: usize,
    pub model: Model,
    pub instance_count: InstanceCount,
}

impl Renderable {
    /// At least one instance, and a well-formed model.
    pub open spec fn wf(self) -> bool {
        &&& self.instance_count.0 >= 1
        &&& self.model.wf()
    }
}

/// Every renderable in the list is well formed.
pub open spec fn all_renderables_wf(s: Seq<Renderable>) -> bool {
    forall|i: int| 0 <= i < s.len() ==> #[trigger] s[i].wf()
}

/// One indexed, instanced draw of a sub-mesh with its resolved
/// material.
#[derive(Clone, Copy, PartialEq, Eq, Structural, Debug)]
pub struct Draw {
    pub entity: usize,
    pub mesh_index: usize,
    pub material: Material,
    pub num_elements: u32,
    pub instance_count: usize,
}

/// One draw of a light's proxy mesh; no material is bound.
#[derive(Clone, Copy, PartialEq, Eq, Structural, Debug)]
pub struct LightDraw {
    pub entity: usize,
    pub mesh_index: usize,
    pub num_elements: u32,
}

/// The draw that sub-mesh `m` of renderable `r` produces.
pub open spec fn spec_draw_of(r: Renderable, m: int) -> Draw {
    Draw {
        entity: r.entity,
        mesh_index: m as usize,
        material: r.model.resolved_material(m),
        num_elements: r.model.meshes@[m].num_elements,
        instance_count: r.instance_count.0,
    }
}

/// Sub-mesh `m` of `r` belongs to the transparent pass when
/// `transparent` is set, to the opaque pass otherwise.
pub open spec fn in_pass(r: Renderable, m: int, transparent: bool) -> bool {
    r.model.resolved_material(m).spec_is_opaque() == !transparent
}

/// The draws the first `n` sub-meshes of `r` contribute to one pass,
/// in sub-mesh order.
pub open spec fn entity_pass_draws(r: Renderable, transparent: bool, n: int) -> Seq<Draw>
    decreases n,
{
    if n <= 0 {
        Seq::empty()
    } else {
        let rest = entity_pass_draws(r, transparent, n - 1);
        if in_pass(r, n - 1, transparent) {
            rest.push(spec_draw_of(r, n - 1))
        } else {
            rest
        }
    }
}

/// The draws the first `k` renderables contribute to one pass, each
/// entity's sub-meshes in order.
pub open spec fn scene_pass_draws(s: Seq<Renderable>, transparent: bool, k: int) -> Seq<Draw>
    decreases k,
{
    if k <= 0 {
        Seq::empty()
    } else {
        scene_pass_draws(s, transparent, k - 1) + entity_pass_draws(
            s[k - 1],
            transparent,
            s[k - 1].model.meshes@.len() as int,
        )
    }
}

/// The light draws of the first `n` meshes of light `r`.
pub open spec fn entity_light_draws(r: Renderable, n: int) -> Seq<LightDraw>
    decreases n,
{
    if n <= 0 {
        Seq::empty()
    } else {
        entity_light_draws(r, n - 1).push(
            LightDraw {
                entity: r.entity,
                mesh_index: (n - 1) as usize,
                num_elements: r.model.meshes@[n - 1].num_elements,
            },
        )
    }
}

/// The light draws of the first `k` lights.
pub open spec fn scene_light_draws(s: Seq<Renderable>, k: int) -> Seq<LightDraw>
    decreases k,
{
    if k <= 0 {
        Seq::empty()
    } else {
        scene_light_draws(s, k - 1) + entity_light_draws(
            s[k - 1],
            s[k - 1].model.meshes@.len() as int,
        )
    }
}

/// Collects the draws of one pass over the whole scene: each entity
/// once, each sub-mesh kept exactly when its material belongs to the
/// pass.
pub fn pass_draws(scene: &Vec<Renderable>, transparent: bool) -> (res: Vec<Draw>)
    ensures
        res@ == scene_pass_draws(scene@, transparent, scene@.len() as int),
{
    let mut res: Vec<Draw> = Vec::new();
    let mut k: usize = 0;
    while k < scene.len()
        invariant
            k <= scene@.len(),
            res@ == scene_pass_draws(scene@, transparent, k as int),
        decreases scene@.len() - k,
    {
        let r = &scene[k];
        let mut m: usize = 0;
        while m < r.model.meshes.len()
            invariant
                k < scene@.len(),
                *r == scene@[k as int],
                m <= r.model.meshes@.len(),
                res@ == scene_pass_draws(scene@, transparent, k as int) + entity_pass_draws(
                    *r,
                    transparent,
                    m as int,
                ),
            decreases r.model.meshes@.len() - m,
        {
            let material = r.model.material_for_mesh(m);
            let opaque = material.is_opaque();
            if opaque == !transparent {
                res.push(
                    Draw {
                        entity: r.entity,
                        mesh_index: m,
                        material,
                        num_elements: r.model.meshes[m].num_elements,
                        instance_count: r.instance_count.0,
                    },
                );
            }
            m = m + 1;
        }
        k = k + 1;
        proof {
            assert(res@ == scene_pass_draws(scene@, transparent, k as int));
        }
    }
    res
}

/// Collects the light-marker draws: every mesh of every light model.
pub fn light_draws(lights: &Vec<Renderable>) -> (res: Vec<LightDraw>)
    ensures
        res@ == scene_light_draws(lights@, lights@.len() as int),
{
    let mut res: Vec<LightDraw> = Vec::new();
    let mut k: usize = 0;
    while k < lights.len()
        invariant
            k <= lights@.len(),
            res@ == scene_light_draws(lights@, k as int),
        decreases lights@.len() - k,
    {
        let r = &lights[k];
        let mut m: usize = 0;
        while m < r.model.meshes.len()
            invariant
                k < lights@.len(),
                *r == lights@[k as int],
                m <= r.model.meshes@.len(),
                res@ == scene_light_draws(lights@, k as int) + entity_light_draws(*r, m as int),
            decreases r.model.meshes@.len() - m,
        {
            res.push(
                LightDraw {
                    entity: r.entity,
                    mesh_index: m,
                    num_elements: r.model.meshes[m].num_elements,
                },
            );
            m = m + 1;
        }
        k = k + 1;
        proof {
            assert(res@ == scene_light_draws(lights@, k as int));
        }
    }
    res
}

/// The draw work of one frame, partitioned once by pass membership.
#[derive(Clone, PartialEq, Eq, Debug)]
pub struct FramePlan {
    pub light_draws: Vec<LightDraw>,
    pub opaque_draws: Vec<Draw>,
    pub transparent_draws: Vec<Draw>,
}

/// Partitions the scene's draw work for one frame: light markers, then
/// the opaque/transparent split by material alpha.
pub fn build_frame_plan(scene: &Vec<Renderable>, lights: &Vec<Renderable>) -> (res: FramePlan)
    ensures
        res.light_draws@ == scene_light_draws(lights@, lights@.len() as int),
        res.opaque_draws@ == scene_pass_draws(scene@, false, scene@.len() as int),
        res.transparent_draws@ == scene_pass_draws(scene@, true, scene@.len() as int),
{
    FramePlan {
        light_draws: light_draws(lights),
        opaque_draws: pass_draws(scene, false),
        transparent_draws: pass_draws(scene, true),
    }
}

/// Every entity the scene draws owns an instance buffer sized for its
/// current instance count.
pub open spec fn buffers_in_sync(arena: InstanceBufferArena, scene: Seq<Renderable>) -> bool {
    forall|k: int|
        0 <= k < scene.len() ==> ((#[trigger] arena.buffer_of(scene[k].entity as int))
            matches Some(b) && b.capacity == scene[k].instance_count.0)
}

/// Rewrites the instance buffer of every scene entity from its current
/// instance set, before any draw of the frame is recorded.  This is
/// the read-after-write ordering the renderer relies on: after this,
/// every buffer a draw references holds exactly the current transforms
/// of its entity, one matrix per instance.
pub fn refresh_scene_buffers(
    arena: &mut InstanceBufferArena,
    scene: &Vec<Renderable>,
    sets: &Vec<Instances>,
)
    requires
        old(arena).wf(),
        sets@.len() == scene@.len(),
        forall|k: int| 0 <= k < scene@.len() ==> (#[trigger] sets@[k]).wf(),
        forall|k: int|
            0 <= k < scene@.len() ==> (#[trigger] scene@[k]).instance_count.0 == sets@[k].0@.len(),
        forall|k1: int, k2: int|
            0 <= k1 < k2 < scene@.len() ==> scene@[k1].entity != scene@[k2].entity,
    ensures
        final(arena).wf(),
        buffers_in_sync(*final(arena), scene@),
        forall|k: int|
            0 <= k < scene@.len() ==> ((#[trigger] final(arena).buffer_of(
                scene@[k].entity as int,
            )) matches Some(b) && packed(b.view_int(), sets@[k].0@)),
{
    let mut k: usize = 0;
    while k < scene.len()
        invariant
            arena.wf(),
            sets@.len() == scene@.len(),
            k <= scene@.len(),
            forall|j: int| 0 <= j < scene@.len() ==> (#[trigger] sets@[j]).wf(),
            forall|j: int|
                0 <= j < scene@.len() ==> (#[trigger] scene@[j]).instance_count.0
                    == sets@[j].0@.len(),
            forall|k1: int, k2: int|
                0 <= k1 < k2 < scene@.len() ==> scene@[k1].entity != scene@[k2].entity,
            forall|j: int|
                0 <= j < k ==> ((#[trigger] arena.buffer_of(scene@[j].entity as int))
                    matches Some(b) && b.capacity == scene@[j].instance_count.0 && packed(
                    b.view_int(),
                    sets@[j].0@,
                )),
        decreases scene@.len() - k,
    {
        arena.refresh_instance_buffer(scene[k].entity, &sets[k]);
        k = k + 1;
    }
}

/// Every draw of either pass carries the entity and instance count of
/// the renderable it came from.
proof fn lemma_entity_draws_source(r: Renderable, transparent: bool, n: int)
    ensures
        forall|i: int|
            0 <= i < entity_pass_draws(r, transparent, n).len() ==> (#[trigger] entity_pass_draws(
                r,
                transparent,
                n,
            )[i]).entity == r.entity && entity_pass_draws(r, transparent, n)[i].instance_count
                == r.instance_count.0,
    decreases n,
{
    if n > 0 {
        lemma_entity_draws_source(r, transparent, n - 1);
    }
}

/// Every draw of a scene pass comes from one of the scene's
/// renderables.
proof fn lemma_scene_draws_source(s: Seq<Renderable>, transparent: bool, k: int, i: int)
    requires
        0 <= i < scene_pass_draws(s, transparent, k).len(),
        k <= s.len(),
    ensures
        exists|e: int|
            0 <= e < s.len() && (#[trigger] s[e]).entity == scene_pass_draws(
                s,
                transparent,
                k,
            )[i].entity && s[e].instance_count.0 == scene_pass_draws(
                s,
                transparent,
                k,
            )[i].instance_count,
    decreases k,
{
    if k > 0 {
        let prev = scene_pass_draws(s, transparent, k - 1);
        if i < prev.len() {
            lemma_scene_draws_source(s, transparent, k - 1, i);
        } else {
            lemma_entity_draws_source(s[k - 1], transparent, s[k - 1].model.meshes@.len() as int);
            assert(0 <= k - 1 < s.len() && s[k - 1].entity == scene_pass_draws(
                s,
                transparent,
                k,
            )[i].entity && s[k - 1].instance_count.0 == scene_pass_draws(
                s,
                transparent,
                k,
            )[i].instance_count);
        }
    }
}

/// Stale-data law.  Once the scene's instance buffers are in sync,
/// every draw of either pass references a buffer that exists, is sized
/// for exactly the draw's instance count, and holds one matrix per
/// instance: no draw can read past what was written for the current
/// transforms.
pub proof fn lemma_no_draw_outruns_its_buffer(
    arena: InstanceBufferArena,
    scene: Seq<Renderable>,
    transparent: bool,
    i: int,
)
    requires
        arena.wf(),
        buffers_in_sync(arena, scene),
        0 <= i < scene_pass_draws(scene, transparent, scene.len() as int).len(),
    ensures
        arena.buffer_of(
            scene_pass_draws(scene, transparent, scene.len() as int)[i].entity as int,
        ) matches Some(b) && b.capacity == scene_pass_draws(
            scene,
            transparent,
            scene.len() as int,
        )[i].instance_count && b.data@.len() == 16 * b.capacity,
{
    lemma_scene_draws_source(scene, transparent, scene.len() as int, i);
    let d = scene_pass_draws(scene, transparent, scene.len() as int)[i];
    let e = choose|e: int|
        0 <= e < scene.len() && (#[trigger] scene[e]).entity == d.entity
            && scene[e].instance_count.0 == d.instance_count;
    assert(arena.buffer_of(scene[e].entity as int) matches Some(b) && b.capacity
        == scene[e].instance_count.0);
    if 0 <= scene[e].entity < arena.slots@.len() {
        assert(arena.slots@[scene[e].entity as int] matches Some(b) ==> b.wf());
    }
}

/// What a render pass does with its target's previous contents.
#[derive(Clone, Copy, PartialEq, Eq, Structural, Debug)]
pub enum LoadOp {
    Clear,
    Load,
}

/// Which fixed pipeline a draw range runs under.
#[derive(Clone, Copy, PartialEq, Eq, Structural, Debug)]
pub enum PassKind {
    Opaque,
    Transparent,
    LightMarker,
    DepthOverlay,
}

/// One recorded command of a frame, in submission order.
#[derive(Clone, Copy, PartialEq, Eq, Structural, Debug)]
pub enum RenderCommand {
    /// Opens the main pass over color and depth.
    BeginMainPass { color_load: LoadOp, depth_load: LoadOp },
    /// Opens the overlay pass over the same color target, keeping what
    /// the main pass drew.
    BeginOverlayPass { color_load: LoadOp },
    SetPipeline { pass: PassKind },
    /// Binds the entity's instance buffer to the instance vertex slot.
    SetInstanceBuffer { entity: usize },
    DrawMesh(Draw),
    DrawLight(LightDraw),
    DrawOverlayQuad,
    EndPass,
    Submit,
    Present,
}

/// The commands of a list of light draws.
pub open spec fn light_cmds(d: Seq<LightDraw>) -> Seq<RenderCommand> {
    Seq::new(d.len(), |i: int| RenderCommand::DrawLight(d[i]))
}

/// The commands of a list of model draws: each draw binds its entity's
/// instance buffer, then draws, so every buffer write of the frame
/// precedes the draw that reads it.
pub open spec fn draw_cmds(d: Seq<Draw>) -> Seq<RenderCommand> {
    Seq::new(
        2 * d.len(),
        |i: int|
            if i % 2 == 0 {
                RenderCommand::SetInstanceBuffer { entity: d[i / 2].entity }
            } else {
                RenderCommand::DrawMesh(d[i / 2])
            },
    )
}

/// The main pass: clear color and depth, light markers first, then all
/// opaque draws, then all transparent draws.
pub open spec fn main_pass_cmds(plan: FramePlan) -> Seq<RenderCommand> {
    seq![
        RenderCommand::BeginMainPass { color_load: LoadOp::Clear, depth_load: LoadOp::Clear },
        RenderCommand::SetPipeline { pass: PassKind::LightMarker },
    ] + light_cmds(plan.light_draws@) + seq![RenderCommand::SetPipeline { pass: PassKind::Opaque }]
        + draw_cmds(plan.opaque_draws@) + seq![
        RenderCommand::SetPipeline { pass: PassKind::Transparent },
    ] + draw_cmds(plan.transparent_draws@) + seq![RenderCommand::EndPass]
}

/// The overlay pass: a separate pass over the same color target with
/// load semantics, so it composites on top of the scene.
pub open spec fn overlay_cmds() -> Seq<RenderCommand> {
    seq![
        RenderCommand::BeginOverlayPass { color_load: LoadOp::Load },
        RenderCommand::SetPipeline { pass: PassKind::DepthOverlay },
        RenderCommand::DrawOverlayQuad,
        RenderCommand::EndPass,
    ]
}

/// Every command of one frame, in order.
pub open spec fn frame_cmds(plan: FramePlan, show_depth: bool) -> Seq<RenderCommand> {
    main_pass_cmds(plan) + (if show_depth {
        overlay_cmds()
    } else {
        Seq::empty()
    }) + seq![RenderCommand::Submit, RenderCommand::Present]
}

/// Records the commands of one frame from its plan, in the fixed
/// order: main pass, optional depth overlay, submit, present.
pub fn encode_frame(plan: &FramePlan, show_depth: bool) -> (res: Vec<RenderCommand>)
    ensures
        res@ == frame_cmds(*plan, show_depth),
{
    let mut res: Vec<RenderCommand> = Vec::new();
    res.push(
        RenderCommand::BeginMainPass { color_load: LoadOp::Clear, depth_load: LoadOp::Clear },
    );
    res.push(RenderCommand::SetPipeline { pass: PassKind::LightMarker });

    let ghost head = seq![
        RenderCommand::BeginMainPass { color_load: LoadOp::Clear, depth_load: LoadOp::Clear },
        RenderCommand::SetPipeline { pass: PassKind::LightMarker },
    ];
    proof {
        assert(res@ =~= head);
    }
    let mut i: usize = 0;
    while i < plan.light_draws.len()
        invariant
            i <= plan.light_draws@.len(),
            res@ == head + light_cmds(plan.light_draws@.subrange(0, i as int)),
        decreases plan.light_draws@.len() - i,
    {
        res.push(RenderCommand::DrawLight(plan.light_draws[i]));
        proof {
            assert(res@ =~= head + light_cmds(plan.light_draws@.subrange(0, i + 1)));
        }
        i = i + 1;
    }
    proof {
        assert(plan.light_draws@.subrange(0, plan.light_draws@.len() as int)
            =~= plan.light_draws@);
    }

    res.push(RenderCommand::SetPipeline { pass: PassKind::Opaque });
    let ghost head2 = head + light_cmds(plan.light_draws@) + seq![
        RenderCommand::SetPipeline { pass: PassKind::Opaque },
    ];
    proof {
        assert(res@ =~= head2);
    }
    let mut i: usize = 0;
    while i < plan.opaque_draws.len()
        invariant
            i <= plan.opaque_draws@.len(),
            res@ == head2 + draw_cmds(plan.opaque_draws@.subrange(0, i as int)),
        decreases plan.opaque_draws@.len() - i,
    {
        let d = plan.opaque_draws[i];
        res.push(RenderCommand::SetInstanceBuffer { entity: d.entity });
        res.push(RenderCommand::DrawMesh(d));
        proof {
            assert(res@ =~= head2 + draw_cmds(plan.opaque_draws@.subrange(0, i + 1)));
        }
        i = i + 1;
    }
    proof {
        assert(plan.opaque_draws@.subrange(0, plan.opaque_draws@.len() as int)
            =~= plan.opaque_draws@);
    }

    res.push(RenderCommand::SetPipeline { pass: PassKind::Transparent });
    let ghost head3 = head2 + draw_cmds(plan.opaque_draws@) + seq![
        RenderCommand::SetPipeline { pass: PassKind::Transparent },
    ];
    proof {
        assert(res@ =~= head3);
    }
    let mut i: usize = 0;
    while i < plan.transparent_draws.len()
        invariant
            i <= plan.transparent_draws@.len(),
            res@ == head3 + draw_cmds(plan.transparent_draws@.subrange(0, i as int)),
        decreases plan.transparent_draws@.len() - i,
    {
        let d = plan.transparent_draws[i];
        res.push(RenderCommand::SetInstanceBuffer { entity: d.entity });
        res.push(RenderCommand::DrawMesh(d));
        proof {
            assert(res@ =~= head3 + draw_cmds(plan.transparent_draws@.subrange(0, i + 1)));
        }
        i = i + 1;
    }
    proof {
        assert(plan.transparent_draws@.subrange(0, plan.transparent_draws@.len() as int)
            =~= plan.transparent_draws@);
    }

    res.push(RenderCommand::EndPass);
    proof {
        assert(res@ =~= main_pass_cmds(*plan));
    }

    if show_depth {
        res.push(RenderCommand::BeginOverlayPass { color_load: LoadOp::Load });
        res.push(RenderCommand::SetPipeline { pass: PassKind::DepthOverlay });
        res.push(RenderCommand::DrawOverlayQuad);
        res.push(RenderCommand::EndPass);
    }
    res.push(RenderCommand::Submit);
    res.push(RenderCommand::Present);
    proof {
        assert(res@ =~= frame_cmds(*plan, show_depth));
    }
    res
}

/// Every draw a pass list holds matches the pass: its material is
/// fully opaque in the opaque list, not fully opaque in the
/// transparent one.
proof fn lemma_entity_pass_sound(r: Renderable, transparent: bool, n: int)
    ensures
        forall|k: int|
            0 <= k < entity_pass_draws(r, transparent, n).len() ==> (#[trigger] entity_pass_draws(
                r,
                transparent,
                n,
            )[k]).material.spec_is_opaque() == !transparent,
    decreases n,
{
    if n > 0 {
        lemma_entity_pass_sound(r, transparent, n - 1);
    }
}

/// Soundness of the whole scene's pass list.
proof fn lemma_scene_pass_sound(s: Seq<Renderable>, transparent: bool, k: int)
    ensures
        forall|i: int|
            0 <= i < scene_pass_draws(s, transparent, k).len() ==> (#[trigger] scene_pass_draws(
                s,
                transparent,
                k,
            )[i]).material.spec_is_opaque() == !transparent,
    decreases k,
{
    if k > 0 {
        lemma_scene_pass_sound(s, transparent, k - 1);
        lemma_entity_pass_sound(s[k - 1], transparent, s[k - 1].model.meshes@.len() as int);
    }
}

/// A sub-mesh whose material belongs to the pass appears in the
/// entity's pass list.
proof fn lemma_entity_draw_in(r: Renderable, transparent: bool, m: int, n: int)
    requires
        0 <= m < n,
        in_pass(r, m, transparent),
    ensures
        entity_pass_draws(r, transparent, n).contains(spec_draw_of(r, m)),
    decreases n,
{
    let d = spec_draw_of(r, m);
    if m == n - 1 {
        let s = entity_pass_draws(r, transparent, n);
        assert(s[s.len() - 1] == d);
    } else {
        lemma_entity_draw_in(r, transparent, m, n - 1);
        let rest = entity_pass_draws(r, transparent, n - 1);
        let i = choose|i: int| 0 <= i < rest.len() && rest[i] == d;
        assert(entity_pass_draws(r, transparent, n)[i] == d);
    }
}

/// A sub-mesh whose material belongs to the pass appears in the
/// scene's pass list.
proof fn lemma_scene_draw_in(s: Seq<Renderable>, transparent: bool, e: int, m: int, k: int)
    requires
        0 <= e < k <= s.len(),
        0 <= m < s[e].model.meshes@.len(),
        in_pass(s[e], m, transparent),
    ensures
        scene_pass_draws(s, transparent, k).contains(spec_draw_of(s[e], m)),
    decreases k,
{
    let d = spec_draw_of(s[e], m);
    if e == k - 1 {
        lemma_entity_draw_in(s[e], transparent, m, s[e].model.meshes@.len() as int);
        let part = entity_pass_draws(s[e], transparent, s[e].model.meshes@.len() as int);
        let prev = scene_pass_draws(s, transparent, k - 1);
        let i = choose|i: int| 0 <= i < part.len() && part[i] == d;
        assert(scene_pass_draws(s, transparent, k)[prev.len() + i] == d);
    } else {
        lemma_scene_draw_in(s, transparent, e, m, k - 1);
        let prev = scene_pass_draws(s, transparent, k - 1);
        let i = choose|i: int| 0 <= i < prev.len() && prev[i] == d;
        assert(scene_pass_draws(s, transparent, k)[i] == d);
    }
}

/// Pass partition law.  A sub-mesh with a fully opaque resolved
/// material is drawn in the opaque pass and only there; one with any
/// smaller alpha is drawn in the transparent pass and only there.  A
/// model with mixed materials therefore contributes each sub-mesh to
/// exactly one of the two passes.
pub proof fn lemma_pass_partition(scene: Seq<Renderable>, e: int, m: int)
    requires
        0 <= e < scene.len(),
        0 <= m < scene[e].model.meshes@.len(),
    ensures
        scene[e].model.resolved_material(m).spec_is_opaque() ==> scene_pass_draws(
            scene,
            false,
            scene.len() as int,
        ).contains(spec_draw_of(scene[e], m)) && !scene_pass_draws(
            scene,
            true,
            scene.len() as int,
        ).contains(spec_draw_of(scene[e], m)),
        !scene[e].model.resolved_material(m).spec_is_opaque() ==> scene_pass_draws(
            scene,
            true,
            scene.len() as int,
        ).contains(spec_draw_of(scene[e], m)) && !scene_pass_draws(
            scene,
            false,
            scene.len() as int,
        ).contains(spec_draw_of(scene[e], m)),
{
    let d = spec_draw_of(scene[e], m);
    let len = scene.len() as int;
    if scene[e].model.resolved_material(m).spec_is_opaque() {
        lemma_scene_draw_in(scene, false, e, m, len);
        lemma_scene_pass_sound(scene, true, len);
        if scene_pass_draws(scene, true, len).contains(d) {
            let tr = scene_pass_draws(scene, true, len);
            let i = choose|i: int| 0 <= i < tr.len() && tr[i] == d;
            assert(tr[i].material.spec_is_opaque() == false);
            assert(false);
        }
    } else {
        lemma_scene_draw_in(scene, true, e, m, len);
        lemma_scene_pass_sound(scene, false, len);
        if scene_pass_draws(scene, false, len).contains(d) {
            let op = scene_pass_draws(scene, false, len);
            let i = choose|i: int| 0 <= i < op.len() && op[i] == d;
            assert(op[i].material.spec_is_opaque() == true);
            assert(false);
        }
    }
}

/// Draw order law.  In the encoded frame, the opaque draw commands
/// form one contiguous block that ends before the transparent block
/// begins: every opaque draw is recorded, and therefore executed,
/// before any transparent draw, so the transparent depth test sees the
/// depth the opaque draws wrote.
pub proof fn lemma_opaque_precedes_transparent(
    plan: FramePlan,
    show_depth: bool,
    i: int,
    j: int,
)
    requires
        0 <= i < 2 * plan.opaque_draws@.len(),
        0 <= j < 2 * plan.transparent_draws@.len(),
    ensures
        ({
            let cmds = frame_cmds(plan, show_depth);
            let opaque_base = 3 + plan.light_draws@.len();
            let transparent_base = opaque_base + 2 * plan.opaque_draws@.len() + 1;
            &&& cmds[opaque_base + i] == draw_cmds(plan.opaque_draws@)[i]
            &&& cmds[transparent_base + j] == draw_cmds(plan.transparent_draws@)[j]
            &&& opaque_base + i < transparent_base + j
        }),
{
}

/// The outcome of trying to acquire the next presentable image.
#[derive(Clone, Copy, PartialEq, Eq, Structural, Debug)]
pub enum SurfaceStatus {
    /// The next image is ready to draw into.
    Ready,
    /// The surface no longer matches the window; skip and retry.
    Outdated,
    /// The surface was lost; skip, the caller reconfigures it.
    Lost,
    /// Acquisition timed out under presentation backpressure.
    Timeout,
    /// The device is out of memory for surface images.
    OutOfMemory,
}

/// What one frame produced: either the full command list, or nothing
/// because the surface was not available this tick.
#[derive(Clone, PartialEq, Eq, Debug)]
pub enum FrameOutcome {
    Rendered(Vec<RenderCommand>),
    Skipped(SurfaceStatus),
}

/// The per-frame orchestrator: owns the fixed pipelines, the shared
/// layouts they were built against, the depth texture with its overlay,
/// and the overlay toggle.
#[derive(Clone, PartialEq, Eq, Debug)]
pub struct RenderPhase3d {
    pub shared: SharedLayouts,
    pub registry: PipelineRegistry,
    pub depth_pass: DepthPass,
    pub width: u32,
    pub height: u32,
    pub show_depth_buffer: bool,
}

impl RenderPhase3d {
    /// Layouts are the shared ones, pipelines were built from them, and
    /// the depth texture matches the current surface size.
    pub open spec fn wf(self) -> bool {
        &&& self.shared.wf()
        &&& self.registry.wf()
        &&& self.depth_pass.wf()
        &&& self.depth_pass.texture.width == self.width
        &&& self.depth_pass.texture.height == self.height
        &&& self.width > 0
        &&& self.height > 0
    }

    /// Builds the orchestrator for a surface of the given size.
    pub fn new(width: u32, height: u32) -> (res: RenderPhase3d)
        requires
            width > 0,
            height > 0,
        ensures
            res.wf(),
            res.width == width,
            res.height == height,
            !res.show_depth_buffer,
    {
        let shared = SharedLayouts::new();
        let registry = PipelineRegistry::new(&shared);
        let depth_pass = DepthPass::new(&shared, width, height);
        RenderPhase3d { shared, registry, depth_pass, width, height, show_depth_buffer: false }
    }

    /// Applies a window resize.  A zero-sized resize is ignored, as the
    /// surface cannot be configured for it; otherwise the depth texture
    /// and the overlay binding are rebuilt together before the next
    /// frame, so no frame ever sees mismatched dimensions.
    pub fn resize(&mut self, width: u32, height: u32)
        requires
            old(self).wf(),
        ensures
            final(self).wf(),
            width > 0 && height > 0 ==> final(self).width == width && final(self).height == height
                && final(self).depth_pass == old(self).depth_pass.spec_resize(width, height),
            !(width > 0 && height > 0) ==> *final(self) == *old(self),
            final(self).show_depth_buffer == old(self).show_depth_buffer,
            final(self).shared == old(self).shared,
            final(self).registry == old(self).registry,
    {
        if width > 0 && height > 0 {
            self.width = width;
            self.height = height;
            self.depth_pass.resize(width, height);
        }
    }

    /// Flips the depth-overlay toggle; nothing else changes.
    pub fn update_show_depth(&mut self)
        ensures
            final(self).show_depth_buffer == !old(self).show_depth_buffer,
            final(self).shared == old(self).shared,
            final(self).registry == old(self).registry,
            final(self).depth_pass == old(self).depth_pass,
            final(self).width == old(self).width,
            final(self).height == old(self).height,
    {
        self.show_depth_buffer = !self.show_depth_buffer;
    }

    /// Renders one frame.  With a ready surface the full command list
    /// of the scene is produced; on any acquisition failure the frame
    /// is abandoned without a command and without touching any state,
    /// and the next frame starts over.  A frame after any number of
    /// skipped frames therefore renders exactly what a first frame
    /// would.
    pub fn render(
        &self,
        scene: &Vec<Renderable>,
        lights: &Vec<Renderable>,
        acquire: SurfaceStatus,
    ) -> (res: FrameOutcome)
        requires
            self.wf(),
            all_renderables_wf(scene@),
            all_renderables_wf(lights@),
        ensures
            match res {
                FrameOutcome::Rendered(cmds) => acquire == SurfaceStatus::Ready && cmds@
                    == spec_frame_of(scene@, lights@, self.show_depth_buffer),
                FrameOutcome::Skipped(status) => status == acquire && acquire
                    != SurfaceStatus::Ready,
            },
    {
        match acquire {
            SurfaceStatus::Ready => {
                let plan = build_frame_plan(scene, lights);
                FrameOutcome::Rendered(encode_frame(&plan, self.show_depth_buffer))
            },
            _ => FrameOutcome::Skipped(acquire),
        }
    }
}

/// Layout-compatibility law.  The bindings the binding layer builds
/// match, slot for slot, the layouts the registry's pipelines declare:
/// camera, light and material fill the scene pipelines' three slots,
/// camera and light the light-marker pipeline's two, and the depth
/// overlay's binding its pipeline's single slot.  Both sides carry the
/// same shared layout values, so a structural mismatch cannot be
/// constructed.
pub proof fn lemma_bindings_match_pipelines(
    registry: PipelineRegistry,
    camera: CameraBinding,
    light: LightBinding,
    material: MaterialBinding,
    depth: DepthPass,
)
    requires
        registry.wf(),
        camera.wf(),
        light.wf(),
        material.wf(),
        depth.wf(),
    ensures
        binds_at(registry.opaque, 0, camera.layout.entries@),
        binds_at(registry.opaque, 1, light.layout.entries@),
        binds_at(registry.opaque, 2, material.layout.entries@),
        binds_at(registry.transparent, 0, camera.layout.entries@),
        binds_at(registry.transparent, 1, light.layout.entries@),
        binds_at(registry.transparent, 2, material.layout.entries@),
        binds_at(registry.light_marker, 0, camera.layout.entries@),
        binds_at(registry.light_marker, 1, light.layout.entries@),
        binds_at(registry.depth_overlay, 0, depth.binding.layout.entries@),
{
    assert(registry.opaque.layout_seqs().len() == 3);
    assert(registry.opaque.bind_layouts@.len() == registry.opaque.layout_seqs().len());
    assert(registry.transparent.layout_seqs().len() == 3);
    assert(registry.transparent.bind_layouts@.len() == registry.transparent.layout_seqs().len());
    assert(registry.light_marker.layout_seqs().len() == 2);
    assert(registry.light_marker.bind_layouts@.len() == registry.light_marker.layout_seqs().len());
    assert(registry.depth_overlay.layout_seqs().len() == 1);
    assert(registry.depth_overlay.bind_layouts@.len() == registry.depth_overlay.layout_seqs().len());
    assert(registry.opaque.layout_seqs()[0] == registry.opaque.bind_layouts@[0].entries@);
    assert(registry.opaque.layout_seqs()[1] == registry.opaque.bind_layouts@[1].entries@);
    assert(registry.opaque.layout_seqs()[2] == registry.opaque.bind_layouts@[2].entries@);
    assert(registry.transparent.layout_seqs()[0] == registry.transparent.bind_layouts@[0].entries@);
    assert(registry.transparent.layout_seqs()[1] == registry.transparent.bind_layouts@[1].entries@);
    assert(registry.transparent.layout_seqs()[2] == registry.transparent.bind_layouts@[2].entries@);
    assert(registry.light_marker.layout_seqs()[0]
        == registry.light_marker.bind_layouts@[0].entries@);
    assert(registry.light_marker.layout_seqs()[1]
        == registry.light_marker.bind_layouts@[1].entries@);
    assert(registry.depth_overlay.layout_seqs()[0]
        == registry.depth_overlay.bind_layouts@[0].entries@);
}

/// The commands a ready frame over this scene consists of.
pub open spec fn spec_frame_of(
    scene: Seq<Renderable>,
    lights: Seq<Renderable>,
    show_depth: bool,
) -> Seq<RenderCommand> {
    main_pass_cmds_of(scene, lights) + (if show_depth {
        overlay_cmds()
    } else {
        Seq::empty()
    }) + seq![RenderCommand::Submit, RenderCommand::Present]
}

/// The main-pass commands over this scene.
pub open spec fn main_pass_cmds_of(
    scene: Seq<Renderable>,
    lights: Seq<Renderable>,
) -> Seq<RenderCommand> {
    seq![
        RenderCommand::BeginMainPass { color_load: LoadOp::Clear, depth_load: LoadOp::Clear },
        RenderCommand::SetPipeline { pass: PassKind::LightMarker },
    ] + light_cmds(scene_light_draws(lights, lights.len() as int)) + seq![
        RenderCommand::SetPipeline { pass: PassKind::Opaque },
    ] + draw_cmds(scene_pass_draws(scene, false, scene.len() as int)) + seq![
        RenderCommand::SetPipeline { pass: PassKind::Transparent },
    ] + draw_cmds(scene_pass_draws(scene, true, scene.len() as int)) + seq![RenderCommand::EndPass]
}

} // verus!
