use render_core::frame::InstanceCount;
use render_core::frame::LoadOp;
use render_core::frame::PassKind;
use render_core::frame::RenderCommand;
use render_core::frame::Renderable;
use render_core::frame::build_frame_plan;
use render_core::frame::encode_frame;
use render_core::model::ALPHA_OPAQUE;
use render_core::model::ColorI;
use render_core::model::Material;
use render_core::model::Model;
use render_core::model::ModelMesh;
use render_core::model::default_material;
use render_core::model::set_global_gloss;

fn material(alpha: i64) -> Material {
    Material {
        base_color: ColorI { r: 65536, g: 65536, b: 65536, a: 65536 },
        alpha,
        gloss: 65536,
        diffuse_texture: 1,
        normal_texture: None,
        specular_texture: None,
    }
}

fn entity(id: usize, model: Model, instances: usize) -> Renderable {
    Renderable { entity: id, model, instance_count: InstanceCount(instances) }
}

/// One mesh, one opaque material, one instance at the identity
/// transform: exactly one draw in the opaque pass, none transparent.
#[test]
fn single_opaque_mesh_draws_once_in_opaque_pass() {
    let model = Model {
        meshes: vec![ModelMesh { num_elements: 36, material_id: 0 }],
        materials: vec![material(ALPHA_OPAQUE)],
    };
    let scene = vec![entity(0, model, 1)];
    let plan = build_frame_plan(&scene, &vec![]);
    assert_eq!(plan.opaque_draws.len(), 1);
    assert_eq!(plan.transparent_draws.len(), 0);
    let draw = plan.opaque_draws[0];
    assert_eq!(draw.entity, 0);
    assert_eq!(draw.mesh_index, 0);
    assert_eq!(draw.num_elements, 36);
    assert_eq!(draw.instance_count, 1);
}

/// Two sub-meshes, one opaque and one at forty percent alpha: one draw
/// in each pass, split per sub-mesh.
#[test]
fn mixed_model_splits_between_passes() {
    let forty_percent = ALPHA_OPAQUE * 2 / 5;
    let model = Model {
        meshes: vec![
            ModelMesh { num_elements: 12, material_id: 0 },
            ModelMesh { num_elements: 24, material_id: 1 },
        ],
        materials: vec![material(ALPHA_OPAQUE), material(forty_percent)],
    };
    let scene = vec![entity(3, model, 1)];
    let plan = build_frame_plan(&scene, &vec![]);
    assert_eq!(plan.opaque_draws.len(), 1);
    assert_eq!(plan.transparent_draws.len(), 1);
    assert_eq!(plan.opaque_draws[0].mesh_index, 0);
    assert_eq!(plan.opaque_draws[0].num_elements, 12);
    assert_eq!(plan.transparent_draws[0].mesh_index, 1);
    assert_eq!(plan.transparent_draws[0].num_elements, 24);
}

/// A just-below-opaque alpha goes to the transparent pass; only an
/// exactly full alpha stays opaque.
#[test]
fn alpha_partition_is_exact() {
    let model = Model {
        meshes: vec![
            ModelMesh { num_elements: 3, material_id: 0 },
            ModelMesh { num_elements: 3, material_id: 1 },
        ],
        materials: vec![material(ALPHA_OPAQUE), material(ALPHA_OPAQUE - 1)],
    };
    let scene = vec![entity(0, model, 1)];
    let plan = build_frame_plan(&scene, &vec![]);
    assert_eq!(plan.opaque_draws.len(), 1);
    assert_eq!(plan.transparent_draws.len(), 1);
    assert_eq!(plan.opaque_draws[0].material.alpha, ALPHA_OPAQUE);
    assert_eq!(plan.transparent_draws[0].material.alpha, ALPHA_OPAQUE - 1);
}

/// A model with an empty material list falls back to the default
/// opaque white material and still produces one opaque draw per mesh.
#[test]
fn empty_materials_substitute_the_default_material() {
    let model = Model {
        meshes: vec![ModelMesh { num_elements: 9, material_id: 0 }],
        materials: vec![],
    };
    assert_eq!(model.material_for_mesh(0), default_material());
    let scene = vec![entity(0, model, 1)];
    let plan = build_frame_plan(&scene, &vec![]);
    assert_eq!(plan.opaque_draws.len(), 1);
    assert_eq!(plan.transparent_draws.len(), 0);
    let resolved = plan.opaque_draws[0].material;
    assert_eq!(resolved.alpha, ALPHA_OPAQUE);
    assert_eq!(resolved.base_color, ColorI { r: 65536, g: 65536, b: 65536, a: 65536 });
}

/// An out-of-range material index falls back to the first material.
#[test]
fn missing_material_falls_back_to_first() {
    let model = Model {
        meshes: vec![ModelMesh { num_elements: 6, material_id: 17 }],
        materials: vec![material(ALPHA_OPAQUE / 2)],
    };
    assert_eq!(model.material_for_mesh(0).alpha, ALPHA_OPAQUE / 2);
    let scene = vec![entity(0, model, 1)];
    let plan = build_frame_plan(&scene, &vec![]);
    assert_eq!(plan.transparent_draws.len(), 1);
}

/// The instance count of the entity is carried into each of its draws.
#[test]
fn draws_carry_the_instance_count() {
    let model = Model {
        meshes: vec![ModelMesh { num_elements: 36, material_id: 0 }],
        materials: vec![material(ALPHA_OPAQUE)],
    };
    let scene = vec![entity(0, model, 49)];
    let plan = build_frame_plan(&scene, &vec![]);
    assert_eq!(plan.opaque_draws[0].instance_count, 49);
}

/// The global gloss override touches every material's gloss and
/// nothing else.
#[test]
fn global_gloss_override_updates_every_material() {
    let mut model = Model {
        meshes: vec![ModelMesh { num_elements: 3, material_id: 0 }],
        materials: vec![material(ALPHA_OPAQUE), material(100)],
    };
    set_global_gloss(&mut model, 777);
    assert_eq!(model.materials[0].gloss, 777);
    assert_eq!(model.materials[1].gloss, 777);
    assert_eq!(model.materials[0].alpha, ALPHA_OPAQUE);
    assert_eq!(model.materials[1].alpha, 100);
}

/// The encoded frame runs its segments in the fixed order: clear, light
/// markers, opaque, transparent, end, submit, present; every opaque
/// draw precedes every transparent draw.
#[test]
fn frame_commands_keep_the_pass_order() {
    let forty_percent = ALPHA_OPAQUE * 2 / 5;
    let model = Model {
        meshes: vec![
            ModelMesh { num_elements: 12, material_id: 0 },
            ModelMesh { num_elements: 24, material_id: 1 },
        ],
        materials: vec![material(ALPHA_OPAQUE), material(forty_percent)],
    };
    let light_model = Model {
        meshes: vec![ModelMesh { num_elements: 36, material_id: 0 }],
        materials: vec![],
    };
    let scene = vec![entity(0, model, 2)];
    let lights = vec![entity(9, light_model, 1)];
    let plan = build_frame_plan(&scene, &lights);
    let cmds = encode_frame(&plan, false);

    assert_eq!(
        cmds[0],
        RenderCommand::BeginMainPass { color_load: LoadOp::Clear, depth_load: LoadOp::Clear }
    );
    assert_eq!(cmds[1], RenderCommand::SetPipeline { pass: PassKind::LightMarker });
    assert_eq!(cmds[cmds.len() - 2], RenderCommand::Submit);
    assert_eq!(cmds[cmds.len() - 1], RenderCommand::Present);

    let pos = |needle: RenderCommand| cmds.iter().position(|c| *c == needle).unwrap();
    let opaque_start = pos(RenderCommand::SetPipeline { pass: PassKind::Opaque });
    let transparent_start = pos(RenderCommand::SetPipeline { pass: PassKind::Transparent });
    assert!(opaque_start < transparent_start);

    let mesh_positions: Vec<usize> = cmds
        .iter()
        .enumerate()
        .filter_map(|(i, c)| match c {
            RenderCommand::DrawMesh(d) => Some((i, d.material.alpha)),
            _ => None,
        })
        .map(|(i, alpha)| {
            if alpha == ALPHA_OPAQUE {
                assert!(i > opaque_start && i < transparent_start);
            } else {
                assert!(i > transparent_start);
            }
            i
        })
        .collect();
    assert_eq!(mesh_positions.len(), 2);

    // The light marker draw happens before the opaque pipeline is set.
    let light_pos = cmds
        .iter()
        .position(|c| matches!(c, RenderCommand::DrawLight(_)))
        .unwrap();
    assert!(light_pos < opaque_start);

    // Each mesh draw is preceded by binding its entity's instance
    // buffer.
    for (i, c) in cmds.iter().enumerate() {
        if let RenderCommand::DrawMesh(d) = c {
            assert_eq!(
                cmds[i - 1],
                RenderCommand::SetInstanceBuffer { entity: d.entity }
            );
        }
    }

    // Without the debug flag there is no overlay pass.
    assert!(!cmds
        .iter()
        .any(|c| matches!(c, RenderCommand::BeginOverlayPass { .. })));
}

/// The depth overlay composites in a second pass that loads the color
/// target instead of clearing it.
#[test]
fn overlay_pass_loads_instead_of_clearing() {
    let plan = build_frame_plan(&vec![], &vec![]);
    let cmds = encode_frame(&plan, true);
    let begin = cmds
        .iter()
        .position(|c| matches!(c, RenderCommand::BeginOverlayPass { .. }))
        .unwrap();
    assert_eq!(cmds[begin], RenderCommand::BeginOverlayPass { color_load: LoadOp::Load });
    assert_eq!(cmds[begin + 1], RenderCommand::SetPipeline { pass: PassKind::DepthOverlay });
    assert_eq!(cmds[begin + 2], RenderCommand::DrawOverlayQuad);
    assert_eq!(cmds[begin + 3], RenderCommand::EndPass);
    let end_main = cmds.iter().position(|c| *c == RenderCommand::EndPass).unwrap();
    assert!(end_main < begin);
}
