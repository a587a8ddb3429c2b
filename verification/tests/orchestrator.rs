use render_core::depth_pass::DepthPass;
use render_core::depth_pass::TextureFormat;
use render_core::binding::SharedLayouts;
use render_core::frame::FrameOutcome;
use render_core::frame::InstanceCount;
use render_core::frame::RenderCommand;
use render_core::frame::RenderPhase3d;
use render_core::frame::Renderable;
use render_core::frame::SurfaceStatus;
use render_core::model::ALPHA_OPAQUE;
use render_core::model::ColorI;
use render_core::model::Material;
use render_core::model::Model;
use render_core::model::ModelMesh;

fn scene() -> Vec<Renderable> {
    let model = Model {
        meshes: vec![ModelMesh { num_elements: 36, material_id: 0 }],
        materials: vec![Material {
            base_color: ColorI { r: 65536, g: 65536, b: 65536, a: 65536 },
            alpha: ALPHA_OPAQUE,
            gloss: 65536,
            diffuse_texture: 0,
            normal_texture: None,
            specular_texture: None,
        }],
    };
    vec![Renderable { entity: 0, model, instance_count: InstanceCount(1) }]
}

/// The depth texture and the overlay binding are rebuilt together on
/// resize; resizing back restores a state equal to the original.
#[test]
fn depth_pass_resize_round_trips() {
    let shared = SharedLayouts::new();
    let original = DepthPass::new(&shared, 800, 600);
    let mut resized = original.clone();
    resized.resize(1024, 768);
    assert_eq!(resized.texture.width, 1024);
    assert_eq!(resized.binding.texture.width, 1024);
    assert_eq!(resized.texture.format, TextureFormat::Depth32Float);
    resized.resize(800, 600);
    assert_eq!(resized, original);
}

#[test]
fn depth_texture_and_binding_always_agree() {
    let shared = SharedLayouts::new();
    let mut pass = DepthPass::new(&shared, 640, 480);
    pass.resize(1920, 1080);
    assert_eq!(pass.texture, pass.binding.texture);
    assert_eq!(pass.num_depth_indices, 6);
    assert_eq!(pass.quad_indices, vec![0, 1, 2, 0, 2, 3]);
    assert_eq!(pass.quad_vertices.len(), 4);
}

#[test]
fn orchestrator_resize_round_trips() {
    let mut phase = RenderPhase3d::new(800, 600);
    let depth_before = phase.depth_pass.clone();
    phase.resize(333, 222);
    phase.resize(800, 600);
    assert_eq!(phase.width, 800);
    assert_eq!(phase.height, 600);
    assert_eq!(phase.depth_pass, depth_before);
}

#[test]
fn zero_sized_resize_is_ignored() {
    let mut phase = RenderPhase3d::new(800, 600);
    phase.resize(0, 600);
    assert_eq!(phase.width, 800);
    assert_eq!(phase.height, 600);
    phase.resize(640, 0);
    assert_eq!(phase.width, 800);
}

/// Two failed surface acquisitions in a row skip their frames without
/// a crash and without touching state; the next successful acquisition
/// renders exactly what a first frame would.
#[test]
fn outdated_surface_skips_frames_then_recovers() {
    let phase = RenderPhase3d::new(800, 600);
    let scene = scene();
    let lights = vec![];

    let first = phase.render(&scene, &lights, SurfaceStatus::Outdated);
    assert_eq!(first, FrameOutcome::Skipped(SurfaceStatus::Outdated));
    let second = phase.render(&scene, &lights, SurfaceStatus::Outdated);
    assert_eq!(second, FrameOutcome::Skipped(SurfaceStatus::Outdated));

    let rendered = phase.render(&scene, &lights, SurfaceStatus::Ready);
    let fresh = RenderPhase3d::new(800, 600).render(&scene, &lights, SurfaceStatus::Ready);
    assert_eq!(rendered, fresh);
    match rendered {
        FrameOutcome::Rendered(cmds) => {
            assert!(cmds.iter().any(|c| matches!(c, RenderCommand::DrawMesh(_))));
            assert_eq!(cmds[cmds.len() - 1], RenderCommand::Present);
        }
        FrameOutcome::Skipped(_) => panic!("a ready surface must render"),
    }
}

#[test]
fn lost_surface_also_skips() {
    let phase = RenderPhase3d::new(100, 100);
    let outcome = phase.render(&vec![], &vec![], SurfaceStatus::Lost);
    assert_eq!(outcome, FrameOutcome::Skipped(SurfaceStatus::Lost));
}

#[test]
fn every_acquisition_failure_skips_the_frame() {
    let phase = RenderPhase3d::new(100, 100);
    for status in [
        SurfaceStatus::Outdated,
        SurfaceStatus::Lost,
        SurfaceStatus::Timeout,
        SurfaceStatus::OutOfMemory,
    ] {
        let outcome = phase.render(&scene(), &vec![], status);
        assert_eq!(outcome, FrameOutcome::Skipped(status));
    }
}

/// The overlay toggle decides once per frame whether the depth overlay
/// pass is appended.
#[test]
fn depth_overlay_follows_the_toggle() {
    let mut phase = RenderPhase3d::new(800, 600);
    let without = phase.render(&scene(), &vec![], SurfaceStatus::Ready);
    phase.update_show_depth();
    let with = phase.render(&scene(), &vec![], SurfaceStatus::Ready);

    let has_overlay = |outcome: &FrameOutcome| match outcome {
        FrameOutcome::Rendered(cmds) => cmds
            .iter()
            .any(|c| matches!(c, RenderCommand::BeginOverlayPass { .. })),
        FrameOutcome::Skipped(_) => false,
    };
    assert!(!has_overlay(&without));
    assert!(has_overlay(&with));
}
