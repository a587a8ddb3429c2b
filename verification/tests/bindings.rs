use render_core::binding::CameraUniform;
use render_core::binding::LightUniform;
use render_core::binding::SharedLayouts;
use render_core::binding::create_camera_binding;
use render_core::binding::create_light_binding;
use render_core::binding::create_material_binding;
use render_core::binding::mark_camera_changed;
use render_core::binding::update_camera;
use render_core::binding::update_light;
use render_core::matrix::Mat4I;
use render_core::matrix::Vec3I;
use render_core::model::ColorI;
use render_core::model::Material;
use render_core::pipeline::BlendMode;
use render_core::pipeline::PipelineRegistry;
use render_core::pipeline::VertexStepMode;
use render_core::pipeline::check_binding_compatible;

fn identity4() -> Mat4I {
    Mat4I { m: vec![1, 0, 0, 0, 0, 1, 0, 0, 0, 0, 1, 0, 0, 0, 0, 1] }
}

#[test]
fn camera_uniform_packs_eye_then_matrix() {
    let mut uniform = CameraUniform::new();
    uniform.update_view_proj(Vec3I { x: 7, y: 8, z: 9 }, identity4());
    let words = uniform.words();
    assert_eq!(words.len(), 20);
    assert_eq!(&words[0..4], &[7, 8, 9, 1]);
    assert_eq!(&words[4..20], &identity4().m[..]);
}

/// Calling update_camera twice with the same words leaves exactly the
/// contents of the first call: the dirty flag is consumed, so the
/// second call uploads nothing.
#[test]
fn camera_update_is_idempotent() {
    let shared = SharedLayouts::new();
    let uniform = CameraUniform::new();
    let mut binding = create_camera_binding(&shared, &uniform);

    let mut moved = CameraUniform::new();
    moved.update_view_proj(Vec3I { x: 1, y: 2, z: 3 }, identity4());
    let words = moved.words();

    mark_camera_changed(&mut binding);
    update_camera(&mut binding, &words);
    let after_first = binding.uniform.clone();
    update_camera(&mut binding, &words);
    assert_eq!(binding.uniform, after_first);
    assert_eq!(&binding.uniform[0..4], &[1, 2, 3, 1]);
}

#[test]
fn camera_update_without_change_uploads_nothing() {
    let shared = SharedLayouts::new();
    let uniform = CameraUniform::new();
    let mut binding = create_camera_binding(&shared, &uniform);
    let initial = binding.uniform.clone();

    let mut moved = CameraUniform::new();
    moved.update_view_proj(Vec3I { x: 4, y: 4, z: 4 }, identity4());
    let words = moved.words();
    update_camera(&mut binding, &words);
    assert_eq!(binding.uniform, initial);
}

#[test]
fn light_uniform_keeps_its_padding_words() {
    let light = LightUniform::new(
        Vec3I { x: 4, y: 3, z: 0 },
        ColorI { r: 65536, g: 32768, b: 0, a: 65536 },
    );
    let words = light.words();
    assert_eq!(words, vec![4, 3, 0, 0, 65536, 32768, 0, 0]);
}

#[test]
fn light_updates_only_while_animated() {
    let shared = SharedLayouts::new();
    let initial = LightUniform::new(Vec3I { x: 1, y: 1, z: 1 }, ColorI { r: 1, g: 1, b: 1, a: 1 });
    let mut binding = create_light_binding(&shared, &initial);
    let rotated = LightUniform::new(Vec3I { x: 0, y: 1, z: 2 }, ColorI { r: 1, g: 1, b: 1, a: 1 });

    update_light(&mut binding, &rotated, false);
    assert_eq!(binding.uniform, vec![1, 1, 1, 0, 1, 1, 1, 0]);

    update_light(&mut binding, &rotated, true);
    assert_eq!(binding.uniform, vec![0, 1, 2, 0, 1, 1, 1, 0]);
}

#[test]
fn material_binding_bundles_uniform_and_texture() {
    let shared = SharedLayouts::new();
    let material = Material {
        base_color: ColorI { r: 10, g: 20, b: 30, a: 65536 },
        alpha: 40000,
        gloss: 5,
        diffuse_texture: 12,
        normal_texture: None,
        specular_texture: None,
    };
    let binding = create_material_binding(&shared, &material);
    assert_eq!(binding.uniform, vec![10, 20, 30, 65536, 40000, 0, 0, 0]);
    assert_eq!(binding.diffuse_texture, 12);
}

/// Binding groups made by the binding layer match the layouts the
/// pipelines declare, slot for slot; a group bound at the wrong slot
/// is caught by the structural check.
#[test]
fn bind_group_layouts_match_pipeline_layouts() {
    let shared = SharedLayouts::new();
    let registry = PipelineRegistry::new(&shared);

    assert!(check_binding_compatible(&registry.opaque, 0, &shared.camera));
    assert!(check_binding_compatible(&registry.opaque, 1, &shared.light));
    assert!(check_binding_compatible(&registry.opaque, 2, &shared.material));
    assert!(check_binding_compatible(&registry.transparent, 2, &shared.material));
    assert!(check_binding_compatible(&registry.light_marker, 0, &shared.camera));
    assert!(check_binding_compatible(&registry.light_marker, 1, &shared.light));
    assert!(check_binding_compatible(&registry.depth_overlay, 0, &shared.depth_overlay));

    // Structural mismatches are rejected.
    assert!(!check_binding_compatible(&registry.opaque, 0, &shared.material));
    assert!(!check_binding_compatible(&registry.light_marker, 2, &shared.material));
}

#[test]
fn pipelines_carry_their_fixed_state() {
    let shared = SharedLayouts::new();
    let registry = PipelineRegistry::new(&shared);

    assert_eq!(registry.opaque.blend, BlendMode::Replace);
    assert!(registry.opaque.depth_test && registry.opaque.depth_write);

    assert_eq!(registry.transparent.blend, BlendMode::AlphaBlending);
    assert!(registry.transparent.depth_test && registry.transparent.depth_write);

    assert_eq!(registry.light_marker.blend, BlendMode::Replace);
    assert!(registry.light_marker.depth_test && !registry.light_marker.depth_write);
    assert_eq!(registry.light_marker.bind_layouts.len(), 2);

    assert!(!registry.depth_overlay.depth_test);

    // The instance matrix rides in the second vertex slot, advancing
    // per instance, sixty-four bytes wide.
    let instance_slot = &registry.opaque.vertex_buffers[1];
    assert_eq!(instance_slot.step_mode, VertexStepMode::Instance);
    assert_eq!(instance_slot.array_stride, 64);
    assert_eq!(instance_slot.attributes.len(), 4);
    assert_eq!(instance_slot.attributes[0].shader_location, 5);
    assert_eq!(instance_slot.attributes[3].offset, 48);
}
