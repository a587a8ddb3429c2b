use render_core::instances::InstanceBufferArena;
use render_core::instances::Instances;
use render_core::instances::create_instance_buffer;
use render_core::instances::update_instance_buffer;
use render_core::matrix::Mat3I;
use render_core::matrix::Mat4I;
use render_core::matrix::Vec3I;
use render_core::matrix::mat_mul;
use render_core::matrix::scale_matrix;
use render_core::matrix::translation_matrix;
use render_core::frame::InstanceCount;
use render_core::frame::Renderable;
use render_core::frame::refresh_scene_buffers;
use render_core::model::Model;
use render_core::model::ModelMesh;
use render_core::transform::Transform;

fn identity_rotation() -> Mat3I {
    Mat3I { m: vec![1, 0, 0, 0, 1, 0, 0, 0, 1] }
}

fn plain(translation: (i64, i64, i64), scale: i64) -> Transform {
    Transform {
        translation: Vec3I { x: translation.0, y: translation.1, z: translation.2 },
        rotation: identity_rotation(),
        scale: Vec3I { x: scale, y: scale, z: scale },
    }
}

#[test]
fn identity_transform_packs_identity_matrix() {
    let instances = Instances(vec![Transform::identity()]);
    let buffer = create_instance_buffer(&instances);
    assert_eq!(buffer.capacity, 1);
    assert_eq!(
        buffer.data,
        vec![1, 0, 0, 0, 0, 1, 0, 0, 0, 0, 1, 0, 0, 0, 0, 1]
    );
}

#[test]
fn world_matrix_composes_scale_then_rotate_then_translate() {
    // Uniform scale of two, no rotation, translation (1, 2, 3).
    let instances = Instances(vec![plain((1, 2, 3), 2)]);
    let buffer = create_instance_buffer(&instances);
    assert_eq!(
        buffer.data,
        vec![2, 0, 0, 0, 0, 2, 0, 0, 0, 0, 2, 0, 1, 2, 3, 1]
    );
}

#[test]
fn rotation_is_applied_before_translation() {
    // A quarter turn about the z axis, then a translation along x.
    let rotation = Mat3I { m: vec![0, 1, 0, -1, 0, 0, 0, 0, 1] };
    let t = Transform {
        translation: Vec3I { x: 5, y: 0, z: 0 },
        rotation,
        scale: Vec3I { x: 1, y: 1, z: 1 },
    };
    let buffer = create_instance_buffer(&Instances(vec![t]));
    assert_eq!(
        buffer.data,
        vec![0, 1, 0, 0, -1, 0, 0, 0, 0, 0, 1, 0, 5, 0, 0, 1]
    );
}

#[test]
fn buffer_holds_one_matrix_per_instance() {
    let instances = Instances(vec![
        Transform::identity(),
        plain((1, 0, 0), 1),
        plain((0, 0, 7), 3),
    ]);
    let buffer = create_instance_buffer(&instances);
    assert_eq!(buffer.capacity, 3);
    assert_eq!(buffer.data.len(), 48);
    // The second matrix's translation column.
    assert_eq!(&buffer.data[28..32], &[1, 0, 0, 1]);
    // The third matrix scales by three and moves along z.
    assert_eq!(&buffer.data[32..36], &[3, 0, 0, 0]);
    assert_eq!(&buffer.data[44..48], &[0, 0, 7, 1]);
}

#[test]
fn update_rewrites_in_place_for_same_count() {
    let first = Instances(vec![plain((0, 0, 0), 1)]);
    let mut buffer = create_instance_buffer(&first);
    let moved = Instances(vec![plain((9, 9, 9), 1)]);
    update_instance_buffer(&mut buffer, &moved);
    assert_eq!(buffer.capacity, 1);
    assert_eq!(&buffer.data[12..16], &[9, 9, 9, 1]);
}

#[test]
fn ensure_creates_once_and_leaves_existing_buffers_alone() {
    let mut arena = InstanceBufferArena::new();
    let first = Instances(vec![plain((1, 1, 1), 1)]);
    arena.ensure_instance_buffer(4, &first);
    let other = Instances(vec![plain((8, 8, 8), 1)]);
    arena.ensure_instance_buffer(4, &other);
    // The entity already had a buffer: the second ensure is a no-op.
    let buffer = arena.slots[4].as_ref().unwrap();
    assert_eq!(&buffer.data[12..16], &[1, 1, 1, 1]);
    assert!(arena.slots[0].is_none());
}

#[test]
fn growing_instances_recreates_the_buffer() {
    // An entity grows from one instance to four: the buffer is sized
    // anew rather than written past its end.
    let mut arena = InstanceBufferArena::new();
    arena.ensure_instance_buffer(0, &Instances(vec![plain((1, 0, 0), 1)]));
    assert_eq!(arena.slots[0].as_ref().unwrap().capacity, 1);
    assert_eq!(arena.slots[0].as_ref().unwrap().data.len(), 16);

    let grown = Instances(vec![
        plain((1, 0, 0), 1),
        plain((2, 0, 0), 1),
        plain((3, 0, 0), 1),
        plain((4, 0, 0), 1),
    ]);
    arena.refresh_instance_buffer(0, &grown);
    let buffer = arena.slots[0].as_ref().unwrap();
    assert_eq!(buffer.capacity, 4);
    assert_eq!(buffer.data.len(), 64);
    assert_eq!(&buffer.data[60..64], &[4, 0, 0, 1]);
}

#[test]
fn refresh_with_same_count_keeps_capacity() {
    let mut arena = InstanceBufferArena::new();
    arena.ensure_instance_buffer(2, &Instances(vec![plain((0, 0, 0), 1)]));
    arena.refresh_instance_buffer(2, &Instances(vec![plain((5, 6, 7), 1)]));
    let buffer = arena.slots[2].as_ref().unwrap();
    assert_eq!(buffer.capacity, 1);
    assert_eq!(&buffer.data[12..16], &[5, 6, 7, 1]);
}

#[test]
fn remove_entity_drops_its_buffer() {
    let mut arena = InstanceBufferArena::new();
    arena.ensure_instance_buffer(1, &Instances(vec![plain((0, 0, 0), 1)]));
    arena.remove_entity(1);
    assert!(arena.slots[1].is_none());
}

#[test]
fn scene_refresh_syncs_every_entity() {
    let model = Model {
        meshes: vec![ModelMesh { num_elements: 3, material_id: 0 }],
        materials: vec![],
    };
    let scene = vec![
        Renderable { entity: 0, model: model.clone(), instance_count: InstanceCount(1) },
        Renderable { entity: 5, model, instance_count: InstanceCount(2) },
    ];
    let sets = vec![
        Instances(vec![plain((1, 1, 1), 1)]),
        Instances(vec![plain((2, 2, 2), 1), plain((3, 3, 3), 1)]),
    ];

    let mut arena = InstanceBufferArena::new();
    refresh_scene_buffers(&mut arena, &scene, &sets);

    let first = arena.slots[0].as_ref().unwrap();
    assert_eq!(first.capacity, 1);
    assert_eq!(&first.data[12..16], &[1, 1, 1, 1]);
    let second = arena.slots[5].as_ref().unwrap();
    assert_eq!(second.capacity, 2);
    assert_eq!(second.data.len(), 32);
    assert_eq!(&second.data[28..32], &[3, 3, 3, 1]);
}

#[test]
fn mat_mul_multiplies_column_major() {
    let scale = scale_matrix(Vec3I { x: 2, y: 3, z: 4 });
    let translate = translation_matrix(Vec3I { x: 10, y: 20, z: 30 });
    let product: Mat4I = mat_mul(&translate, &scale);
    assert_eq!(
        product.m,
        vec![2, 0, 0, 0, 0, 3, 0, 0, 0, 0, 4, 0, 10, 20, 30, 1]
    );
}
