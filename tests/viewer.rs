use obj_viewer::bits::{clamp, less_than};
use obj_viewer::camera::{Camera, DEFAULT_EYE_Z, DEFAULT_FAR, DEFAULT_FOVY, DEFAULT_NEAR, NEG_PITCH_LIMIT, PITCH_LIMIT};
use obj_viewer::input::{key_delta, ArrowKey, DragState, DRAG_DIVISOR};
use obj_viewer::model::{Material, Mesh, Model};
use obj_viewer::render::{bind_group_layout, create_resources, draw_calls, BindingKind, DrawCall, Visibility};
use obj_viewer::scene::{example_layout, Scene, HUNDREDTH, NEG_ONE, ONE};
use obj_viewer::textures::TextureTable;
use obj_viewer::vertex::{
    index_buffer_bytes, vertex_attributes, vertex_buffer_bytes, VertexData, VertexFormat, MODEL_INDEX_OFFSET,
    NORMAL_OFFSET, POSITION_OFFSET, UV_OFFSET, VERTEX_STRIDE,
};

fn b(x: f32) -> u32 {
    x.to_bits()
}

fn bits(xs: &[f32]) -> Vec<u32> {
    xs.iter().map(|x| x.to_bits()).collect()
}

fn flip(v: u32) -> u32 {
    (1.0 - f32::from_bits(v)).to_bits()
}

/// Adds deltas in single precision, as the viewer's input handling does.
fn rotate(c: &mut Camera, dp: f32, dy: f32) {
    let p = f32::from_bits(c.pitch()) + dp;
    let y = f32::from_bits(c.yaw()) + dy;
    c.rotate_to(p.to_bits(), y.to_bits());
}

fn mesh(positions: &[f32], normals: &[f32], texcoords: &[f32], indices: &[u32]) -> Mesh {
    Mesh {
        positions: bits(positions),
        normals: bits(normals),
        texcoords: bits(texcoords),
        indices: indices.to_vec(),
        material_id: None,
    }
}

fn material(name: &str, tex: Option<&str>) -> Material {
    Material { name: name.to_string(), diffuse_texture: tex.map(|t| t.to_string()) }
}

fn identity() -> ([u32; 3], [u32; 3], [u32; 3]) {
    ([0; 3], [0; 3], [ONE; 3])
}

#[test]
fn pitch_limit_is_89_degrees() {
    let lim = std::f32::consts::PI * 89.0 / 180.0;
    assert_eq!(PITCH_LIMIT, lim.to_bits());
    assert_eq!(NEG_PITCH_LIMIT, (-std::f32::consts::PI * 89.0 / 180.0).to_bits());
    assert!((lim - 1.5533).abs() < 1e-4);
}

#[test]
fn camera_defaults() {
    let c = Camera::new(b(1.5));
    assert_eq!(c.aspect_ratio, b(1.5));
    assert_eq!(f32::from_bits(c.fovy), 1.4);
    assert_eq!(f32::from_bits(c.near_bound), 0.1);
    assert_eq!(f32::from_bits(c.far_bound), 1000.0);
    assert_eq!((DEFAULT_FOVY, DEFAULT_NEAR, DEFAULT_FAR), (c.fovy, c.near_bound, c.far_bound));
    assert_eq!(c.position, [0, 0, DEFAULT_EYE_Z]);
    assert_eq!(f32::from_bits(DEFAULT_EYE_Z), 2.0);
    assert_eq!(c.rotation, [0, 0, 0]);
    assert_eq!(c.look_at, [0, 0, 0]);
}

#[test]
fn pitch_clamps_at_positive_limit() {
    let mut c = Camera::new(b(1.0));
    for _ in 0..40 {
        rotate(&mut c, 0.1, 0.0);
    }
    assert_eq!(c.pitch(), PITCH_LIMIT);
    rotate(&mut c, 100.0, 0.0);
    assert_eq!(c.pitch(), PITCH_LIMIT);
    rotate(&mut c, -0.5, 0.0);
    assert_eq!(f32::from_bits(c.pitch()), f32::from_bits(PITCH_LIMIT) - 0.5);
}

#[test]
fn pitch_clamps_at_negative_limit() {
    let mut c = Camera::new(b(1.0));
    rotate(&mut c, -3.0, 0.0);
    assert_eq!(c.pitch(), NEG_PITCH_LIMIT);
    rotate(&mut c, -1e30, 0.0);
    assert_eq!(c.pitch(), NEG_PITCH_LIMIT);
    rotate(&mut c, 5.0, 0.0);
    assert_eq!(c.pitch(), PITCH_LIMIT);
}

#[test]
fn yaw_is_never_clamped() {
    let mut c = Camera::new(b(1.0));
    rotate(&mut c, 0.0, 10.0);
    rotate(&mut c, 0.0, 10.0);
    assert_eq!(f32::from_bits(c.yaw()), 20.0);
    rotate(&mut c, 0.0, -50.0);
    assert_eq!(f32::from_bits(c.yaw()), -30.0);
    assert_eq!(c.pitch(), 0);
    assert_eq!(c.rotation[2], 0);
}

#[test]
fn clamp_on_bit_patterns() {
    let lo = b(-1.0);
    let hi = b(2.0);
    assert_eq!(clamp(b(0.5), lo, hi), b(0.5));
    assert_eq!(clamp(b(-3.0), lo, hi), lo);
    assert_eq!(clamp(b(7.0), lo, hi), hi);
    assert_eq!(clamp(b(-0.0), lo, hi), b(-0.0));
    assert_eq!(clamp(b(f32::INFINITY), lo, hi), hi);
    assert_eq!(clamp(b(f32::NEG_INFINITY), lo, hi), lo);
    let nan = f32::NAN.to_bits();
    assert_eq!(clamp(nan, lo, hi), nan);
    assert!(less_than(b(-2.0), b(-1.0)));
    assert!(!less_than(b(0.0), b(-0.0)));
    assert!(!less_than(nan, hi));
}

#[test]
fn record_layout_offsets() {
    assert_eq!((POSITION_OFFSET, NORMAL_OFFSET, UV_OFFSET, MODEL_INDEX_OFFSET), (0, 12, 24, 32));
    assert_eq!(VERTEX_STRIDE, 36);
    let attrs = vertex_attributes();
    assert_eq!(attrs.len(), 4);
    let offsets: Vec<u64> = attrs.iter().map(|a| a.offset).collect();
    assert_eq!(offsets, vec![0, 12, 24, 32]);
    let locations: Vec<u32> = attrs.iter().map(|a| a.shader_location).collect();
    assert_eq!(locations, vec![0, 1, 2, 3]);
    assert_eq!(attrs[0].format, VertexFormat::Float32x3);
    assert_eq!(attrs[1].format, VertexFormat::Float32x3);
    assert_eq!(attrs[2].format, VertexFormat::Float32x2);
    assert_eq!(attrs[3].format, VertexFormat::Uint32);
}

#[test]
fn record_bytes_round_trip() {
    let v = VertexData {
        position: [b(1.0), b(-2.0), b(3.5)],
        normal: [b(0.0), b(1.0), b(0.0)],
        uv: [b(0.25), b(0.75)],
        model_idx: 0x0102_0304,
    };
    let bytes = v.to_bytes();
    assert_eq!(bytes.len(), 36);
    assert_eq!(&bytes[0..4], &1.0f32.to_le_bytes());
    assert_eq!(&bytes[4..8], &(-2.0f32).to_le_bytes());
    assert_eq!(&bytes[8..12], &3.5f32.to_le_bytes());
    assert_eq!(&bytes[12..16], &0.0f32.to_le_bytes());
    assert_eq!(&bytes[16..20], &1.0f32.to_le_bytes());
    assert_eq!(&bytes[24..28], &0.25f32.to_le_bytes());
    assert_eq!(&bytes[28..32], &0.75f32.to_le_bytes());
    assert_eq!(&bytes[32..36], &[4, 3, 2, 1]);
    assert_eq!(VertexData::from_bytes(&bytes), Some(v));
    assert_eq!(VertexData::from_bytes(&bytes[..35]), None);
}

#[test]
fn buffer_bytes() {
    assert_eq!(index_buffer_bytes(&vec![1, 0x0100, 0xdead_beef]), vec![1, 0, 0, 0, 0, 1, 0, 0, 0xef, 0xbe, 0xad, 0xde]);
    let v = VertexData { position: [1, 2, 3], normal: [4, 5, 6], uv: [7, 8], model_idx: 9 };
    let w = VertexData { model_idx: 10, ..v };
    let bytes = vertex_buffer_bytes(&vec![v, w]);
    assert_eq!(bytes.len(), 72);
    assert_eq!(&bytes[..36], v.to_bytes().as_slice());
    assert_eq!(&bytes[36..], w.to_bytes().as_slice());
}

#[test]
fn vertex_data_zips_and_flips() {
    let m = mesh(
        &[0.0, 1.0, 2.0, 3.0, 4.0, 5.0],
        &[0.0, 0.0, 1.0, 0.0, 1.0, 0.0],
        &[0.25, 0.25, 0.5, 1.0],
        &[0, 1, 0],
    );
    let model = Model::new(vec![m], vec![], identity());
    let vd = model.vertex_data(7, &flip);
    assert_eq!(vd.len(), 1);
    assert_eq!(vd[0].len(), 2);
    assert_eq!(vd[0][0].position, [b(0.0), b(1.0), b(2.0)]);
    assert_eq!(vd[0][1].position, [b(3.0), b(4.0), b(5.0)]);
    assert_eq!(vd[0][1].normal, [b(0.0), b(1.0), b(0.0)]);
    assert_eq!(vd[0][0].uv, [b(0.25), b(0.75)]);
    assert_eq!(vd[0][1].uv, [b(0.5), b(0.0)]);
    assert!(vd[0].iter().all(|v| v.model_idx == 7));
}

#[test]
fn vertex_data_without_normals_uses_zeros() {
    let m = mesh(&[1.0, 1.0, 1.0, 2.0, 2.0, 2.0, 3.0, 3.0, 3.0], &[], &[0.0, 0.0, 0.0, 0.5, 1.0, 0.2], &[0, 1, 2]);
    let model = Model::new(vec![m], vec![], identity());
    let vd = model.vertex_data(0, &flip);
    assert_eq!(vd[0].len(), 3);
    for v in &vd[0] {
        assert_eq!(v.normal, [0, 0, 0]);
    }
    assert_eq!(f32::from_bits(vd[0][2].uv[1]), 1.0 - 0.2f32);
}

#[test]
fn vertex_data_is_repeatable() {
    let m1 = mesh(&[1.0, 2.0, 3.0], &[0.0, 1.0, 0.0], &[0.1, 0.9], &[0, 0, 0]);
    let m2 = mesh(&[4.0, 5.0, 6.0, 7.0, 8.0, 9.0], &[], &[0.3, 0.4, 0.6, 0.7], &[0, 1, 1]);
    let model = Model::new(vec![m1, m2], vec![], identity());
    let a = model.vertex_data(3, &flip);
    let c = model.vertex_data(3, &flip);
    assert_eq!(a, c);
    assert_eq!(a.len(), 2);
    assert_eq!(a[1].len(), 2);
}

#[test]
fn short_arrays_limit_the_vertex_count() {
    let m = mesh(&[1.0, 2.0, 3.0, 4.0, 5.0, 6.0, 7.0], &[], &[0.1, 0.9], &[]);
    let model = Model::new(vec![m], vec![], identity());
    assert_eq!(model.vertex_data(0, &flip)[0].len(), 1);
}

#[test]
fn texture_table_keeps_first_insertion_order() {
    let m1 = Model::new(
        vec![],
        vec![material("wood", Some("wood.png")), material("plain", None), material("metal", Some("metal.png"))],
        identity(),
    );
    let m2 = Model::new(
        vec![],
        vec![material("stone", Some("stone.png")), material("wood", Some("wood2.png"))],
        identity(),
    );
    let table = TextureTable::from_models(&vec![m1, m2]);
    assert_eq!(table.len(), 3);
    assert_eq!(table.entry(0), Some(("wood".to_string(), "wood2.png".to_string())));
    assert_eq!(table.entry(1), Some(("metal".to_string(), "metal.png".to_string())));
    assert_eq!(table.entry(2), Some(("stone".to_string(), "stone.png".to_string())));
    assert_eq!(table.entry(3), None);
    let again: Vec<_> = (0..3).map(|i| table.entry(i)).collect();
    let first: Vec<_> = (0..3).map(|i| table.entry(i)).collect();
    assert_eq!(again, first);
}

#[test]
fn shared_file_under_two_names_gives_two_entries() {
    let m = Model::new(vec![], vec![material("a", Some("same.png")), material("b", Some("same.png"))], identity());
    let table = TextureTable::from_models(&vec![m]);
    assert_eq!(table.len(), 2);
}

fn two_model_scene() -> Scene {
    let tri = mesh(&[0.0; 9], &[], &[0.0; 6], &[0, 1, 2]);
    let quad = mesh(&[0.0; 12], &[0.0; 12], &[0.0; 8], &[0, 1, 2, 0, 2, 3]);
    let single = Model::new(vec![tri.clone()], vec![material("m0", Some("a.png"))], identity());
    let double = Model::new(
        vec![quad, tri],
        vec![material("m1", Some("b.png")), material("m2", Some("a.png"))],
        identity(),
    );
    Scene::new(vec![single, double], b(1.0))
}

#[test]
fn end_to_end_frame() {
    let scene = two_model_scene();
    assert_eq!(scene.textures.len(), 3);
    let layout = bind_group_layout(scene.textures.len());
    assert_eq!(layout.len(), 4);
    assert_eq!(layout[0].kind, BindingKind::TransformStorage);
    assert_eq!(layout[0].visibility, Visibility::Vertex);
    assert_eq!(layout[1].kind, BindingKind::TextureArray);
    assert_eq!(layout[1].count, Some(3));
    assert_eq!(layout[2].kind, BindingKind::FilteringSampler);
    assert_eq!(layout[3].kind, BindingKind::CameraUniform);
    let bindings: Vec<u32> = layout.iter().map(|s| s.binding).collect();
    assert_eq!(bindings, vec![0, 1, 2, 3]);

    let frame = create_resources([640, 480], &scene.models, &flip);
    let vertex_buffers: usize = frame.buffers.iter().map(|row| row.len()).sum();
    assert_eq!(vertex_buffers, 3);
    assert_eq!(frame.buffers[0][0].vertex_bytes.len(), 3 * 36);
    assert_eq!(frame.buffers[1][0].vertex_bytes.len(), 4 * 36);
    assert_eq!(frame.buffers[1][0].index_bytes.len(), 6 * 4);
    assert_eq!(frame.buffers[1][1].vertices[0].model_idx, 1);

    let draws = draw_calls(&scene.models);
    assert_eq!(
        draws,
        vec![
            DrawCall { model_idx: 0, mesh_idx: 0, index_count: 3 },
            DrawCall { model_idx: 1, mesh_idx: 0, index_count: 6 },
            DrawCall { model_idx: 1, mesh_idx: 1, index_count: 3 },
        ]
    );
}

#[test]
fn resize_gives_fresh_depth_size() {
    let scene = two_model_scene();
    let first = create_resources([640, 480], &scene.models, &flip);
    let second = create_resources([1024, 768], &scene.models, &flip);
    assert_eq!(first.depth_size, [640, 480]);
    assert_eq!(second.depth_size, [1024, 768]);
}

#[test]
fn drag_of_200_pixels_turns_yaw_by_one_radian() {
    let mut drag = DragState::new();
    let mut cam = Camera::new(b(1.0));
    let divisor = f64::from_bits(DRAG_DIVISOR);
    assert_eq!(divisor, 200.0);
    let mut rotations = 0;
    drag.button(true);
    for (x, y) in [(100.0f64, 50.0f64), (300.0, 50.0)] {
        if let Some((px, py)) = drag.cursor_moved((x.to_bits(), y.to_bits())) {
            let dx = x - f64::from_bits(px);
            let dy = y - f64::from_bits(py);
            let (dp, dyaw) = ((-dy / divisor) as f32, (-dx / divisor) as f32);
            assert_eq!((dp, dyaw), (0.0, -1.0));
            rotate(&mut cam, dp, dyaw);
            rotations += 1;
        }
    }
    assert_eq!(rotations, 1);
    assert_eq!(f32::from_bits(cam.yaw()), -1.0);
    assert_eq!(f32::from_bits(cam.pitch()), 0.0);
    drag.button(false);
    assert_eq!(drag.cursor_moved((0, 0)), None);
}

#[test]
fn arrow_keys_step_by_a_tenth() {
    assert_eq!(key_delta(ArrowKey::Left), (0, b(-0.1)));
    assert_eq!(key_delta(ArrowKey::Right), (0, b(0.1)));
    assert_eq!(key_delta(ArrowKey::Up), (b(0.1), 0));
    assert_eq!(key_delta(ArrowKey::Down), (b(-0.1), 0));
}

#[test]
fn example_scene_layout() {
    let l = example_layout();
    assert_eq!(l[0].0, "./models/teapot.obj");
    assert_eq!(l[0].1, ([b(1.0); 3], [0; 3], [b(0.01); 3]));
    assert_eq!(l[1].0, "./models/cube.obj");
    assert_eq!(l[1].1, ([b(-1.0); 3], [0; 3], [b(1.0); 3]));
    assert_eq!((ONE, NEG_ONE, HUNDREDTH), (b(1.0), b(-1.0), b(0.01)));
}

#[test]
fn texture_slots_follow_table_order() {
    let m = Model::new(
        vec![],
        vec![material("b", Some("1.png")), material("a", Some("2.png")), material("b", Some("3.png"))],
        identity(),
    );
    let table = TextureTable::from_models(&vec![m]);
    assert_eq!(table.slot_of("b"), Some(0));
    assert_eq!(table.slot_of("a"), Some(1));
    assert_eq!(table.slot_of("c"), None);
}
