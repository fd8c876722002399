use arcturus::scene3d::{F32_FIVE_BITS, F32_ONE_BITS, F32_ZERO_BITS};
use arcturus::{Layer, Material, Mesh, RasterLayer, Scene3DLayer, VectorLayer, VectorShape, Vertex};

fn rect(x: i32, y: i32, width: i32, height: i32, fill: [u8; 4]) -> VectorShape {
    VectorShape::Rectangle { x, y, width, height, stroke_width: 1, fill_color: fill, stroke_color: [0, 0, 0, 255] }
}

#[test]
fn raster_new_is_transparent_black() {
    let layer = RasterLayer::new(3, 2);
    assert_eq!(layer.dimensions(), (3, 2));
    assert_eq!(layer.name(), "New Raster Layer");
    assert!(layer.visible());
    assert_eq!(layer.opacity(), 255);
    for y in 0..2 {
        for x in 0..3 {
            assert_eq!(layer.get_pixel(x, y), Some([0, 0, 0, 0]));
        }
    }
}

#[test]
fn raster_set_then_get_round_trip() {
    let mut layer = RasterLayer::new(4, 3);
    layer.set_pixel(3, 2, [1, 2, 3, 4]);
    layer.set_pixel(0, 0, [9, 8, 7, 6]);
    assert_eq!(layer.get_pixel(3, 2), Some([1, 2, 3, 4]));
    assert_eq!(layer.get_pixel(0, 0), Some([9, 8, 7, 6]));
    assert_eq!(layer.get_pixel(2, 2), Some([0, 0, 0, 0]));
    assert_eq!(layer.get_pixel(0, 1), Some([0, 0, 0, 0]));
}

#[test]
fn raster_out_of_bounds_is_a_no_op() {
    let mut layer = RasterLayer::new(2, 2);
    layer.set_pixel(1, 1, [5, 5, 5, 5]);
    layer.set_pixel(2, 0, [255, 255, 255, 255]);
    layer.set_pixel(0, 2, [255, 255, 255, 255]);
    layer.set_pixel(u32::MAX, u32::MAX, [255, 255, 255, 255]);
    assert_eq!(layer.get_pixel(2, 0), None);
    assert_eq!(layer.get_pixel(0, 2), None);
    assert_eq!(layer.get_pixel(u32::MAX, 0), None);
    assert_eq!(layer.get_pixel(0, 0), Some([0, 0, 0, 0]));
    assert_eq!(layer.get_pixel(1, 0), Some([0, 0, 0, 0]));
    assert_eq!(layer.get_pixel(0, 1), Some([0, 0, 0, 0]));
    assert_eq!(layer.get_pixel(1, 1), Some([5, 5, 5, 5]));
}

#[test]
fn raster_empty_layer_has_no_pixels() {
    let layer = RasterLayer::new(0, 0);
    assert_eq!(layer.get_pixel(0, 0), None);
}

#[test]
fn set_opacity_clamps_into_range() {
    let mut layer = RasterLayer::new(1, 1);
    layer.set_opacity(-5);
    assert_eq!(layer.opacity(), 0);
    layer.set_opacity(300);
    assert_eq!(layer.opacity(), 255);
    layer.set_opacity(128);
    assert_eq!(layer.opacity(), 128);
    layer.set_opacity(0);
    assert_eq!(layer.opacity(), 0);
    layer.set_opacity(255);
    assert_eq!(layer.opacity(), 255);
    layer.set_opacity(i32::MIN);
    assert_eq!(layer.opacity(), 0);
    layer.set_opacity(i32::MAX);
    assert_eq!(layer.opacity(), 255);
}

#[test]
fn layer_enum_set_opacity_clamps() {
    let mut layer = Layer::Vector(VectorLayer::new());
    layer.set_opacity(-1);
    assert_eq!(layer.opacity(), 0);
    layer.set_opacity(256);
    assert_eq!(layer.opacity(), 255);
    layer.set_opacity(77);
    assert_eq!(layer.opacity(), 77);
    let mut scene = Scene3DLayer::new();
    scene.set_opacity(1000);
    assert_eq!(scene.opacity(), 255);
    let mut vector = VectorLayer::new();
    vector.set_opacity(-1000);
    assert_eq!(vector.opacity(), 0);
}

#[test]
fn layer_properties_through_enum() {
    let mut layer = Layer::Raster(RasterLayer::new(2, 2));
    assert_eq!(layer.layer_type(), "raster");
    assert_eq!(layer.name(), "New Raster Layer");
    layer.set_name("Background".to_string());
    assert_eq!(layer.name(), "Background");
    assert!(layer.visible());
    layer.set_visible(false);
    assert!(!layer.visible());
    assert_eq!(Layer::Vector(VectorLayer::new()).layer_type(), "vector");
    assert_eq!(Layer::Scene3D(Scene3DLayer::new()).layer_type(), "scene3d");
    assert_eq!(Layer::Vector(VectorLayer::new()).name(), "New Vector Layer");
    assert_eq!(Layer::Scene3D(Scene3DLayer::new()).name(), "New 3D Scene");
}

#[test]
fn vector_shapes_keep_order_and_remove() {
    let mut layer = VectorLayer::new();
    assert_eq!(layer.layer_type(), "vector");
    assert!(layer.get_shapes().is_empty());
    let a = rect(0, 0, 1, 1, [1, 1, 1, 255]);
    let b = VectorShape::Line { x1: 0, y1: 0, x2: 5, y2: 5, stroke_width: 1, color: [2, 2, 2, 255] };
    let c = VectorShape::Circle { x: 3, y: 3, radius: 2, stroke_width: 1, fill_color: [3, 3, 3, 255], stroke_color: [0, 0, 0, 255] };
    layer.add_shape(a);
    layer.add_shape(b);
    layer.add_shape(c);
    assert_eq!(layer.get_shapes(), &[a, b, c]);
    assert_eq!(layer.remove_shape(3), None);
    assert_eq!(layer.get_shapes().len(), 3);
    assert_eq!(layer.remove_shape(1), Some(b));
    assert_eq!(layer.get_shapes(), &[a, c]);
}

#[test]
fn vector_get_shape_mut_edits_in_place() {
    let mut layer = VectorLayer::new();
    layer.add_shape(rect(0, 0, 1, 1, [1, 1, 1, 255]));
    assert!(layer.get_shape_mut(1).is_none());
    if let Some(shape) = layer.get_shape_mut(0) {
        *shape = rect(5, 5, 2, 2, [9, 9, 9, 255]);
    }
    assert_eq!(layer.get_shapes(), &[rect(5, 5, 2, 2, [9, 9, 9, 255])]);
}

#[test]
fn scene_new_camera_and_meshes() {
    let mut scene = Scene3DLayer::new();
    assert_eq!(scene.layer_type(), "scene3d");
    assert_eq!(F32_ZERO_BITS, 0.0f32.to_bits());
    assert_eq!(F32_ONE_BITS, 1.0f32.to_bits());
    assert_eq!(F32_FIVE_BITS, 5.0f32.to_bits());
    let (position, target, up) = scene.get_camera_view();
    assert_eq!(position, [0.0f32.to_bits(), 0.0f32.to_bits(), 5.0f32.to_bits()]);
    assert_eq!(target, [0.0f32.to_bits(); 3]);
    assert_eq!(up, [0.0f32.to_bits(), 1.0f32.to_bits(), 0.0f32.to_bits()]);
    scene.set_camera_position([1.5f32.to_bits(); 3]);
    scene.set_camera_target([2.0f32.to_bits(); 3]);
    scene.set_camera_up([(-1.0f32).to_bits(); 3]);
    assert_eq!(
        scene.get_camera_view(),
        ([1.5f32.to_bits(); 3], [2.0f32.to_bits(); 3], [(-1.0f32).to_bits(); 3])
    );
    let material = Material { diffuse_color: [1.0f32.to_bits(); 4], specular_color: [0; 4], shininess: 32.0f32.to_bits() };
    let vertex = Vertex { position: [0; 3], normal: [0, 0, 1.0f32.to_bits()], uv: [0; 2] };
    scene.add_mesh(Mesh { vertices: vec![vertex; 3], indices: vec![0, 1, 2], material });
    scene.add_mesh(Mesh { vertices: Vec::new(), indices: Vec::new(), material });
    assert_eq!(scene.get_meshes().len(), 2);
    assert_eq!(scene.get_meshes()[0].indices, vec![0, 1, 2]);
    if let Some(mesh) = scene.get_mesh_mut(1) {
        mesh.indices.push(7);
    }
    assert_eq!(scene.get_meshes()[1].indices, vec![7]);
    assert!(scene.get_mesh_mut(2).is_none());
    assert!(scene.remove_mesh(2).is_none());
    let removed = scene.remove_mesh(0).unwrap();
    assert_eq!(removed.vertices.len(), 3);
    assert_eq!(scene.get_meshes().len(), 1);
}
