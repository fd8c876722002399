use arcturus::{blend_over, Document, Layer, RasterLayer, Renderer, Scene3DLayer, VectorLayer, VectorShape};

fn rect(x: i32, y: i32, width: i32, height: i32, fill: [u8; 4]) -> VectorShape {
    VectorShape::Rectangle { x, y, width, height, stroke_width: 2, fill_color: fill, stroke_color: [0, 0, 0, 255] }
}

fn pixel(r: &Renderer, width: usize, x: usize, y: usize) -> [u8; 4] {
    let fb = r.get_framebuffer();
    let i = (y * width + x) * 4;
    [fb[i], fb[i + 1], fb[i + 2], fb[i + 3]]
}

#[test]
fn renderer_new_is_zeroed_and_clear_fills() {
    let mut r = Renderer::new(3, 2);
    assert_eq!(r.get_framebuffer(), &[0u8; 24][..]);
    r.clear([10, 20, 30, 40]);
    let fb = r.get_framebuffer();
    assert_eq!(fb.len(), 24);
    for chunk in fb.chunks(4) {
        assert_eq!(chunk, &[10, 20, 30, 40]);
    }
}

#[test]
fn blend_half_red_over_opaque_blue() {
    // alpha 128/255 over opaque blue: red 128, blue floor(255 * 127 / 255) = 127, alpha 255
    assert_eq!(blend_over([255, 0, 0, 128], [0, 0, 255, 255]), [128, 0, 127, 255]);
}

#[test]
fn blend_exact_values() {
    assert_eq!(blend_over([10, 20, 30, 255], [200, 200, 200, 255]), [10, 20, 30, 255]);
    assert_eq!(blend_over([10, 20, 30, 0], [200, 100, 50, 255]), [200, 100, 50, 255]);
    assert_eq!(blend_over([10, 20, 30, 0], [200, 100, 50, 0]), [0, 0, 0, 0]);
    // dst alpha 128 scales the destination color and adds to the source alpha
    assert_eq!(blend_over([0, 0, 0, 0], [255, 255, 255, 128]), [128, 128, 128, 128]);
    assert_eq!(blend_over([100, 100, 100, 100], [0, 0, 0, 100]), [39, 39, 39, 160]);
}

#[test]
fn blend_through_renderer_matches() {
    let mut r = Renderer::new(1, 1);
    r.clear([0, 0, 255, 255]);
    let mut v = VectorLayer::new();
    v.add_shape(rect(0, 0, 1, 1, [255, 0, 0, 128]));
    r.render_layer(&Layer::Vector(v));
    assert_eq!(pixel(&r, 1, 0, 0), [128, 0, 127, 255]);
}

#[test]
fn opaque_raster_filling_canvas_is_reproduced() {
    let (w, h) = (4u32, 3u32);
    let mut layer = RasterLayer::new(w, h);
    for y in 0..h {
        for x in 0..w {
            layer.set_pixel(x, y, [(x * 40) as u8, (y * 70) as u8, (x + y) as u8, 255]);
        }
    }
    let mut r = Renderer::new(w, h);
    r.clear([9, 9, 9, 9]);
    r.render_layer(&Layer::Raster(layer));
    for y in 0..h {
        for x in 0..w {
            assert_eq!(pixel(&r, w as usize, x as usize, y as usize), [(x * 40) as u8, (y * 70) as u8, (x + y) as u8, 255]);
        }
    }
}

#[test]
fn raster_opacity_scales_before_blending() {
    let mut layer = RasterLayer::new(1, 1);
    layer.set_pixel(0, 0, [200, 100, 50, 255]);
    layer.set_opacity(128);
    let mut r = Renderer::new(1, 1);
    r.clear([0, 0, 0, 0]);
    r.render_layer(&Layer::Raster(layer));
    // scaled to [100, 50, 25, 128], then drawn over transparent black
    assert_eq!(pixel(&r, 1, 0, 0), [50, 25, 12, 128]);
}

#[test]
fn raster_smaller_than_canvas_is_clipped() {
    let mut layer = RasterLayer::new(2, 1);
    layer.set_pixel(0, 0, [1, 2, 3, 255]);
    layer.set_pixel(1, 0, [4, 5, 6, 255]);
    let mut r = Renderer::new(3, 2);
    r.clear([7, 7, 7, 255]);
    r.render_layer(&Layer::Raster(layer));
    assert_eq!(pixel(&r, 3, 0, 0), [1, 2, 3, 255]);
    assert_eq!(pixel(&r, 3, 1, 0), [4, 5, 6, 255]);
    assert_eq!(pixel(&r, 3, 2, 0), [7, 7, 7, 255]);
    assert_eq!(pixel(&r, 3, 0, 1), [7, 7, 7, 255]);
}

#[test]
fn raster_larger_than_canvas_is_clipped() {
    let mut layer = RasterLayer::new(5, 5);
    layer.set_pixel(1, 1, [50, 60, 70, 255]);
    layer.set_pixel(4, 4, [1, 1, 1, 255]);
    let mut r = Renderer::new(2, 2);
    r.clear([0, 0, 0, 255]);
    r.render_layer(&Layer::Raster(layer));
    assert_eq!(pixel(&r, 2, 1, 1), [50, 60, 70, 255]);
    assert_eq!(pixel(&r, 2, 0, 0), [0, 0, 0, 255]);
}

#[test]
fn overlapping_rectangles_later_wins() {
    let a = rect(0, 0, 3, 3, [255, 0, 0, 255]);
    let b = rect(1, 1, 3, 3, [0, 255, 0, 255]);
    let mut ab = VectorLayer::new();
    ab.add_shape(a);
    ab.add_shape(b);
    let mut ba = VectorLayer::new();
    ba.add_shape(b);
    ba.add_shape(a);
    let mut r = Renderer::new(5, 5);
    r.clear([0, 0, 0, 255]);
    r.render_layer(&Layer::Vector(ab));
    assert_eq!(pixel(&r, 5, 2, 2), [0, 255, 0, 255]);
    assert_eq!(pixel(&r, 5, 0, 0), [255, 0, 0, 255]);
    assert_eq!(pixel(&r, 5, 3, 3), [0, 255, 0, 255]);
    assert_eq!(pixel(&r, 5, 4, 4), [0, 0, 0, 255]);
    r.clear([0, 0, 0, 255]);
    r.render_layer(&Layer::Vector(ba));
    assert_eq!(pixel(&r, 5, 2, 2), [255, 0, 0, 255]);
    assert_eq!(pixel(&r, 5, 3, 3), [0, 255, 0, 255]);
}

#[test]
fn rectangle_clamped_to_framebuffer() {
    let mut v = VectorLayer::new();
    v.add_shape(rect(-2, -2, 3, 3, [1, 1, 1, 255]));
    v.add_shape(rect(3, 3, 100, 100, [2, 2, 2, 255]));
    v.add_shape(rect(1, 1, -1, 2, [3, 3, 3, 255]));
    let mut r = Renderer::new(4, 4);
    r.clear([0, 0, 0, 255]);
    r.render_layer(&Layer::Vector(v));
    assert_eq!(pixel(&r, 4, 0, 0), [1, 1, 1, 255]);
    assert_eq!(pixel(&r, 4, 1, 0), [0, 0, 0, 255]);
    assert_eq!(pixel(&r, 4, 3, 3), [2, 2, 2, 255]);
    assert_eq!(pixel(&r, 4, 1, 1), [0, 0, 0, 255]);
    assert_eq!(pixel(&r, 4, 2, 2), [0, 0, 0, 255]);
}

#[test]
fn lines_and_circles_draw_nothing() {
    let mut v = VectorLayer::new();
    v.add_shape(VectorShape::Line { x1: 0, y1: 0, x2: 3, y2: 3, stroke_width: 3, color: [255, 255, 255, 255] });
    v.add_shape(VectorShape::Circle { x: 1, y: 1, radius: 5, stroke_width: 1, fill_color: [255, 255, 255, 255], stroke_color: [255, 255, 255, 255] });
    let mut r = Renderer::new(3, 3);
    r.clear([5, 6, 7, 8]);
    r.render_layer(&Layer::Vector(v));
    for chunk in r.get_framebuffer().chunks(4) {
        assert_eq!(chunk, &[5, 6, 7, 8]);
    }
}

#[test]
fn invisible_layer_leaves_cleared_buffer() {
    let mut raster = RasterLayer::new(2, 2);
    raster.set_pixel(0, 0, [255, 255, 255, 255]);
    raster.set_visible(false);
    let mut vector = VectorLayer::new();
    vector.add_shape(rect(0, 0, 2, 2, [255, 0, 0, 255]));
    vector.set_visible(false);
    let mut r = Renderer::new(2, 2);
    r.clear([1, 2, 3, 4]);
    r.render_layer(&Layer::Raster(raster));
    r.render_layer(&Layer::Vector(vector));
    for chunk in r.get_framebuffer().chunks(4) {
        assert_eq!(chunk, &[1, 2, 3, 4]);
    }
}

#[test]
fn scene_layer_draws_nothing() {
    let mut r = Renderer::new(2, 2);
    r.clear([4, 3, 2, 1]);
    r.render_layer(&Layer::Scene3D(Scene3DLayer::new()));
    for chunk in r.get_framebuffer().chunks(4) {
        assert_eq!(chunk, &[4, 3, 2, 1]);
    }
}

#[test]
fn remove_layer_out_of_range_and_in_range() {
    let mut doc = Document::new("Doc", 10, 10);
    assert_eq!(doc.layer_count(), 0);
    assert!(doc.remove_layer(0).is_none());
    doc.add_layer(Layer::Raster(RasterLayer::new(1, 1)));
    doc.add_layer(Layer::Vector(VectorLayer::new()));
    doc.add_layer(Layer::Scene3D(Scene3DLayer::new()));
    assert_eq!(doc.layer_count(), 3);
    assert!(doc.remove_layer(3).is_none());
    assert!(doc.remove_layer(usize::MAX).is_none());
    assert_eq!(doc.layer_count(), 3);
    let removed = doc.remove_layer(1).unwrap();
    assert_eq!(removed.layer_type(), "vector");
    assert_eq!(doc.layer_count(), 2);
    assert_eq!(doc.get_layer(0).unwrap().layer_type(), "raster");
    assert_eq!(doc.get_layer(1).unwrap().layer_type(), "scene3d");
    assert!(doc.get_layer(2).is_none());
}

#[test]
fn document_get_layer_mut_edits_in_place() {
    let mut doc = Document::new("Doc", 4, 4);
    assert_eq!(doc.name, "Doc");
    assert_eq!((doc.width, doc.height), (4, 4));
    doc.add_layer(Layer::Vector(VectorLayer::new()));
    assert!(doc.get_layer_mut(1).is_none());
    if let Some(layer) = doc.get_layer_mut(0) {
        layer.set_name("Shapes".to_string());
    }
    assert_eq!(doc.get_layer(0).unwrap().name(), "Shapes");
}

#[test]
fn end_to_end_red_background_blue_rectangle() {
    let mut doc = Document::new("Scene", 800, 600);
    let mut background = RasterLayer::new(800, 600);
    for y in 0..600 {
        for x in 0..800 {
            background.set_pixel(x, y, [255, 0, 0, 255]);
        }
    }
    doc.add_layer(Layer::Raster(background));
    let mut shapes = VectorLayer::new();
    shapes.add_shape(rect(100, 100, 200, 150, [0, 0, 255, 255]));
    doc.add_layer(Layer::Vector(shapes));
    let mut r = Renderer::new(doc.width, doc.height);
    r.clear([0, 0, 0, 0]);
    for i in 0..doc.layer_count() {
        r.render_layer(doc.get_layer(i).unwrap());
    }
    assert_eq!(pixel(&r, 800, 150, 150), [0, 0, 255, 255]);
    assert_eq!(pixel(&r, 800, 10, 10), [255, 0, 0, 255]);
    assert_eq!(pixel(&r, 800, 299, 249), [0, 0, 255, 255]);
    assert_eq!(pixel(&r, 800, 300, 250), [255, 0, 0, 255]);
}

#[test]
fn plugin_and_ui_stubs_do_nothing() {
    let plugin = arcturus::AiPlugin;
    plugin.generate_image("a red fox");
    let mut ui = arcturus::AppUI::new();
    ui.draw_ui();
}
