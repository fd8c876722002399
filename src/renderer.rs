//! The compositor: blends layers, in order, into an RGBA framebuffer.
use vstd::prelude::*;
use crate::color::{
    apply_opacity, blend, blend_over, lemma_blend_opaque, lemma_full_opacity, scale_by_opacity, CHANNEL_MAX,
};
use crate::grid::{is_grid, lemma_cell_bounds, load_pixel, pixel_at, store_pixel};
use crate::layer::{Layer, OPACITY_MAX};
use crate::raster::RasterLayer;
use crate::scene3d::Scene3DLayer;
use crate::vector::{VectorLayer, VectorShape};

verus! {

/// What a raster layer's pixel `(x, y)`, scaled by the layer's opacity, gives
/// when drawn over `dst`.
pub open spec fn raster_over(layer: &RasterLayer, x: int, y: int, dst: Seq<u8>) -> Seq<u8> {
    blend(apply_opacity(layer.pixel(x, y), layer.spec_properties().opacity as int), dst)
}

/// Pixel `(x, y)` lies in the rectangle at `(rx, ry)` of the given size.
pub open spec fn rect_covers(rx: int, ry: int, width: int, height: int, x: int, y: int) -> bool {
    rx <= x < rx + width && ry <= y < ry + height
}

/// Pixel `(x, y)`, holding `dst`, after `shape` is drawn. Only rectangles are
/// filled; lines and circles leave pixels as they are.
pub open spec fn shape_over(shape: VectorShape, x: int, y: int, dst: Seq<u8>) -> Seq<u8> {
    match shape {
        VectorShape::Rectangle { x: rx, y: ry, width, height, fill_color, .. } => {
            if rect_covers(rx as int, ry as int, width as int, height as int, x, y) {
                blend(fill_color@, dst)
            } else {
                dst
            }
        },
        _ => dst,
    }
}

/// Pixel `(x, y)`, holding `dst`, after every shape of `shapes` is drawn, first to last.
pub open spec fn shapes_over(shapes: Seq<VectorShape>, x: int, y: int, dst: Seq<u8>) -> Seq<u8>
    decreases shapes.len(),
{
    if shapes.len() == 0 {
        dst
    } else {
        shape_over(shapes.last(), x, y, shapes_over(shapes.drop_last(), x, y, dst))
    }
}

/// Pixel `(x, y)`, holding `dst`, after `layer` is composited: invisible
/// layers and 3D scenes leave it as it is.
pub open spec fn layer_over(layer: Layer, x: int, y: int, dst: Seq<u8>) -> Seq<u8> {
    if !layer.spec_properties().visible {
        dst
    } else {
        match layer {
            Layer::Raster(r) => if r.in_bounds(x, y) {
                raster_over(&r, x, y, dst)
            } else {
                dst
            },
            Layer::Vector(v) => shapes_over(v.spec_shapes(), x, y, dst),
            Layer::Scene3D(_) => dst,
        }
    }
}

/// `after` is `before` with `layer` composited onto its framebuffer.
pub open spec fn composited(before: Renderer, after: Renderer, layer: Layer) -> bool {
    &&& after.spec_width() == before.spec_width()
    &&& after.spec_height() == before.spec_height()
    &&& forall|x: int, y: int|
        before.in_bounds(x, y) ==> #[trigger] after.pixel(x, y) == layer_over(layer, x, y, before.pixel(x, y))
}

/// `after` is `before` with every framebuffer pixel set to `color`.
pub open spec fn cleared(before: Renderer, after: Renderer, color: Seq<u8>) -> bool {
    &&& after.spec_width() == before.spec_width()
    &&& after.spec_height() == before.spec_height()
    &&& forall|x: int, y: int| before.in_bounds(x, y) ==> #[trigger] after.pixel(x, y) == color
}

/// `v` clamped into `[0, hi]`.
pub open spec fn clamp_to(v: int, hi: int) -> int {
    if v < 0 {
        0
    } else if v > hi {
        hi
    } else {
        v
    }
}

fn clamp_coord(v: i64, hi: u32) -> (r: u32)
    ensures
        r as int == clamp_to(v as int, hi as int),
{
    if v < 0 {
        0
    } else if v > hi as i64 {
        hi
    } else {
        v as u32
    }
}

/// A software compositor owning a `width * height` RGBA framebuffer.
pub struct Renderer {
    width: u32,
    height: u32,
    framebuffer: Vec<u8>,
}

impl Renderer {
    #[verifier::type_invariant]
    spec fn inv(&self) -> bool {
        is_grid(self.framebuffer@, self.width as int, self.height as int)
    }

    /// Width of the framebuffer in pixels.
    pub closed spec fn spec_width(&self) -> nat {
        self.width as nat
    }

    /// Height of the framebuffer in pixels.
    pub closed spec fn spec_height(&self) -> nat {
        self.height as nat
    }

    /// The framebuffer's bytes, row-major, four per pixel.
    pub closed spec fn spec_framebuffer(&self) -> Seq<u8> {
        self.framebuffer@
    }

    /// The RGBA bytes of framebuffer pixel `(x, y)`.
    pub open spec fn pixel(&self, x: int, y: int) -> Seq<u8> {
        pixel_at(self.spec_framebuffer(), self.spec_width() as int, x, y)
    }

    /// `(x, y)` lies inside the framebuffer.
    pub open spec fn in_bounds(&self, x: int, y: int) -> bool {
        0 <= x < self.spec_width() && 0 <= y < self.spec_height()
    }

    /// A renderer whose framebuffer is transparent black.
    pub fn new(width: u32, height: u32) -> (r: Renderer)
        requires
            4 * (width as int) * (height as int) <= usize::MAX,
        ensures
            r.spec_width() == width,
            r.spec_height() == height,
            r.spec_framebuffer().len() == 4 * (width as int) * (height as int),
            forall|x: int, y: int| r.in_bounds(x, y) ==> #[trigger] r.pixel(x, y) == seq![0u8, 0u8, 0u8, 0u8],
    {
        assert(4 * (width as int) * (height as int) == 4 * ((width as int) * (height as int))) by (nonlinear_arith);
        assert(0 <= (width as int) * (height as int)) by (nonlinear_arith);
        let n: usize = 4 * ((width as usize) * (height as usize));
        let framebuffer: Vec<u8> = vec![0u8; n];
        let r = Renderer { width, height, framebuffer };
        assert forall|x: int, y: int| r.in_bounds(x, y) implies #[trigger] r.pixel(x, y) == seq![0u8, 0u8, 0u8, 0u8] by {
            lemma_cell_bounds(width as int, height as int, x, y);
            assert(r.pixel(x, y) =~= seq![0u8, 0u8, 0u8, 0u8]);
        }
        r
    }

    /// Blends `src` over framebuffer pixel `(x, y)`.
    fn blend_pixel(&mut self, x: u32, y: u32, src: [u8; 4])
        requires
            old(self).in_bounds(x as int, y as int),
        ensures
            final(self).spec_width() == old(self).spec_width(),
            final(self).spec_height() == old(self).spec_height(),
            forall|xx: int, yy: int|
                old(self).in_bounds(xx, yy) ==> #[trigger] final(self).pixel(xx, yy) == if xx == x && yy == y {
                    blend(src@, old(self).pixel(xx, yy))
                } else {
                    old(self).pixel(xx, yy)
                },
    {
        proof {
            use_type_invariant(&*self);
        }
        let dst = load_pixel(&self.framebuffer, self.width, self.height, x, y);
        let out = blend_over(src, dst);
        store_pixel(&mut self.framebuffer, self.width, self.height, x, y, out);
    }

    fn render_raster_layer(&mut self, layer: &RasterLayer)
        ensures
            final(self).spec_width() == old(self).spec_width(),
            final(self).spec_height() == old(self).spec_height(),
            forall|x: int, y: int|
                old(self).in_bounds(x, y) ==> #[trigger] final(self).pixel(x, y) == if layer.in_bounds(x, y) {
                    raster_over(layer, x, y, old(self).pixel(x, y))
                } else {
                    old(self).pixel(x, y)
                },
    {
        let ghost before = *self;
        let (layer_width, layer_height) = layer.dimensions();
        let opacity = layer.opacity();
        let rows = if self.height < layer_height { self.height } else { layer_height };
        let cols = if self.width < layer_width { self.width } else { layer_width };
        let mut y: u32 = 0;
        while y < rows
            invariant
                rows <= before.spec_height(),
                rows <= layer.spec_height(),
                rows == before.spec_height() || rows == layer.spec_height(),
                cols <= before.spec_width(),
                cols <= layer.spec_width(),
                cols == before.spec_width() || cols == layer.spec_width(),
                opacity == layer.spec_properties().opacity,
                y <= rows,
                self.spec_width() == before.spec_width(),
                self.spec_height() == before.spec_height(),
                forall|xx: int, yy: int|
                    before.in_bounds(xx, yy) ==> #[trigger] self.pixel(xx, yy) == if yy < y && layer.in_bounds(xx, yy) {
                        raster_over(layer, xx, yy, before.pixel(xx, yy))
                    } else {
                        before.pixel(xx, yy)
                    },
            decreases rows - y,
        {
            let mut x: u32 = 0;
            while x < cols
                invariant
                    rows <= before.spec_height(),
                    rows <= layer.spec_height(),
                    cols <= before.spec_width(),
                    cols <= layer.spec_width(),
                    cols == before.spec_width() || cols == layer.spec_width(),
                    opacity == layer.spec_properties().opacity,
                    y < rows,
                    x <= cols,
                    self.spec_width() == before.spec_width(),
                    self.spec_height() == before.spec_height(),
                    forall|xx: int, yy: int|
                        before.in_bounds(xx, yy) ==> #[trigger] self.pixel(xx, yy) == if (yy < y || (yy == y
                            && xx < x)) && layer.in_bounds(xx, yy) {
                            raster_over(layer, xx, yy, before.pixel(xx, yy))
                        } else {
                            before.pixel(xx, yy)
                        },
                decreases cols - x,
            {
                let color = layer.get_pixel(x, y);
                if let Some(c) = color {
                    let src = scale_by_opacity(c, opacity);
                    self.blend_pixel(x, y, src);
                }
                x = x + 1;
            }
            y = y + 1;
        }
    }

    /// Blends `color` over every framebuffer pixel of the rectangle at `(x, y)`
    /// of the given size, clipped to the framebuffer.
    fn fill_rect(&mut self, x: i32, y: i32, width: i32, height: i32, color: [u8; 4])
        ensures
            final(self).spec_width() == old(self).spec_width(),
            final(self).spec_height() == old(self).spec_height(),
            forall|xx: int, yy: int|
                old(self).in_bounds(xx, yy) ==> #[trigger] final(self).pixel(xx, yy) == if rect_covers(
                    x as int,
                    y as int,
                    width as int,
                    height as int,
                    xx,
                    yy,
                ) {
                    blend(color@, old(self).pixel(xx, yy))
                } else {
                    old(self).pixel(xx, yy)
                },
    {
        let ghost before = *self;
        let x_start = clamp_coord(x as i64, self.width);
        let y_start = clamp_coord(y as i64, self.height);
        let x_end = clamp_coord(x as i64 + width as i64, self.width);
        let y_end = clamp_coord(y as i64 + height as i64, self.height);
        let mut py: u32 = y_start;
        while py < y_end
            invariant
                x_start as int == clamp_to(x as int, before.spec_width() as int),
                y_start as int == clamp_to(y as int, before.spec_height() as int),
                x_end as int == clamp_to(x + width, before.spec_width() as int),
                y_end as int == clamp_to(y + height, before.spec_height() as int),
                y_start <= py,
                py <= y_end || y_end < y_start,
                self.spec_width() == before.spec_width(),
                self.spec_height() == before.spec_height(),
                forall|xx: int, yy: int|
                    before.in_bounds(xx, yy) ==> #[trigger] self.pixel(xx, yy) == if yy < py && rect_covers(
                        x as int,
                        y as int,
                        width as int,
                        height as int,
                        xx,
                        yy,
                    ) {
                        blend(color@, before.pixel(xx, yy))
                    } else {
                        before.pixel(xx, yy)
                    },
            decreases y_end - py,
        {
            let mut px: u32 = x_start;
            while px < x_end
                invariant
                    x_start as int == clamp_to(x as int, before.spec_width() as int),
                    y_start as int == clamp_to(y as int, before.spec_height() as int),
                    x_end as int == clamp_to(x + width, before.spec_width() as int),
                    y_end as int == clamp_to(y + height, before.spec_height() as int),
                    y_start <= py < y_end,
                    x_start <= px,
                    px <= x_end || x_end < x_start,
                    self.spec_width() == before.spec_width(),
                    self.spec_height() == before.spec_height(),
                    forall|xx: int, yy: int|
                        before.in_bounds(xx, yy) ==> #[trigger] self.pixel(xx, yy) == if (yy < py || (yy == py
                            && xx < px)) && rect_covers(x as int, y as int, width as int, height as int, xx, yy) {
                            blend(color@, before.pixel(xx, yy))
                        } else {
                            before.pixel(xx, yy)
                        },
                decreases x_end - px,
            {
                self.blend_pixel(px, py, color);
                px = px + 1;
            }
            py = py + 1;
        }
    }

    fn render_vector_layer(&mut self, layer: &VectorLayer)
        ensures
            final(self).spec_width() == old(self).spec_width(),
            final(self).spec_height() == old(self).spec_height(),
            forall|x: int, y: int|
                old(self).in_bounds(x, y) ==> #[trigger] final(self).pixel(x, y) == shapes_over(
                    layer.spec_shapes(),
                    x,
                    y,
                    old(self).pixel(x, y),
                ),
    {
        let ghost before = *self;
        let shapes = layer.get_shapes();
        let mut i: usize = 0;
        while i < shapes.len()
            invariant
                shapes@ == layer.spec_shapes(),
                i <= shapes@.len(),
                self.spec_width() == before.spec_width(),
                self.spec_height() == before.spec_height(),
                forall|xx: int, yy: int|
                    before.in_bounds(xx, yy) ==> #[trigger] self.pixel(xx, yy) == shapes_over(
                        shapes@.take(i as int),
                        xx,
                        yy,
                        before.pixel(xx, yy),
                    ),
            decreases shapes@.len() - i,
        {
            let ghost mid = *self;
            match shapes[i] {
                VectorShape::Rectangle { x, y, width, height, fill_color, .. } => {
                    self.fill_rect(x, y, width, height, fill_color);
                },
                _ => {},
            }
            assert(shapes@.take(i + 1).drop_last() =~= shapes@.take(i as int));
            assert forall|xx: int, yy: int| before.in_bounds(xx, yy) implies #[trigger] self.pixel(xx, yy)
                == shapes_over(shapes@.take(i + 1), xx, yy, before.pixel(xx, yy)) by {
                assert(mid.pixel(xx, yy) == shapes_over(shapes@.take(i as int), xx, yy, before.pixel(xx, yy)));
            }
            i = i + 1;
        }
        assert(shapes@.take(shapes@.len() as int) =~= shapes@);
    }

    /// Sets every framebuffer pixel to `color`.
    pub fn clear(&mut self, color: [u8; 4])
        ensures
            cleared(*old(self), *final(self), color@),
    {
        proof {
            use_type_invariant(&*self);
        }
        let ghost before = *self;
        let n = self.framebuffer.len();
        let mut i: usize = 0;
        while i < n
            invariant
                n == self.framebuffer@.len(),
                is_grid(self.framebuffer@, self.width as int, self.height as int),
                self.width == before.width,
                self.height == before.height,
                i <= n,
                forall|k: int| 0 <= k < i ==> #[trigger] self.framebuffer@[k] == color@[k % 4],
            decreases n - i,
        {
            self.framebuffer[i] = color[i % 4];
            i = i + 1;
        }
        assert forall|x: int, y: int| before.in_bounds(x, y) implies #[trigger] self.pixel(x, y) == color@ by {
            lemma_cell_bounds(self.width as int, self.height as int, x, y);
            let o = 4 * (y * self.width + x);
            assert forall|j: int| 0 <= j < 4 implies #[trigger] self.framebuffer@[o + j] == color@[j] by {
                assert((4 * (y * self.width + x) + j) % 4 == j) by (nonlinear_arith)
                    requires 0 <= j < 4, 0 <= y * self.width + x;
            }
            assert(self.pixel(x, y) =~= color@);
        }
    }

    /// Composites `layer` onto the framebuffer. An invisible layer changes
    /// nothing. A raster layer is blended pixel by pixel, scaled by its
    /// opacity, over the part of the framebuffer that it overlaps. A vector
    /// layer blends the fill of each rectangle, in order, over the pixels it
    /// covers. A 3D scene draws nothing.
    pub fn render_layer(&mut self, layer: &Layer)
        ensures
            composited(*old(self), *final(self), *layer),
    {
        if !layer.visible() {
            return;
        }
        match layer {
            Layer::Raster(r) => self.render_raster_layer(r),
            Layer::Vector(v) => self.render_vector_layer(v),
            Layer::Scene3D(s) => self.render_3d_layer(s),
        }
    }

    /// 3D scenes are not rasterized: the framebuffer is left as it is.
    fn render_3d_layer(&mut self, _layer: &Scene3DLayer)
        ensures
            *final(self) == *old(self),
    {
    }

    /// The framebuffer: row-major RGBA bytes, four per pixel.
    pub fn get_framebuffer(&self) -> (r: &[u8])
        ensures
            r@ == self.spec_framebuffer(),
            r@.len() == 4 * (self.spec_width() * self.spec_height()),
    {
        proof {
            use_type_invariant(self);
        }
        self.framebuffer.as_slice()
    }
}

/// `shape` is a rectangle with a fully opaque fill that covers pixel `(x, y)`.
pub open spec fn opaque_rect_covering(shape: VectorShape, x: int, y: int) -> bool {
    shape matches VectorShape::Rectangle { x: rx, y: ry, width, height, fill_color, .. } && fill_color[3]
        == CHANNEL_MAX && rect_covers(rx as int, ry as int, width as int, height as int, x, y)
}

/// The fill color of a rectangle.
pub open spec fn fill_of(shape: VectorShape) -> Seq<u8> {
    match shape {
        VectorShape::Rectangle { fill_color, .. } => fill_color@,
        VectorShape::Line { color, .. } => color@,
        VectorShape::Circle { fill_color, .. } => fill_color@,
    }
}

/// Clearing, then compositing one visible, fully opaque raster layer whose
/// pixels all have alpha 255 and whose size is the canvas size, leaves
/// exactly that layer's pixels in the framebuffer.
pub proof fn lemma_opaque_raster_reproduced(
    start: Renderer,
    blank: Renderer,
    after: Renderer,
    background: Seq<u8>,
    layer: RasterLayer,
)
    requires
        cleared(start, blank, background),
        composited(blank, after, Layer::Raster(layer)),
        layer.spec_properties().visible,
        layer.spec_properties().opacity == OPACITY_MAX,
        layer.spec_width() == start.spec_width(),
        layer.spec_height() == start.spec_height(),
        forall|x: int, y: int| layer.in_bounds(x, y) ==> (#[trigger] layer.pixel(x, y))[3] == CHANNEL_MAX,
    ensures
        after.spec_width() == start.spec_width(),
        after.spec_height() == start.spec_height(),
        forall|x: int, y: int| start.in_bounds(x, y) ==> #[trigger] after.pixel(x, y) == layer.pixel(x, y),
{
    assert forall|x: int, y: int| start.in_bounds(x, y) implies #[trigger] after.pixel(x, y) == layer.pixel(x, y) by {
        let p = layer.pixel(x, y);
        layer.lemma_pixel_is_rgba(x, y);
        assert(blank.in_bounds(x, y));
        lemma_full_opacity(p);
        lemma_blend_opaque(p, blank.pixel(x, y));
    }
}

/// Of two fully opaque rectangles that overlap, the one drawn later shows in
/// the overlap: drawn `a` then `b` it is `b`'s fill, drawn `b` then `a` it
/// is `a`'s.
pub proof fn lemma_later_rectangle_on_top(
    before: Renderer,
    after_ab: Renderer,
    after_ba: Renderer,
    layer_ab: VectorLayer,
    layer_ba: VectorLayer,
    a: VectorShape,
    b: VectorShape,
    x: int,
    y: int,
)
    requires
        layer_ab.spec_properties().visible,
        layer_ba.spec_properties().visible,
        layer_ab.spec_shapes() == seq![a, b],
        layer_ba.spec_shapes() == seq![b, a],
        composited(before, after_ab, Layer::Vector(layer_ab)),
        composited(before, after_ba, Layer::Vector(layer_ba)),
        before.in_bounds(x, y),
        opaque_rect_covering(a, x, y),
        opaque_rect_covering(b, x, y),
    ensures
        after_ab.pixel(x, y) == fill_of(b),
        after_ba.pixel(x, y) == fill_of(a),
{
    let ab = seq![a, b];
    let ba = seq![b, a];
    assert(ab.drop_last() =~= seq![a]);
    assert(ba.drop_last() =~= seq![b]);
    assert(seq![a].drop_last() =~= Seq::<VectorShape>::empty());
    assert(seq![b].drop_last() =~= Seq::<VectorShape>::empty());
    let dst = before.pixel(x, y);
    lemma_blend_opaque(fill_of(a), dst);
    lemma_blend_opaque(fill_of(b), dst);
    lemma_blend_opaque(fill_of(a), blend(fill_of(b), dst));
    lemma_blend_opaque(fill_of(b), blend(fill_of(a), dst));
}

/// An invisible layer composited onto a cleared framebuffer leaves it cleared.
pub proof fn lemma_invisible_layer_keeps_clear(
    start: Renderer,
    blank: Renderer,
    after: Renderer,
    background: Seq<u8>,
    layer: Layer,
)
    requires
        cleared(start, blank, background),
        composited(blank, after, layer),
        !layer.spec_properties().visible,
    ensures
        after.spec_width() == start.spec_width(),
        after.spec_height() == start.spec_height(),
        forall|x: int, y: int| start.in_bounds(x, y) ==> #[trigger] after.pixel(x, y) == background,
{
    assert forall|x: int, y: int| start.in_bounds(x, y) implies #[trigger] after.pixel(x, y) == background by {
        assert(blank.in_bounds(x, y));
    }
}

} // verus!
