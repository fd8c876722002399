//! Raster layers: a dense grid of RGBA pixels.
use vstd::prelude::*;
use crate::grid::{is_grid, load_pixel, pixel_at, store_pixel};
use crate::layer::{clamp_opacity, LayerProperties, OPACITY_MAX};

verus! {

/// A layer holding `width * height` RGBA pixels, row-major.
pub struct RasterLayer {
    properties: LayerProperties,
    width: u32,
    height: u32,
    data: Vec<u8>,
}

impl RasterLayer {
    #[verifier::type_invariant]
    spec fn inv(&self) -> bool {
        is_grid(self.data@, self.width as int, self.height as int)
    }

    /// Width in pixels.
    pub closed spec fn spec_width(&self) -> nat {
        self.width as nat
    }

    /// Height in pixels.
    pub closed spec fn spec_height(&self) -> nat {
        self.height as nat
    }

    /// Name, visibility and opacity.
    pub closed spec fn spec_properties(&self) -> LayerProperties {
        self.properties
    }

    /// The RGBA bytes of pixel `(x, y)`.
    pub closed spec fn pixel(&self, x: int, y: int) -> Seq<u8> {
        pixel_at(self.data@, self.width as int, x, y)
    }

    /// Every pixel is four bytes.
    pub proof fn lemma_pixel_is_rgba(&self, x: int, y: int)
        ensures
            self.pixel(x, y).len() == 4,
    {
    }

    /// `(x, y)` lies inside the layer.
    pub open spec fn in_bounds(&self, x: int, y: int) -> bool {
        0 <= x < self.spec_width() && 0 <= y < self.spec_height()
    }

    /// What `get_pixel(x, y)` returns, as bytes: the pixel inside the layer,
    /// nothing outside it.
    pub open spec fn lookup(&self, x: int, y: int) -> Option<Seq<u8>> {
        if self.in_bounds(x, y) {
            Some(self.pixel(x, y))
        } else {
            None
        }
    }

    /// `after` is `before` with `color` written at `(x, y)`: that pixel alone
    /// changes, and only if it lies inside the layer.
    pub open spec fn pixel_written(
        before: RasterLayer,
        after: RasterLayer,
        x: int,
        y: int,
        color: Seq<u8>,
    ) -> bool {
        &&& after.spec_properties() == before.spec_properties()
        &&& after.spec_width() == before.spec_width()
        &&& after.spec_height() == before.spec_height()
        &&& before.in_bounds(x, y) ==> after.pixel(x, y) == color
        &&& forall|xx: int, yy: int|
            before.in_bounds(xx, yy) && !(xx == x && yy == y) ==> #[trigger] after.pixel(xx, yy) == before.pixel(xx, yy)
    }

    /// A transparent black layer of the given size, named "New Raster Layer",
    /// visible and fully opaque.
    pub fn new(width: u32, height: u32) -> (r: RasterLayer)
        requires
            4 * (width as int) * (height as int) <= usize::MAX,
        ensures
            r.spec_width() == width,
            r.spec_height() == height,
            r.spec_properties().name@ == "New Raster Layer"@,
            r.spec_properties().visible,
            r.spec_properties().opacity == OPACITY_MAX,
            forall|x: int, y: int| r.in_bounds(x, y) ==> #[trigger] r.pixel(x, y) == seq![0u8, 0u8, 0u8, 0u8],
    {
        assert(4 * (width as int) * (height as int) == 4 * ((width as int) * (height as int))) by (nonlinear_arith);
        assert(0 <= (width as int) * (height as int)) by (nonlinear_arith);
        let n: usize = 4 * ((width as usize) * (height as usize));
        let data: Vec<u8> = vec![0u8; n];
        let r = RasterLayer { properties: LayerProperties::named("New Raster Layer"), width, height, data };
        assert forall|x: int, y: int| r.in_bounds(x, y) implies #[trigger] r.pixel(x, y) == seq![0u8, 0u8, 0u8, 0u8] by {
            crate::grid::lemma_cell_bounds(width as int, height as int, x, y);
            assert(r.pixel(x, y) =~= seq![0u8, 0u8, 0u8, 0u8]);
        }
        r
    }

    /// The kind tag of raster layers.
    pub fn layer_type(&self) -> (r: &'static str)
        ensures
            r@ == "raster"@,
    {
        "raster"
    }

    pub fn name(&self) -> (r: &str)
        ensures
            r@ == self.spec_properties().name@,
    {
        self.properties.name.as_str()
    }

    pub fn set_name(&mut self, name: String)
        ensures
            final(self).spec_properties().name == name,
            final(self).spec_properties().visible == old(self).spec_properties().visible,
            final(self).spec_properties().opacity == old(self).spec_properties().opacity,
            final(self).spec_width() == old(self).spec_width(),
            final(self).spec_height() == old(self).spec_height(),
            forall|x: int, y: int| #[trigger] final(self).pixel(x, y) == old(self).pixel(x, y),
    {
        proof {
            use_type_invariant(&*self);
        }
        self.properties.name = name;
    }

    pub fn visible(&self) -> (r: bool)
        ensures
            r == self.spec_properties().visible,
    {
        self.properties.visible
    }

    pub fn set_visible(&mut self, visible: bool)
        ensures
            final(self).spec_properties().visible == visible,
            final(self).spec_properties().name == old(self).spec_properties().name,
            final(self).spec_properties().opacity == old(self).spec_properties().opacity,
            final(self).spec_width() == old(self).spec_width(),
            final(self).spec_height() == old(self).spec_height(),
            forall|x: int, y: int| #[trigger] final(self).pixel(x, y) == old(self).pixel(x, y),
    {
        proof {
            use_type_invariant(&*self);
        }
        self.properties.visible = visible;
    }

    /// Opacity in 255ths.
    pub fn opacity(&self) -> (r: u8)
        ensures
            r == self.spec_properties().opacity,
    {
        self.properties.opacity
    }

    /// Sets the opacity (in 255ths), silently clamped into `[0, 255]`.
    pub fn set_opacity(&mut self, opacity: i32)
        ensures
            final(self).spec_properties().opacity as int == clamp_opacity(opacity as int),
            final(self).spec_properties().name == old(self).spec_properties().name,
            final(self).spec_properties().visible == old(self).spec_properties().visible,
            final(self).spec_width() == old(self).spec_width(),
            final(self).spec_height() == old(self).spec_height(),
            forall|x: int, y: int| #[trigger] final(self).pixel(x, y) == old(self).pixel(x, y),
    {
        proof {
            use_type_invariant(&*self);
        }
        self.properties.set_opacity(opacity);
    }

    /// The color of pixel `(x, y)`, or `None` outside the layer.
    pub fn get_pixel(&self, x: u32, y: u32) -> (r: Option<[u8; 4]>)
        ensures
            r is Some <==> self.in_bounds(x as int, y as int),
            r matches Some(c) ==> c@ == self.pixel(x as int, y as int),
            match r {
                Some(c) => self.lookup(x as int, y as int) == Some(c@),
                None => self.lookup(x as int, y as int) is None,
            },
    {
        proof {
            use_type_invariant(self);
        }
        if x < self.width && y < self.height {
            Some(load_pixel(&self.data, self.width, self.height, x, y))
        } else {
            None
        }
    }

    /// Writes `color` at `(x, y)`; outside the layer nothing changes.
    pub fn set_pixel(&mut self, x: u32, y: u32, color: [u8; 4])
        ensures
            Self::pixel_written(*old(self), *final(self), x as int, y as int, color@),
            !old(self).in_bounds(x as int, y as int) ==> forall|xx: int, yy: int|
                #[trigger] final(self).lookup(xx, yy) == old(self).lookup(xx, yy),
    {
        proof {
            use_type_invariant(&*self);
        }
        if x < self.width && y < self.height {
            store_pixel(&mut self.data, self.width, self.height, x, y, color);
        }
    }

    /// `(width, height)` in pixels.
    pub fn dimensions(&self) -> (r: (u32, u32))
        ensures
            r.0 == self.spec_width(),
            r.1 == self.spec_height(),
    {
        (self.width, self.height)
    }
}

/// Reading a pixel inside the layer after writing it gives back exactly the
/// color written.
pub proof fn lemma_set_then_get(before: RasterLayer, after: RasterLayer, x: int, y: int, color: Seq<u8>)
    requires
        RasterLayer::pixel_written(before, after, x, y, color),
        before.in_bounds(x, y),
    ensures
        after.lookup(x, y) == Some(color),
{
}

/// Outside the layer, reading gives nothing and writing changes no pixel,
/// no property and no dimension.
pub proof fn lemma_out_of_bounds_no_op(before: RasterLayer, after: RasterLayer, x: int, y: int, color: Seq<u8>)
    requires
        RasterLayer::pixel_written(before, after, x, y, color),
        !before.in_bounds(x, y),
    ensures
        before.lookup(x, y) is None,
        after.lookup(x, y) is None,
        after.spec_properties() == before.spec_properties(),
        after.spec_width() == before.spec_width(),
        after.spec_height() == before.spec_height(),
        forall|xx: int, yy: int| #[trigger] after.lookup(xx, yy) == before.lookup(xx, yy),
{
    assert forall|xx: int, yy: int| #[trigger] after.lookup(xx, yy) == before.lookup(xx, yy) by {
        if before.in_bounds(xx, yy) {
            assert(after.pixel(xx, yy) == before.pixel(xx, yy));
        }
    }
}

} // verus!
