//! Properties shared by every kind of layer.
use vstd::prelude::*;
use crate::raster::RasterLayer;
use crate::scene3d::Scene3DLayer;
use crate::vector::VectorLayer;

verus! {

/// The largest opacity; opacities are counted in 255ths, so this is fully opaque.
pub const OPACITY_MAX: u8 = 255;

/// Name, visibility and opacity of a layer.
///
/// `opacity` is in 255ths: 0 is fully transparent, 255 fully opaque. Being a
/// byte, it cannot leave that range.
pub struct LayerProperties {
    pub name: String,
    pub visible: bool,
    pub opacity: u8,
}

/// `v` clamped into the opacity range `[0, 255]`.
pub open spec fn clamp_opacity(v: int) -> int {
    if v < 0 {
        0
    } else if v > OPACITY_MAX {
        OPACITY_MAX as int
    } else {
        v
    }
}

impl LayerProperties {
    /// Visible, fully opaque properties with the given name.
    pub fn named(name: &str) -> (r: LayerProperties)
        ensures
            r.name@ == name@,
            r.visible,
            r.opacity == OPACITY_MAX,
    {
        LayerProperties { name: name.to_owned(), visible: true, opacity: OPACITY_MAX }
    }

    /// Sets the opacity to `opacity` clamped into `[0, 255]`.
    pub fn set_opacity(&mut self, opacity: i32)
        ensures
            final(self).opacity as int == clamp_opacity(opacity as int),
            final(self).name == old(self).name,
            final(self).visible == old(self).visible,
        no_unwind
    {
        self.opacity = if opacity < 0 {
            0
        } else if opacity > OPACITY_MAX as i32 {
            OPACITY_MAX
        } else {
            opacity as u8
        };
    }
}

/// A layer of a document: one of the three kinds, told apart by matching.
pub enum Layer {
    Raster(RasterLayer),
    Vector(VectorLayer),
    Scene3D(Scene3DLayer),
}

impl Layer {
    /// Name, visibility and opacity of whichever kind this is.
    pub open spec fn spec_properties(&self) -> LayerProperties {
        match self {
            Layer::Raster(l) => l.spec_properties(),
            Layer::Vector(l) => l.spec_properties(),
            Layer::Scene3D(l) => l.spec_properties(),
        }
    }

    /// `self` and `other` are of the same kind and hold the same pixels,
    /// shapes, or meshes and camera; their properties may differ.
    pub open spec fn same_content(&self, other: &Layer) -> bool {
        match (self, other) {
            (Layer::Raster(a), Layer::Raster(b)) => {
                &&& a.spec_width() == b.spec_width()
                &&& a.spec_height() == b.spec_height()
                &&& forall|x: int, y: int| #[trigger] a.pixel(x, y) == b.pixel(x, y)
            },
            (Layer::Vector(a), Layer::Vector(b)) => a.spec_shapes() == b.spec_shapes(),
            (Layer::Scene3D(a), Layer::Scene3D(b)) => {
                &&& a.spec_meshes() == b.spec_meshes()
                &&& a.spec_camera() == b.spec_camera()
            },
            _ => false,
        }
    }

    /// The kind tag: "raster", "vector" or "scene3d".
    pub fn layer_type(&self) -> (r: &'static str)
        ensures
            self is Raster ==> r@ == "raster"@,
            self is Vector ==> r@ == "vector"@,
            self is Scene3D ==> r@ == "scene3d"@,
    {
        match self {
            Layer::Raster(l) => l.layer_type(),
            Layer::Vector(l) => l.layer_type(),
            Layer::Scene3D(l) => l.layer_type(),
        }
    }

    pub fn name(&self) -> (r: &str)
        ensures
            r@ == self.spec_properties().name@,
    {
        match self {
            Layer::Raster(l) => l.name(),
            Layer::Vector(l) => l.name(),
            Layer::Scene3D(l) => l.name(),
        }
    }

    pub fn set_name(&mut self, name: String)
        ensures
            final(self).spec_properties().name == name,
            final(self).spec_properties().visible == old(self).spec_properties().visible,
            final(self).spec_properties().opacity == old(self).spec_properties().opacity,
            final(self).same_content(&*old(self)),
    {
        match self {
            Layer::Raster(l) => l.set_name(name),
            Layer::Vector(l) => l.set_name(name),
            Layer::Scene3D(l) => l.set_name(name),
        }
    }

    pub fn visible(&self) -> (r: bool)
        ensures
            r == self.spec_properties().visible,
    {
        match self {
            Layer::Raster(l) => l.visible(),
            Layer::Vector(l) => l.visible(),
            Layer::Scene3D(l) => l.visible(),
        }
    }

    pub fn set_visible(&mut self, visible: bool)
        ensures
            final(self).spec_properties().visible == visible,
            final(self).spec_properties().name == old(self).spec_properties().name,
            final(self).spec_properties().opacity == old(self).spec_properties().opacity,
            final(self).same_content(&*old(self)),
    {
        match self {
            Layer::Raster(l) => l.set_visible(visible),
            Layer::Vector(l) => l.set_visible(visible),
            Layer::Scene3D(l) => l.set_visible(visible),
        }
    }

    /// Opacity in 255ths.
    pub fn opacity(&self) -> (r: u8)
        ensures
            r == self.spec_properties().opacity,
    {
        match self {
            Layer::Raster(l) => l.opacity(),
            Layer::Vector(l) => l.opacity(),
            Layer::Scene3D(l) => l.opacity(),
        }
    }

    /// Sets the opacity (in 255ths): `opacity` itself when it lies in
    /// `[0, 255]`, 0 below that range and 255 above it.
    pub fn set_opacity(&mut self, opacity: i32)
        ensures
            final(self).spec_properties().opacity as int == clamp_opacity(opacity as int),
            0 <= opacity <= OPACITY_MAX ==> final(self).spec_properties().opacity == opacity,
            opacity < 0 ==> final(self).spec_properties().opacity == 0,
            opacity > OPACITY_MAX ==> final(self).spec_properties().opacity == OPACITY_MAX,
            final(self).spec_properties().name == old(self).spec_properties().name,
            final(self).spec_properties().visible == old(self).spec_properties().visible,
            final(self).same_content(&*old(self)),
    {
        match self {
            Layer::Raster(l) => l.set_opacity(opacity),
            Layer::Vector(l) => l.set_opacity(opacity),
            Layer::Scene3D(l) => l.set_opacity(opacity),
        }
    }
}

} // verus!
