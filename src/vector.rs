//! Vector layers: an ordered list of shapes.
//!
//! Coordinates and sizes are whole pixels; a shape drawn later covers the
//! shapes before it.
use vstd::prelude::*;
use crate::layer::{clamp_opacity, LayerProperties, OPACITY_MAX};

verus! {

/// One vector primitive with its geometry and colors.
#[derive(Clone, Copy, Debug, PartialEq, Eq)]
pub enum VectorShape {
    Line { x1: i32, y1: i32, x2: i32, y2: i32, stroke_width: i32, color: [u8; 4] },
    Rectangle {
        x: i32,
        y: i32,
        width: i32,
        height: i32,
        stroke_width: i32,
        fill_color: [u8; 4],
        stroke_color: [u8; 4],
    },
    Circle { x: i32, y: i32, radius: i32, stroke_width: i32, fill_color: [u8; 4], stroke_color: [u8; 4] },
}

/// A layer holding shapes, drawn first to last.
pub struct VectorLayer {
    properties: LayerProperties,
    shapes: Vec<VectorShape>,
}

impl VectorLayer {
    /// Name, visibility and opacity.
    pub closed spec fn spec_properties(&self) -> LayerProperties {
        self.properties
    }

    /// The shapes, in drawing order.
    pub closed spec fn spec_shapes(&self) -> Seq<VectorShape> {
        self.shapes@
    }

    /// An empty layer named "New Vector Layer", visible and fully opaque.
    pub fn new() -> (r: VectorLayer)
        ensures
            r.spec_properties().name@ == "New Vector Layer"@,
            r.spec_properties().visible,
            r.spec_properties().opacity == OPACITY_MAX,
            r.spec_shapes() == Seq::<VectorShape>::empty(),
    {
        VectorLayer { properties: LayerProperties::named("New Vector Layer"), shapes: Vec::new() }
    }

    /// The kind tag of vector layers.
    pub fn layer_type(&self) -> (r: &'static str)
        ensures
            r@ == "vector"@,
    {
        "vector"
    }

    pub fn name(&self) -> (r: &str)
        ensures
            r@ == self.spec_properties().name@,
    {
        self.properties.name.as_str()
    }

    pub fn set_name(&mut self, name: String)
        ensures
            final(self).spec_properties().name == name,
            final(self).spec_properties().visible == old(self).spec_properties().visible,
            final(self).spec_properties().opacity == old(self).spec_properties().opacity,
            final(self).spec_shapes() == old(self).spec_shapes(),
    {
        self.properties.name = name;
    }

    pub fn visible(&self) -> (r: bool)
        ensures
            r == self.spec_properties().visible,
    {
        self.properties.visible
    }

    pub fn set_visible(&mut self, visible: bool)
        ensures
            final(self).spec_properties().visible == visible,
            final(self).spec_properties().name == old(self).spec_properties().name,
            final(self).spec_properties().opacity == old(self).spec_properties().opacity,
            final(self).spec_shapes() == old(self).spec_shapes(),
    {
        self.properties.visible = visible;
    }

    /// Opacity in 255ths.
    pub fn opacity(&self) -> (r: u8)
        ensures
            r == self.spec_properties().opacity,
    {
        self.properties.opacity
    }

    /// Sets the opacity (in 255ths), silently clamped into `[0, 255]`.
    pub fn set_opacity(&mut self, opacity: i32)
        ensures
            final(self).spec_properties().opacity as int == clamp_opacity(opacity as int),
            final(self).spec_properties().name == old(self).spec_properties().name,
            final(self).spec_properties().visible == old(self).spec_properties().visible,
            final(self).spec_shapes() == old(self).spec_shapes(),
    {
        self.properties.set_opacity(opacity);
    }

    /// Appends `shape`, which is then drawn last.
    pub fn add_shape(&mut self, shape: VectorShape)
        ensures
            final(self).spec_shapes() == old(self).spec_shapes().push(shape),
            final(self).spec_properties() == old(self).spec_properties(),
    {
        self.shapes.push(shape);
    }

    /// Removes and returns the shape at `index`; `None`, with nothing changed,
    /// when there is no such shape.
    pub fn remove_shape(&mut self, index: usize) -> (r: Option<VectorShape>)
        ensures
            index < old(self).spec_shapes().len() ==> r == Some(old(self).spec_shapes()[index as int])
                && final(self).spec_shapes() == old(self).spec_shapes().remove(index as int),
            index >= old(self).spec_shapes().len() ==> r is None && final(self).spec_shapes()
                == old(self).spec_shapes(),
            final(self).spec_properties() == old(self).spec_properties(),
    {
        if index < self.shapes.len() {
            Some(self.shapes.remove(index))
        } else {
            None
        }
    }

    /// The shapes, in drawing order.
    pub fn get_shapes(&self) -> (r: &[VectorShape])
        ensures
            r@ == self.spec_shapes(),
    {
        self.shapes.as_slice()
    }

    /// The shape at `index` for editing in place, or `None` when there is none.
    pub fn get_shape_mut(&mut self, index: usize) -> (r: Option<&mut VectorShape>)
        ensures
            index < old(self).spec_shapes().len() <==> r is Some,
            r matches Some(s) ==> *s == old(self).spec_shapes()[index as int]
                && final(self).spec_shapes() == old(self).spec_shapes().update(index as int, *final(s)),
            r is None ==> final(self).spec_shapes() == old(self).spec_shapes(),
            final(self).spec_properties() == old(self).spec_properties(),
    {
        if index < self.shapes.len() {
            Some(&mut self.shapes[index])
        } else {
            None
        }
    }
}

} // verus!
