//! 3D scene layers: meshes and a camera, held as data only.
//!
//! The library does no arithmetic on 3D data, so every single-precision
//! float here (positions, normals, texture coordinates, colors, shininess)
//! is kept losslessly as its IEEE-754 bit pattern (`f32::to_bits`).
use vstd::prelude::*;
use crate::layer::{clamp_opacity, LayerProperties, OPACITY_MAX};

verus! {

/// Bit pattern of the single-precision float `0.0`.
pub const F32_ZERO_BITS: u32 = 0;

/// Bit pattern of the single-precision float `1.0`.
pub const F32_ONE_BITS: u32 = 0x3F80_0000;

/// Bit pattern of the single-precision float `5.0`.
pub const F32_FIVE_BITS: u32 = 0x40A0_0000;

/// A mesh vertex; each component is an `f32` bit pattern.
#[derive(Clone, Copy, Debug, PartialEq, Eq)]
pub struct Vertex {
    pub position: [u32; 3],
    pub normal: [u32; 3],
    pub uv: [u32; 2],
}

/// Surface material; each component is an `f32` bit pattern.
#[derive(Clone, Copy, Debug, PartialEq, Eq)]
pub struct Material {
    pub diffuse_color: [u32; 4],
    pub specular_color: [u32; 4],
    pub shininess: u32,
}

/// An indexed triangle mesh with its material.
#[derive(Clone, Debug)]
pub struct Mesh {
    pub vertices: Vec<Vertex>,
    pub indices: Vec<u32>,
    pub material: Material,
}

/// A layer holding 3D meshes and a camera. Compositing draws nothing for it.
pub struct Scene3DLayer {
    properties: LayerProperties,
    meshes: Vec<Mesh>,
    camera_position: [u32; 3],
    camera_target: [u32; 3],
    camera_up: [u32; 3],
}

impl Scene3DLayer {
    /// Name, visibility and opacity.
    pub closed spec fn spec_properties(&self) -> LayerProperties {
        self.properties
    }

    /// The meshes, in insertion order.
    pub closed spec fn spec_meshes(&self) -> Seq<Mesh> {
        self.meshes@
    }

    /// Camera position, target and up vector.
    pub closed spec fn spec_camera(&self) -> ([u32; 3], [u32; 3], [u32; 3]) {
        (self.camera_position, self.camera_target, self.camera_up)
    }

    /// An empty scene named "New 3D Scene", visible and fully opaque, with the
    /// camera at `(0, 0, 5)` looking at the origin, `+y` up.
    pub fn new() -> (r: Scene3DLayer)
        ensures
            r.spec_properties().name@ == "New 3D Scene"@,
            r.spec_properties().visible,
            r.spec_properties().opacity == OPACITY_MAX,
            r.spec_meshes() == Seq::<Mesh>::empty(),
            r.spec_camera().0@ == seq![F32_ZERO_BITS, F32_ZERO_BITS, F32_FIVE_BITS],
            r.spec_camera().1@ == seq![F32_ZERO_BITS, F32_ZERO_BITS, F32_ZERO_BITS],
            r.spec_camera().2@ == seq![F32_ZERO_BITS, F32_ONE_BITS, F32_ZERO_BITS],
    {
        let r = Scene3DLayer {
            properties: LayerProperties::named("New 3D Scene"),
            meshes: Vec::new(),
            camera_position: [F32_ZERO_BITS, F32_ZERO_BITS, F32_FIVE_BITS],
            camera_target: [F32_ZERO_BITS, F32_ZERO_BITS, F32_ZERO_BITS],
            camera_up: [F32_ZERO_BITS, F32_ONE_BITS, F32_ZERO_BITS],
        };
        assert(r.spec_camera().0@ =~= seq![F32_ZERO_BITS, F32_ZERO_BITS, F32_FIVE_BITS]);
        assert(r.spec_camera().1@ =~= seq![F32_ZERO_BITS, F32_ZERO_BITS, F32_ZERO_BITS]);
        assert(r.spec_camera().2@ =~= seq![F32_ZERO_BITS, F32_ONE_BITS, F32_ZERO_BITS]);
        r
    }

    /// The kind tag of 3D scene layers.
    pub fn layer_type(&self) -> (r: &'static str)
        ensures
            r@ == "scene3d"@,
    {
        "scene3d"
    }

    pub fn name(&self) -> (r: &str)
        ensures
            r@ == self.spec_properties().name@,
    {
        self.properties.name.as_str()
    }

    pub fn set_name(&mut self, name: String)
        ensures
            final(self).spec_properties().name == name,
            final(self).spec_properties().visible == old(self).spec_properties().visible,
            final(self).spec_properties().opacity == old(self).spec_properties().opacity,
            final(self).spec_meshes() == old(self).spec_meshes(),
            final(self).spec_camera() == old(self).spec_camera(),
    {
        self.properties.name = name;
    }

    pub fn visible(&self) -> (r: bool)
        ensures
            r == self.spec_properties().visible,
    {
        self.properties.visible
    }

    pub fn set_visible(&mut self, visible: bool)
        ensures
            final(self).spec_properties().visible == visible,
            final(self).spec_properties().name == old(self).spec_properties().name,
            final(self).spec_properties().opacity == old(self).spec_properties().opacity,
            final(self).spec_meshes() == old(self).spec_meshes(),
            final(self).spec_camera() == old(self).spec_camera(),
    {
        self.properties.visible = visible;
    }

    /// Opacity in 255ths.
    pub fn opacity(&self) -> (r: u8)
        ensures
            r == self.spec_properties().opacity,
    {
        self.properties.opacity
    }

    /// Sets the opacity (in 255ths), silently clamped into `[0, 255]`.
    pub fn set_opacity(&mut self, opacity: i32)
        ensures
            final(self).spec_properties().opacity as int == clamp_opacity(opacity as int),
            final(self).spec_properties().name == old(self).spec_properties().name,
            final(self).spec_properties().visible == old(self).spec_properties().visible,
            final(self).spec_meshes() == old(self).spec_meshes(),
            final(self).spec_camera() == old(self).spec_camera(),
    {
        self.properties.set_opacity(opacity);
    }

    /// Appends `mesh`.
    pub fn add_mesh(&mut self, mesh: Mesh)
        ensures
            final(self).spec_meshes() == old(self).spec_meshes().push(mesh),
            final(self).spec_properties() == old(self).spec_properties(),
            final(self).spec_camera() == old(self).spec_camera(),
    {
        self.meshes.push(mesh);
    }

    /// Removes and returns the mesh at `index`; `None`, with nothing changed,
    /// when there is no such mesh.
    pub fn remove_mesh(&mut self, index: usize) -> (r: Option<Mesh>)
        ensures
            index < old(self).spec_meshes().len() ==> r == Some(old(self).spec_meshes()[index as int])
                && final(self).spec_meshes() == old(self).spec_meshes().remove(index as int),
            index >= old(self).spec_meshes().len() ==> r is None && final(self).spec_meshes()
                == old(self).spec_meshes(),
            final(self).spec_properties() == old(self).spec_properties(),
            final(self).spec_camera() == old(self).spec_camera(),
    {
        if index < self.meshes.len() {
            Some(self.meshes.remove(index))
        } else {
            None
        }
    }

    /// The meshes, in insertion order.
    pub fn get_meshes(&self) -> (r: &[Mesh])
        ensures
            r@ == self.spec_meshes(),
    {
        self.meshes.as_slice()
    }

    /// The mesh at `index` for editing in place, or `None` when there is none.
    pub fn get_mesh_mut(&mut self, index: usize) -> (r: Option<&mut Mesh>)
        ensures
            index < old(self).spec_meshes().len() <==> r is Some,
            r matches Some(m) ==> *m == old(self).spec_meshes()[index as int]
                && final(self).spec_meshes() == old(self).spec_meshes().update(index as int, *final(m)),
            r is None ==> final(self).spec_meshes() == old(self).spec_meshes(),
            final(self).spec_properties() == old(self).spec_properties(),
            final(self).spec_camera() == old(self).spec_camera(),
    {
        if index < self.meshes.len() {
            Some(&mut self.meshes[index])
        } else {
            None
        }
    }

    pub fn set_camera_position(&mut self, position: [u32; 3])
        ensures
            final(self).spec_camera() == (position, old(self).spec_camera().1, old(self).spec_camera().2),
            final(self).spec_properties() == old(self).spec_properties(),
            final(self).spec_meshes() == old(self).spec_meshes(),
    {
        self.camera_position = position;
    }

    pub fn set_camera_target(&mut self, target: [u32; 3])
        ensures
            final(self).spec_camera() == (old(self).spec_camera().0, target, old(self).spec_camera().2),
            final(self).spec_properties() == old(self).spec_properties(),
            final(self).spec_meshes() == old(self).spec_meshes(),
    {
        self.camera_target = target;
    }

    pub fn set_camera_up(&mut self, up: [u32; 3])
        ensures
            final(self).spec_camera() == (old(self).spec_camera().0, old(self).spec_camera().1, up),
            final(self).spec_properties() == old(self).spec_properties(),
            final(self).spec_meshes() == old(self).spec_meshes(),
    {
        self.camera_up = up;
    }

    /// Camera `(position, target, up)`.
    pub fn get_camera_view(&self) -> (r: ([u32; 3], [u32; 3], [u32; 3]))
        ensures
            r == self.spec_camera(),
    {
        (self.camera_position, self.camera_target, self.camera_up)
    }
}

} // verus!
