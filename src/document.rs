//! Documents: a named canvas and its ordered stack of layers.
use vstd::prelude::*;
use crate::layer::Layer;

verus! {

/// A document. `layers[0]` is composited first, so it is the bottom of the
/// stack; each later layer is drawn on top of the ones before it.
pub struct Document {
    pub name: String,
    pub layers: Vec<Layer>,
    pub width: u32,
    pub height: u32,
}

impl Document {
    /// An empty document with the given name and canvas size.
    pub fn new(name: &str, width: u32, height: u32) -> (r: Document)
        ensures
            r.name@ == name@,
            r.layers@ == Seq::<Layer>::empty(),
            r.width == width,
            r.height == height,
    {
        Document { name: name.to_owned(), layers: Vec::new(), width, height }
    }

    /// Puts `layer` on top of the stack.
    pub fn add_layer(&mut self, layer: Layer)
        ensures
            final(self).layers@ == old(self).layers@.push(layer),
            final(self).name == old(self).name,
            final(self).width == old(self).width,
            final(self).height == old(self).height,
    {
        self.layers.push(layer);
    }

    /// Removes and returns the layer at `index`, moving every later layer down
    /// by one; `None`, with nothing changed, when there is no such layer.
    pub fn remove_layer(&mut self, index: usize) -> (r: Option<Layer>)
        ensures
            index < old(self).layers@.len() ==> {
                &&& r == Some(old(self).layers@[index as int])
                &&& final(self).layers@ == old(self).layers@.remove(index as int)
                &&& final(self).layers@.len() == old(self).layers@.len() - 1
                &&& forall|j: int|
                    index <= j < final(self).layers@.len() ==> #[trigger] final(self).layers@[j]
                        == old(self).layers@[j + 1]
            },
            index >= old(self).layers@.len() ==> r is None && final(self).layers@ == old(self).layers@,
            final(self).name == old(self).name,
            final(self).width == old(self).width,
            final(self).height == old(self).height,
    {
        if index < self.layers.len() {
            Some(self.layers.remove(index))
        } else {
            None
        }
    }

    /// Number of layers.
    pub fn layer_count(&self) -> (r: usize)
        ensures
            r == self.layers@.len(),
    {
        self.layers.len()
    }

    /// The layer at `index`, or `None` when there is none.
    pub fn get_layer(&self, index: usize) -> (r: Option<&Layer>)
        ensures
            index < self.layers@.len() ==> r == Some(&self.layers@[index as int]),
            index >= self.layers@.len() ==> r is None,
    {
        if index < self.layers.len() {
            Some(&self.layers[index])
        } else {
            None
        }
    }

    /// The layer at `index` for editing in place, or `None` when there is none.
    pub fn get_layer_mut(&mut self, index: usize) -> (r: Option<&mut Layer>)
        ensures
            index < old(self).layers@.len() <==> r is Some,
            r matches Some(l) ==> *l == old(self).layers@[index as int] && final(self).layers@
                == old(self).layers@.update(index as int, *final(l)),
            r is None ==> final(self).layers@ == old(self).layers@,
            final(self).name == old(self).name,
            final(self).width == old(self).width,
            final(self).height == old(self).height,
    {
        if index < self.layers.len() {
            Some(&mut self.layers[index])
        } else {
            None
        }
    }
}

} // verus!
