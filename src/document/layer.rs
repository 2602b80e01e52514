use vstd::prelude::*;

use crate::document::Element;

verus! {

/// An ordered group of elements. Order is z-order for drawing and the index
/// that undo and redo rely on.
#[derive(Debug)]
pub struct Layer {
    pub id: u32,
    pub name: String,
    pub visible: bool,
    pub locked: bool,
    pub elements: Vec<Element>,
}

/// A layer as a value: its element sequence in place of the vector.
pub struct LayerView {
    pub id: u32,
    pub name: String,
    pub visible: bool,
    pub locked: bool,
    pub elements: Seq<Element>,
}

impl View for Layer {
    type V = LayerView;

    open spec fn view(&self) -> LayerView {
        LayerView {
            id: self.id,
            name: self.name,
            visible: self.visible,
            locked: self.locked,
            elements: self.elements@,
        }
    }
}

impl Clone for Layer {
    fn clone(&self) -> (r: Layer)
        ensures
            r@ == self@,
    {
        let elements = self.elements.clone();
        assert(elements@ =~= self.elements@);
        Layer {
            id: self.id,
            name: self.name.clone(),
            visible: self.visible,
            locked: self.locked,
            elements,
        }
    }
}

impl Layer {
    /// A visible, unlocked, empty layer.
    pub fn new(id: u32, name: String) -> (r: Layer)
        ensures
            r@ == (LayerView { id, name, visible: true, locked: false, elements: Seq::empty() }),
    {
        let r = Layer { id, name, visible: true, locked: false, elements: Vec::new() };
        assert(r.elements@ =~= Seq::<Element>::empty());
        r
    }
}

} // verus!
