use vstd::prelude::*;

use crate::document::{element_location, has_element, has_layer, occurs, Document, DocumentView, Element};

verus! {

/// A recorded edit, with the layer id and index where it happened and full
/// copies of the elements involved, so that it can be applied and inverted.
#[derive(Debug)]
pub enum Command {
    AddElement { layer_id: u32, index: usize, element: Element },
    DeleteElement { layer_id: u32, index: usize, element: Element },
    UpdateElement { layer_id: u32, index: usize, before: Element, after: Element },
}

impl Clone for Command {
    fn clone(&self) -> (r: Command)
        ensures
            r == *self,
    {
        match self {
            Command::AddElement { layer_id, index, element } => Command::AddElement {
                layer_id: *layer_id,
                index: *index,
                element: element.clone(),
            },
            Command::DeleteElement { layer_id, index, element } => Command::DeleteElement {
                layer_id: *layer_id,
                index: *index,
                element: element.clone(),
            },
            Command::UpdateElement { layer_id, index, before, after } => Command::UpdateElement {
                layer_id: *layer_id,
                index: *index,
                before: before.clone(),
                after: after.clone(),
            },
        }
    }
}

impl Command {
    /// Whether applying succeeds on `d`, and the document it leaves.
    pub open spec fn apply_spec(self, d: DocumentView) -> (bool, DocumentView) {
        match self {
            Command::AddElement { layer_id, index, element } => (
                has_layer(d.layers, layer_id),
                d.insert_spec(layer_id, index as int, element),
            ),
            Command::DeleteElement { element, .. } => (
                has_element(d.layers, element.id),
                d.remove_spec(element.id),
            ),
            Command::UpdateElement { layer_id, index, after, .. } => (
                d.replace_at_succeeds(layer_id, index as int, after),
                d.replace_at_spec(layer_id, index as int, after),
            ),
        }
    }

    /// The command is what the editor records for an edit of `d`: an
    /// addition into an existing layer of an element whose id `d` does not
    /// hold; a deletion or an update of the element at the first location of
    /// its id, with that location and the element as they were (an update
    /// keeps the id).
    pub open spec fn recorded_against(self, d: DocumentView) -> bool {
        match self {
            Command::AddElement { layer_id, element, .. } => has_layer(d.layers, layer_id) && !occurs(
                d.layers,
                element.id,
            ),
            Command::DeleteElement { layer_id, index, element } => {
                let (li, ei) = element_location(d.layers, element.id);
                &&& has_element(d.layers, element.id)
                &&& d.layers[li].id == layer_id
                &&& ei == index
                &&& d.layers[li].elements[ei] == element
            },
            Command::UpdateElement { layer_id, index, before, after } => {
                let (li, ei) = element_location(d.layers, before.id);
                &&& has_element(d.layers, before.id)
                &&& d.layers[li].id == layer_id
                &&& ei == index
                &&& d.layers[li].elements[ei] == before
                &&& after.id == before.id
            },
        }
    }

    /// Whether undoing succeeds on `d`, and the document it leaves.
    pub open spec fn undo_spec(self, d: DocumentView) -> (bool, DocumentView) {
        match self {
            Command::AddElement { element, .. } => (
                has_element(d.layers, element.id),
                d.remove_spec(element.id),
            ),
            Command::DeleteElement { layer_id, index, element } => (
                has_layer(d.layers, layer_id),
                d.insert_spec(layer_id, index as int, element),
            ),
            Command::UpdateElement { layer_id, index, before, .. } => (
                d.replace_at_succeeds(layer_id, index as int, before),
                d.replace_at_spec(layer_id, index as int, before),
            ),
        }
    }

    /// Applies the command to the document; whether it still applied.
    pub fn apply(&self, document: &mut Document) -> (ok: bool)
        ensures
            (ok, final(document)@) == self.apply_spec(old(document)@),
    {
        match self {
            Command::AddElement { layer_id, index, element } => {
                document.insert_element_at(*layer_id, *index, element.clone())
            },
            Command::DeleteElement { element, .. } => {
                document.remove_element_by_id(element.id).is_some()
            },
            Command::UpdateElement { layer_id, index, after, .. } => {
                document.replace_element_at(*layer_id, *index, after.clone())
            },
        }
    }

    /// Inverts the command on the document; whether it still applied.
    pub fn undo(&self, document: &mut Document) -> (ok: bool)
        ensures
            (ok, final(document)@) == self.undo_spec(old(document)@),
    {
        match self {
            Command::AddElement { element, .. } => {
                document.remove_element_by_id(element.id).is_some()
            },
            Command::DeleteElement { layer_id, index, element } => {
                document.insert_element_at(*layer_id, *index, element.clone())
            },
            Command::UpdateElement { layer_id, index, before, .. } => {
                document.replace_element_at(*layer_id, *index, before.clone())
            },
        }
    }
}

/// The two stacks of the history, oldest first.
pub struct HistoryView {
    pub undo: Seq<Command>,
    pub redo: Seq<Command>,
}

/// `record(c)` took `old` to `new`: `c` is pushed and the redo stack emptied.
pub open spec fn record_post(old: HistoryView, c: Command, new: HistoryView) -> bool {
    new.undo == old.undo.push(c) && new.redo.len() == 0
}

/// `undo` took history `oh` and document `od` to `nh` and `nd`, returning `changed`.
pub open spec fn undo_post(
    oh: HistoryView,
    od: DocumentView,
    nh: HistoryView,
    nd: DocumentView,
    changed: bool,
) -> bool {
    if oh.undo.len() == 0 {
        !changed && nh == oh && nd == od
    } else {
        let c = oh.undo.last();
        &&& (changed, nd) == c.undo_spec(od)
        &&& nh.undo == oh.undo.drop_last()
        &&& nh.redo == if changed {
            oh.redo.push(c)
        } else {
            oh.redo
        }
    }
}

/// `redo` took history `oh` and document `od` to `nh` and `nd`, returning `changed`.
pub open spec fn redo_post(
    oh: HistoryView,
    od: DocumentView,
    nh: HistoryView,
    nd: DocumentView,
    changed: bool,
) -> bool {
    if oh.redo.len() == 0 {
        !changed && nh == oh && nd == od
    } else {
        let c = oh.redo.last();
        &&& (changed, nd) == c.apply_spec(od)
        &&& nh.redo == oh.redo.drop_last()
        &&& nh.undo == if changed {
            oh.undo.push(c)
        } else {
            oh.undo
        }
    }
}

/// A linear undo/redo log: two stacks of commands.
#[derive(Debug)]
pub struct History {
    undo_stack: Vec<Command>,
    redo_stack: Vec<Command>,
}

impl View for History {
    type V = HistoryView;

    closed spec fn view(&self) -> HistoryView {
        HistoryView { undo: self.undo_stack@, redo: self.redo_stack@ }
    }
}

impl History {
    pub fn new() -> (h: History)
        ensures
            h@.undo.len() == 0,
            h@.redo.len() == 0,
    {
        History { undo_stack: Vec::new(), redo_stack: Vec::new() }
    }

    /// Empties both stacks.
    pub fn clear(&mut self)
        ensures
            final(self)@.undo.len() == 0,
            final(self)@.redo.len() == 0,
    {
        self.undo_stack.clear();
        self.redo_stack.clear();
    }

    /// Pushes a new edit; the redo lineage is dropped.
    pub fn record(&mut self, command: Command)
        ensures
            record_post(old(self)@, command, final(self)@),
    {
        self.undo_stack.push(command);
        self.redo_stack.clear();
    }

    /// Undoes the newest edit. It moves to the redo stack when it still
    /// applies to the document, and is dropped when it does not.
    pub fn undo(&mut self, document: &mut Document) -> (changed: bool)
        ensures
            undo_post(old(self)@, old(document)@, final(self)@, final(document)@, changed),
    {
        if let Some(command) = self.undo_stack.pop() {
            if command.undo(document) {
                self.redo_stack.push(command);
                return true;
            }
        }
        false
    }

    /// Reapplies the newest undone edit. It moves back to the undo stack when
    /// it still applies, and is dropped when it does not.
    pub fn redo(&mut self, document: &mut Document) -> (changed: bool)
        ensures
            redo_post(old(self)@, old(document)@, final(self)@, final(document)@, changed),
    {
        if let Some(command) = self.redo_stack.pop() {
            if command.apply(document) {
                self.undo_stack.push(command);
                return true;
            }
        }
        false
    }

    pub fn undo_len(&self) -> (n: usize)
        ensures
            n == self@.undo.len(),
    {
        self.undo_stack.len()
    }

    pub fn redo_len(&self) -> (n: usize)
        ensures
            n == self@.redo.len(),
    {
        self.redo_stack.len()
    }
}

} // verus!
