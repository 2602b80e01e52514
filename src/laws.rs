//! Properties that relate several operations of the editing engine.
use vstd::prelude::*;

use crate::document::{
    element_count, element_location, ensure_primary_shape_post, first_shape, has_element,
    has_layer, is_first_layer, is_first_location, is_first_shape, layer_index,
    lemma_first_layer_unique, lemma_first_location_unique, lemma_first_shape_unique, max_element_id,
    max_id, next_id_post, recalculate_post, record_post, redo_post, undo_post, with_elements,
    Command, DocumentView, Element, ElementUpdate, HistoryView, LayerView,
};
use crate::scalar::ONE;

verus! {

/// Layer ids of `a` and `b` agree position by position.
pub open spec fn same_layer_ids(a: Seq<LayerView>, b: Seq<LayerView>) -> bool {
    a.len() == b.len() && forall|i: int| 0 <= i < a.len() ==> #[trigger] a[i].id == b[i].id
}

proof fn lemma_layer_index_kept(a: Seq<LayerView>, b: Seq<LayerView>, id: u32, i: int)
    requires
        same_layer_ids(a, b),
        is_first_layer(a, id, i),
    ensures
        has_layer(b, id),
        layer_index(b, id) == i,
{
    assert forall|j: int| 0 <= j < i implies b[j].id != id by {
        assert(a[j].id == b[j].id);
    }
    assert(a[i].id == b[i].id);
    lemma_first_layer_unique(b, id, i);
}

/// Undoing a command right after applying it restores the document exactly,
/// layer order and element order included, for a command as the editor
/// records it against that document, in a document whose layer ids are
/// unique.
pub proof fn lemma_undo_inverts_apply(c: Command, d: DocumentView)
    requires
        d.wf(),
        c.recorded_against(d),
    ensures
        c.apply_spec(d).0,
        c.undo_spec(c.apply_spec(d).1) == (true, d),
{
    match c {
        Command::AddElement { layer_id, index, element } => {
            let li = layer_index(d.layers, layer_id);
            let es = d.layers[li].elements;
            let at = if (index as int) < es.len() { index as int } else { es.len() as int };
            let d1 = d.insert_spec(layer_id, index as int, element);
            assert(is_first_layer(d.layers, layer_id, li));
            assert(d1.layers[li].elements == es.insert(at, element));
            assert forall|j: int, k: int|
                0 <= j < li && 0 <= k < d1.layers[j].elements.len() implies #[trigger] d1.layers[j].elements[k].id
                != element.id by {
                assert(d1.layers[j] == d.layers[j]);
            }
            assert forall|k: int| 0 <= k < at implies #[trigger] d1.layers[li].elements[k].id
                != element.id by {
                assert(d1.layers[li].elements[k] == es[k]);
            }
            lemma_first_location_unique(d1.layers, element.id, li, at);
            assert(es.insert(at, element).remove(at) =~= es);
            assert(d1.remove_spec(element.id).layers =~= d.layers);
        },
        Command::DeleteElement { layer_id, index, element } => {
            let (li, ei) = element_location(d.layers, element.id);
            let es = d.layers[li].elements;
            let d1 = d.remove_spec(element.id);
            assert(is_first_layer(d.layers, layer_id, li));
            assert(same_layer_ids(d.layers, d1.layers));
            lemma_layer_index_kept(d.layers, d1.layers, layer_id, li);
            assert(es.remove(ei).insert(ei, element) =~= es);
            assert(d1.insert_spec(layer_id, index as int, element).layers =~= d.layers);
        },
        Command::UpdateElement { layer_id, index, before, after } => {
            let (li, ei) = element_location(d.layers, before.id);
            let es = d.layers[li].elements;
            assert(is_first_layer(d.layers, layer_id, li));
            lemma_first_layer_unique(d.layers, layer_id, li);
            assert(d.slot_matches(layer_id, index as int, after.id));
            let d1 = d.replace_at_spec(layer_id, index as int, after);
            assert(same_layer_ids(d.layers, d1.layers));
            lemma_layer_index_kept(d.layers, d1.layers, layer_id, li);
            assert(d1.slot_matches(layer_id, index as int, before.id));
            assert(es.update(ei, after).update(ei, before) =~= es);
            assert(d1.replace_at_spec(layer_id, index as int, before).layers =~= d.layers);
        },
    }
}

/// After recording A then B, undoing twice, redoing once and recording C,
/// the redo stack is empty and a further redo reports no change.
pub proof fn lemma_record_clears_redo(
    a: Command,
    b: Command,
    c: Command,
    h: Seq<HistoryView>,
    d: Seq<DocumentView>,
    undone1: bool,
    undone2: bool,
    redone: bool,
    last_redo: bool,
)
    requires
        h.len() == 8,
        d.len() == 8,
        record_post(h[0], a, h[1]),
        record_post(h[1], b, h[2]),
        undo_post(h[2], d[2], h[3], d[3], undone1),
        undo_post(h[3], d[3], h[4], d[4], undone2),
        redo_post(h[4], d[4], h[5], d[5], redone),
        record_post(h[5], c, h[6]),
        redo_post(h[6], d[6], h[7], d[7], last_redo),
    ensures
        h[6].redo.len() == 0,
        !last_redo,
        h[7] == h[6],
        d[7] == d[6],
{
}

/// Ids from the allocator strictly increase over successive calls.
pub proof fn lemma_ids_increase(d0: DocumentView, d1: DocumentView, d2: DocumentView, a: u32, b: u32)
    requires
        next_id_post(d0, d1, a),
        next_id_post(d1, d2, b),
    ensures
        a < b,
{
}

proof fn lemma_max_element_id(es: Seq<Element>)
    ensures
        forall|k: int| 0 <= k < es.len() ==> #[trigger] es[k].id <= max_element_id(es),
        (forall|k: int| 0 <= k < es.len() ==> #[trigger] es[k].id < u32::MAX) ==> max_element_id(es)
            < u32::MAX,
    decreases es.len(),
{
    if es.len() > 0 {
        let p = es.drop_last();
        lemma_max_element_id(p);
        assert forall|k: int| 0 <= k < es.len() implies #[trigger] es[k].id <= max_element_id(es) by {
            if k < es.len() - 1 {
                assert(es[k] == p[k]);
            }
        }
        if forall|k: int| 0 <= k < es.len() ==> #[trigger] es[k].id < u32::MAX {
            assert forall|k: int| 0 <= k < p.len() implies #[trigger] p[k].id < u32::MAX by {
                assert(es[k] == p[k]);
            }
            assert(es[es.len() - 1].id < u32::MAX);
        }
    }
}

/// Every layer and element id is below `u32::MAX`.
pub open spec fn ids_below_max(ls: Seq<LayerView>) -> bool {
    &&& forall|i: int| 0 <= i < ls.len() ==> #[trigger] ls[i].id < u32::MAX
    &&& forall|i: int, k: int|
        0 <= i < ls.len() && 0 <= k < ls[i].elements.len() ==> #[trigger] ls[i].elements[k].id
            < u32::MAX
}

/// Every layer and element id is below `bound`.
pub open spec fn ids_below(ls: Seq<LayerView>, bound: u32) -> bool {
    &&& forall|i: int| 0 <= i < ls.len() ==> #[trigger] ls[i].id < bound
    &&& forall|i: int, k: int|
        0 <= i < ls.len() && 0 <= k < ls[i].elements.len() ==> #[trigger] ls[i].elements[k].id
            < bound
}

proof fn lemma_max_id(ls: Seq<LayerView>)
    ensures
        forall|i: int| 0 <= i < ls.len() ==> #[trigger] ls[i].id <= max_id(ls),
        forall|i: int, k: int|
            0 <= i < ls.len() && 0 <= k < ls[i].elements.len() ==> #[trigger] ls[i].elements[k].id
                <= max_id(ls),
        ids_below_max(ls) ==> max_id(ls) < u32::MAX,
    decreases ls.len(),
{
    if ls.len() > 0 {
        let p = ls.drop_last();
        let last = ls.len() - 1;
        lemma_max_id(p);
        lemma_max_element_id(ls[last].elements);
        assert forall|i: int| 0 <= i < ls.len() implies #[trigger] ls[i].id <= max_id(ls) by {
            if i < last {
                assert(ls[i] == p[i]);
            }
        }
        assert forall|i: int, k: int|
            0 <= i < ls.len() && 0 <= k < ls[i].elements.len() implies #[trigger] ls[i].elements[k].id
                <= max_id(ls) by {
            if i < last {
                assert(ls[i] == p[i]);
                assert(p[i].elements[k].id <= max_id(p));
            } else {
                assert(ls[last].elements[k].id <= max_element_id(ls[last].elements));
            }
        }
        if ids_below_max(ls) {
            assert forall|i: int| 0 <= i < p.len() implies #[trigger] p[i].id < u32::MAX by {
                assert(ls[i] == p[i]);
            }
            assert forall|i: int, k: int|
                0 <= i < p.len() && 0 <= k < p[i].elements.len() implies #[trigger] p[i].elements[k].id
                    < u32::MAX by {
                assert(ls[i] == p[i]);
                assert(ls[i].elements[k].id < u32::MAX);
            }
            assert(ls[last].id < u32::MAX);
            assert forall|k: int| 0 <= k < ls[last].elements.len() implies #[trigger] ls[last].elements[k].id
                < u32::MAX by {
                assert(ls[last].elements[k].id < u32::MAX);
            }
        }
    }
}

/// After a document is recalculated, the id the allocator hands out next is
/// greater than every layer and element id it holds, provided none of the
/// loaded ids is `u32::MAX` (where the allocator saturates).
pub proof fn lemma_recalculated_ids_fresh(old: DocumentView, new: DocumentView)
    requires
        recalculate_post(old, new),
        ids_below_max(old.layers),
    ensures
        ids_below(new.layers, new.next_id),
{
    if old.layers.len() > 0 {
        lemma_max_id(old.layers);
    } else {
        assert(new.layers.len() == 1);
        assert(new.layers[0].elements.len() == 0);
    }
}

/// An update that sets the width to 0 leaves a width of 1.0.
pub proof fn lemma_zero_width_clamps(u: ElementUpdate, e: Element)
    requires
        u.width == Some(0u32),
    ensures
        u.apply_spec(e).transform.width == ONE,
{
}

/// No element of the layers is a shape.
pub open spec fn no_shapes(ls: Seq<LayerView>) -> bool {
    forall|j: int, k: int|
        0 <= j < ls.len() && 0 <= k < ls[j].elements.len() ==> !(#[trigger] ls[j].elements[k]).is_shape()
}

proof fn lemma_shape_has_first(ls: Seq<LayerView>, li: int, ei: int)
    requires
        0 <= li < ls.len(),
        0 <= ei < ls[li].elements.len(),
        ls[li].elements[ei].is_shape(),
    ensures
        first_shape(ls) is Some,
    decreases li, ei,
{
    if is_first_shape(ls, li, ei) {
        lemma_first_shape_unique(ls, li, ei);
    } else if exists|j: int, k: int|
        0 <= j < li && 0 <= k < ls[j].elements.len() && (#[trigger] ls[j].elements[k]).is_shape() {
        let (j, k) = choose|j: int, k: int|
            0 <= j < li && 0 <= k < ls[j].elements.len() && (#[trigger] ls[j].elements[k]).is_shape();
        lemma_shape_has_first(ls, j, k);
    } else {
        let k = choose|k: int| 0 <= k < ei && (#[trigger] ls[li].elements[k]).is_shape();
        lemma_shape_has_first(ls, li, k);
    }
}

proof fn lemma_layer_has_first(ls: Seq<LayerView>, id: u32, i: int)
    requires
        0 <= i < ls.len(),
        ls[i].id == id,
    ensures
        has_layer(ls, id),
    decreases i,
{
    if is_first_layer(ls, id, i) {
        lemma_first_layer_unique(ls, id, i);
    } else {
        let j = choose|j: int| 0 <= j < i && #[trigger] ls[j].id == id;
        lemma_layer_has_first(ls, id, j);
    }
}

proof fn lemma_count_update(ls: Seq<LayerView>, i: int, l: LayerView)
    requires
        0 <= i < ls.len(),
    ensures
        element_count(ls.update(i, l)) + ls[i].elements.len() == element_count(ls)
            + l.elements.len(),
    decreases ls.len(),
{
    let u = ls.update(i, l);
    if i == ls.len() - 1 {
        assert(u.drop_last() =~= ls.drop_last());
    } else {
        assert(u.drop_last() =~= ls.drop_last().update(i, l));
        lemma_count_update(ls.drop_last(), i, l);
    }
}

proof fn lemma_push_shape(d: DocumentView, layer_id: u32, e: Element)
    requires
        no_shapes(d.layers),
        has_layer(d.layers, layer_id),
        e.is_shape(),
    ensures
        element_count(d.push_spec(layer_id, e).layers) == element_count(d.layers) + 1,
        first_shape(d.push_spec(layer_id, e).layers) == Some(e.id),
{
    let li = layer_index(d.layers, layer_id);
    assert(is_first_layer(d.layers, layer_id, li));
    let es = d.layers[li].elements;
    let ls2 = d.push_spec(layer_id, e).layers;
    assert(ls2[li].elements == es.insert(es.len() as int, e));
    lemma_count_update(d.layers, li, ls2[li]);
    assert forall|j: int, k: int|
        0 <= j < li && 0 <= k < ls2[j].elements.len() implies !(#[trigger] ls2[j].elements[k]).is_shape() by {
        assert(ls2[j] == d.layers[j]);
    }
    assert forall|k: int| 0 <= k < es.len() implies !(#[trigger] ls2[li].elements[k]).is_shape() by {
        assert(ls2[li].elements[k] == es[k]);
    }
    lemma_first_shape_unique(ls2, li, es.len() as int);
}

/// With no shape in the document, a first `ensure_primary_shape` adds exactly
/// one element; a second returns the same id, changes only that element's
/// frame, and adds none.
pub proof fn lemma_primary_shape_created_once(
    d0: DocumentView,
    d1: DocumentView,
    d2: DocumentView,
    t1: crate::document::Transform2D,
    t2: crate::document::Transform2D,
    r1: u32,
    r2: u32,
)
    requires
        first_shape(d0.layers) is None,
        ensure_primary_shape_post(d0, d1, t1, r1),
        ensure_primary_shape_post(d1, d2, t2, r2),
    ensures
        d1.element_count() == d0.element_count() + 1,
        r2 == r1,
        d2 == d1.replace_by_id_spec(r1, Element { transform: t2, ..d1.element_of(r1) }),
        d2.element_count() == d1.element_count(),
{
    assert(no_shapes(d0.layers)) by {
        assert forall|j: int, k: int|
            0 <= j < d0.layers.len() && 0 <= k < d0.layers[j].elements.len() implies !(
            #[trigger] d0.layers[j].elements[k]).is_shape() by {
            if d0.layers[j].elements[k].is_shape() {
                lemma_shape_has_first(d0.layers, j, k);
            }
        }
    }
    let e = choose|e: crate::document::Element|
        {
            &&& crate::document::is_new_rectangle(e, r1, t1)
            &&& if has_layer(d0.layers, d0.active_layer_id) {
                d1 == (DocumentView { next_id: (r1 + 1) as u32, ..d0 }).push_spec(
                    d0.active_layer_id,
                    e,
                )
            } else {
                exists|name: String|
                    #[trigger] name@ == "Layer 1"@ && d1 == (DocumentView {
                        layers: d0.layers.push(
                            LayerView {
                                id: (r1 + 1) as u32,
                                name,
                                visible: true,
                                locked: false,
                                elements: Seq::empty(),
                            },
                        ),
                        active_layer_id: (r1 + 1) as u32,
                        next_id: (r1 + 2) as u32,
                        ..d0
                    }).push_spec((r1 + 1) as u32, e)
            }
        };
    if has_layer(d0.layers, d0.active_layer_id) {
        lemma_push_shape(DocumentView { next_id: (r1 + 1) as u32, ..d0 }, d0.active_layer_id, e);
    } else {
        let name = choose|name: String|
            #[trigger] name@ == "Layer 1"@ && d1 == (DocumentView {
                layers: d0.layers.push(
                    LayerView {
                        id: (r1 + 1) as u32,
                        name,
                        visible: true,
                        locked: false,
                        elements: Seq::empty(),
                    },
                ),
                active_layer_id: (r1 + 1) as u32,
                next_id: (r1 + 2) as u32,
                ..d0
            }).push_spec((r1 + 1) as u32, e);
        let l = LayerView {
            id: (r1 + 1) as u32,
            name,
            visible: true,
            locked: false,
            elements: Seq::empty(),
        };
        let dm = DocumentView {
            layers: d0.layers.push(l),
            active_layer_id: (r1 + 1) as u32,
            next_id: (r1 + 2) as u32,
            ..d0
        };
        assert(dm.layers.drop_last() =~= d0.layers);
        assert(element_count(dm.layers) == element_count(d0.layers));
        lemma_layer_has_first(dm.layers, (r1 + 1) as u32, d0.layers.len() as int);
        assert(no_shapes(dm.layers)) by {
            assert forall|j: int, k: int|
                0 <= j < dm.layers.len() && 0 <= k < dm.layers[j].elements.len() implies !(
                #[trigger] dm.layers[j].elements[k]).is_shape() by {
                assert(j < d0.layers.len());
                assert(dm.layers[j] == d0.layers[j]);
            }
        }
        lemma_push_shape(dm, (r1 + 1) as u32, e);
    }
    assert(first_shape(d1.layers) == Some(r1));
    if has_element(d1.layers, r1) {
        let (li, ei) = element_location(d1.layers, r1);
        assert(is_first_location(d1.layers, r1, li, ei));
        lemma_count_update(
            d1.layers,
            li,
            with_elements(
                d1.layers[li],
                d1.layers[li].elements.update(ei, Element { transform: t2, ..d1.element_of(r1) }),
            ),
        );
    }
}

} // verus!
