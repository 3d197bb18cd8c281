use vstd::prelude::*;

use crate::shapes::geometry::{Color, Geometry, Shape, Style, XYPoint};

verus! {

/// Identifies a shape within a document. Ids are handed out in increasing
/// order and never reused.
#[derive(Clone, Copy, Debug, PartialEq, Eq, Structural, Hash)]
pub struct ShapeId(pub u64);

/// Whether some entry of `s` carries `id`.
pub open spec fn has_id(s: Seq<(ShapeId, Shape)>, id: ShapeId) -> bool {
    exists|i: int| 0 <= i < s.len() && #[trigger] s[i].0 == id
}

/// The position of the entry carrying `id` (meaningful when `has_id(s, id)`).
pub open spec fn index_of(s: Seq<(ShapeId, Shape)>, id: ShapeId) -> int {
    choose|i: int| 0 <= i < s.len() && #[trigger] s[i].0 == id
}

/// No two entries carry the same id.
pub open spec fn unique_ids(s: Seq<(ShapeId, Shape)>) -> bool {
    forall|i: int, j: int|
        0 <= i < s.len() && 0 <= j < s.len() && #[trigger] s[i].0 == #[trigger] s[j].0 ==> i == j
}

/// The shape stored under `id`, if any.
pub open spec fn lookup(s: Seq<(ShapeId, Shape)>, id: ShapeId) -> Option<Shape> {
    if has_id(s, id) {
        Some(s[index_of(s, id)].1)
    } else {
        None
    }
}

/// Replace the shape stored under `id`, or append it when `id` is absent.
pub open spec fn upsert(s: Seq<(ShapeId, Shape)>, id: ShapeId, shape: Shape) -> Seq<(ShapeId, Shape)> {
    if has_id(s, id) {
        s.update(index_of(s, id), (id, shape))
    } else {
        s.push((id, shape))
    }
}

/// Remove the entry carrying `id`, if there is one.
pub open spec fn delete(s: Seq<(ShapeId, Shape)>, id: ShapeId) -> Seq<(ShapeId, Shape)> {
    if has_id(s, id) {
        s.remove(index_of(s, id))
    } else {
        s
    }
}

/// Replace the geometry of the shape stored under `id`, keeping its style and
/// its place; nothing changes when `id` is absent.
pub open spec fn set_geometry(s: Seq<(ShapeId, Shape)>, id: ShapeId, geometry: Geometry) -> Seq<(ShapeId, Shape)> {
    if has_id(s, id) {
        let i = index_of(s, id);
        s.update(i, (id, Shape { geometry, style: s[i].1.style }))
    } else {
        s
    }
}

/// In a sequence with unique ids, `index_of` finds the one entry carrying `id`.
pub proof fn lemma_index_of_unique(s: Seq<(ShapeId, Shape)>, id: ShapeId, i: int)
    requires
        unique_ids(s),
        0 <= i < s.len(),
        s[i].0 == id,
    ensures
        has_id(s, id),
        index_of(s, id) == i,
{
    assert(has_id(s, id));
    let j = index_of(s, id);
    assert(s[j].0 == s[i].0);
}

/// Every id in `s` lies below `n`.
pub open spec fn ids_below(s: Seq<(ShapeId, Shape)>, n: u64) -> bool {
    forall|i: int| 0 <= i < s.len() ==> (#[trigger] s[i]).0.0 < n
}

/// Upserting keeps ids unique, stores `shape` under `id`, and doing it a
/// second time changes nothing.
pub proof fn lemma_upsert(s: Seq<(ShapeId, Shape)>, id: ShapeId, shape: Shape, n: u64)
    requires
        unique_ids(s),
    ensures
        unique_ids(upsert(s, id, shape)),
        lookup(upsert(s, id, shape), id) == Some(shape),
        upsert(upsert(s, id, shape), id, shape) == upsert(s, id, shape),
        ids_below(s, n) && id.0 < n ==> ids_below(upsert(s, id, shape), n),
{
    let r = upsert(s, id, shape);
    let i = if has_id(s, id) { index_of(s, id) } else { s.len() as int };
    if has_id(s, id) {
        assert(s[index_of(s, id)].0 == id);
    }
    assert(r[i] == (id, shape));
    assert(unique_ids(r)) by {
        assert forall|a: int, b: int|
            0 <= a < r.len() && 0 <= b < r.len() && #[trigger] r[a].0 == #[trigger] r[b].0 implies a == b by {
            if a != i && b != i {
                assert(r[a] == s[a] && r[b] == s[b]);
            } else if a == i && b != i {
                assert(r[b] == s[b]);
                if has_id(s, id) {
                    assert(s[index_of(s, id)].0 == s[b].0);
                } else {
                    assert(s[b].0 == id);
                }
            } else if a != i && b == i {
                assert(r[a] == s[a]);
                if has_id(s, id) {
                    assert(s[index_of(s, id)].0 == s[a].0);
                } else {
                    assert(s[a].0 == id);
                }
            }
        }
    }
    lemma_index_of_unique(r, id, i);
    assert(upsert(r, id, shape) =~= r);
    if ids_below(s, n) && id.0 < n {
        assert forall|k: int| 0 <= k < r.len() implies (#[trigger] r[k]).0.0 < n by {
            if k != i {
                assert(r[k] == s[k]);
            }
        }
    }
}

/// Deleting keeps ids unique, leaves no entry under `id`, and doing it a
/// second time changes nothing.
pub proof fn lemma_delete(s: Seq<(ShapeId, Shape)>, id: ShapeId, n: u64)
    requires
        unique_ids(s),
    ensures
        unique_ids(delete(s, id)),
        !has_id(delete(s, id), id),
        lookup(delete(s, id), id) is None,
        delete(delete(s, id), id) == delete(s, id),
        ids_below(s, n) ==> ids_below(delete(s, id), n),
{
    let r = delete(s, id);
    if has_id(s, id) {
        let i = index_of(s, id);
        assert(s[i].0 == id);
        assert forall|k: int| 0 <= k < r.len() implies #[trigger] r[k] == (if k < i { s[k] } else { s[k + 1] }) by {}
        assert(unique_ids(r)) by {
            assert forall|a: int, b: int|
                0 <= a < r.len() && 0 <= b < r.len() && #[trigger] r[a].0 == #[trigger] r[b].0 implies a == b by {
                let a2 = if a < i { a } else { a + 1 };
                let b2 = if b < i { b } else { b + 1 };
                assert(r[a] == s[a2] && r[b] == s[b2]);
            }
        }
        if has_id(r, id) {
            let j = index_of(r, id);
            let j2 = if j < i { j } else { j + 1 };
            assert(r[j] == s[j2]);
        }
        if ids_below(s, n) {
            assert forall|k: int| 0 <= k < r.len() implies (#[trigger] r[k]).0.0 < n by {
                let k2 = if k < i { k } else { k + 1 };
                assert(r[k] == s[k2]);
            }
        }
    }
}

/// Replacing a geometry keeps the ids, and only the last of two
/// replacements under the same id matters.
pub proof fn lemma_set_geometry(s: Seq<(ShapeId, Shape)>, id: ShapeId, g1: Geometry, g2: Geometry, n: u64)
    requires
        unique_ids(s),
    ensures
        unique_ids(set_geometry(s, id, g1)),
        has_id(set_geometry(s, id, g1), id) == has_id(s, id),
        set_geometry(set_geometry(s, id, g1), id, g2) == set_geometry(s, id, g2),
        ids_below(s, n) ==> ids_below(set_geometry(s, id, g1), n),
{
    let r = set_geometry(s, id, g1);
    if has_id(s, id) {
        let i = index_of(s, id);
        assert(s[i].0 == id);
        assert forall|k: int| 0 <= k < r.len() implies (#[trigger] r[k]).0 == s[k].0 by {}
        assert(unique_ids(r)) by {
            assert forall|a: int, b: int|
                0 <= a < r.len() && 0 <= b < r.len() && #[trigger] r[a].0 == #[trigger] r[b].0 implies a == b by {
                assert(r[a].0 == s[a].0 && r[b].0 == s[b].0);
            }
        }
        lemma_index_of_unique(r, id, i);
        assert(set_geometry(r, id, g2) =~= set_geometry(s, id, g2));
        if ids_below(s, n) {
            assert forall|k: int| 0 <= k < r.len() implies (#[trigger] r[k]).0.0 < n by {
                assert(r[k].0 == s[k].0);
            }
        }
    }
}

/// The entries of the demo document.
pub open spec fn demo_shapes() -> Seq<(ShapeId, Shape)> {
    seq![
        (ShapeId(0), Shape {
            geometry: Geometry::Circle { center: XYPoint { x: 200, y: 200 }, radius: 50 },
            style: Style { fill: Color::Blue },
        }),
        (ShapeId(1), Shape {
            geometry: Geometry::Rectangle { top_left: XYPoint { x: 300, y: 100 }, size: XYPoint { x: 120, y: 80 } },
            style: Style { fill: Color::Green },
        }),
    ]
}

/// The shapes of a drawing, in the order in which they were first inserted.
pub struct Document {
    shapes: Vec<(ShapeId, Shape)>,
    next_id: u64,
}

impl Document {
    /// The entries, in insertion order.
    pub closed spec fn entries(&self) -> Seq<(ShapeId, Shape)> {
        self.shapes@
    }

    /// The id that the next call of `generate_shape_id` hands out.
    pub closed spec fn next_id(&self) -> u64 {
        self.next_id
    }

    /// Ids are unique, and every id in use was handed out before.
    pub open spec fn wf(&self) -> bool {
        &&& unique_ids(self.entries())
        &&& forall|i: int| 0 <= i < self.entries().len() ==> (#[trigger] self.entries()[i]).0.0 < self.next_id()
    }

    pub fn new() -> (r: Document)
        ensures
            r.wf(),
            r.entries() == Seq::<(ShapeId, Shape)>::empty(),
            r.next_id() == 0,
    {
        Document { shapes: Vec::new(), next_id: 0 }
    }

    /// A document holding a circle and a rectangle to start from.
    pub fn new_demo() -> (r: Document)
        ensures
            r.wf(),
            r.entries() == demo_shapes(),
            r.next_id() == 2,
    {
        let mut doc = Document::new();
        let circle = Shape {
            geometry: Geometry::Circle { center: XYPoint::new(200, 200), radius: 50 },
            style: Style::new(Color::Blue),
        };
        let rectangle = Shape {
            geometry: Geometry::Rectangle { top_left: XYPoint::new(300, 100), size: XYPoint::new(120, 80) },
            style: Style::new(Color::Green),
        };
        if let Some(id) = doc.generate_shape_id() {
            doc.upsert_shape_with_id(&id, circle);
        }
        if let Some(id) = doc.generate_shape_id() {
            doc.upsert_shape_with_id(&id, rectangle);
        }
        assert(doc.shapes@ =~= demo_shapes());
        doc
    }

    /// Reserves a fresh id. `None` once every id has been handed out.
    pub fn generate_shape_id(&mut self) -> (r: Option<ShapeId>)
        requires
            old(self).wf(),
        ensures
            final(self).wf(),
            final(self).entries() == old(self).entries(),
            old(self).next_id() < u64::MAX ==> r == Some(ShapeId(old(self).next_id()))
                && final(self).next_id() == old(self).next_id() + 1,
            old(self).next_id() == u64::MAX ==> r.is_none() && final(self).next_id() == old(self).next_id(),
            r matches Some(id) ==> !has_id(old(self).entries(), id),
    {
        if self.next_id < u64::MAX {
            let id = ShapeId(self.next_id);
            self.next_id = self.next_id + 1;
            proof {
                if has_id(self.shapes@, id) {
                    let i = index_of(self.shapes@, id);
                    assert(self.shapes@[i].0.0 < old(self).next_id);
                }
            }
            Some(id)
        } else {
            None
        }
    }

    /// The position of the entry carrying `id`.
    fn find_index(&self, id: &ShapeId) -> (r: Option<usize>)
        requires
            self.wf(),
        ensures
            r matches Some(i) ==> has_id(self.entries(), *id) && i == index_of(self.entries(), *id)
                && i < self.entries().len(),
            r is None ==> !has_id(self.entries(), *id),
    {
        let mut i: usize = 0;
        while i < self.shapes.len()
            invariant
                self.wf(),
                i <= self.shapes@.len(),
                forall|k: int| 0 <= k < i ==> (#[trigger] self.shapes@[k]).0 != *id,
            decreases self.shapes@.len() - i,
        {
            if self.shapes[i].0 == *id {
                proof {
                    lemma_index_of_unique(self.shapes@, *id, i as int);
                }
                return Some(i);
            }
            i = i + 1;
        }
        None
    }

    pub fn get_shape_by_id(&self, id: &ShapeId) -> (r: Option<Shape>)
        requires
            self.wf(),
        ensures
            r == lookup(self.entries(), *id),
    {
        match self.find_index(id) {
            Some(i) => Some(self.shapes[i].1),
            None => None,
        }
    }

    /// Inserts `shape` under `id`, or replaces the shape already stored there.
    pub fn upsert_shape_with_id(&mut self, id: &ShapeId, shape: Shape)
        requires
            old(self).wf(),
            id.0 < old(self).next_id(),
        ensures
            final(self).wf(),
            final(self).entries() == upsert(old(self).entries(), *id, shape),
            final(self).next_id() == old(self).next_id(),
            lookup(final(self).entries(), *id) == Some(shape),
    {
        proof {
            lemma_upsert(self.shapes@, *id, shape, self.next_id);
        }
        match self.find_index(id) {
            Some(i) => {
                self.shapes.set(i, (*id, shape));
            }
            None => {
                self.shapes.push((*id, shape));
            }
        }
        assert(unique_ids(self.shapes@));
    }

    /// Removes the shape stored under `id`; nothing happens when there is none.
    pub fn delete_shape_with_id(&mut self, id: &ShapeId)
        requires
            old(self).wf(),
        ensures
            final(self).wf(),
            final(self).entries() == delete(old(self).entries(), *id),
            final(self).next_id() == old(self).next_id(),
            lookup(final(self).entries(), *id) is None,
    {
        proof {
            lemma_delete(self.shapes@, *id, self.next_id);
        }
        if let Some(i) = self.find_index(id) {
            let ghost s = self.shapes@;
            self.shapes.remove(i);
            assert forall|k: int| 0 <= k < self.shapes@.len() implies #[trigger] self.shapes@[k] == (if k < i { s[k] } else { s[k + 1] }) by {}
        }
    }

    /// Replaces the geometry of the shape stored under `id`, keeping its style;
    /// nothing happens when there is no such shape.
    pub fn set_geometry_for_shape_id(&mut self, id: &ShapeId, geometry: Geometry)
        requires
            old(self).wf(),
        ensures
            final(self).wf(),
            final(self).entries() == set_geometry(old(self).entries(), *id, geometry),
            final(self).next_id() == old(self).next_id(),
    {
        if let Some(i) = self.find_index(id) {
            let style = self.shapes[i].1.style;
            self.shapes.set(i, (*id, Shape { geometry, style }));
            assert(unique_ids(self.shapes@));
        }
    }

    pub fn len(&self) -> (r: usize)
        ensures
            r == self.entries().len(),
    {
        self.shapes.len()
    }

    /// The entry at position `i` in insertion order.
    pub fn entry(&self, i: usize) -> (r: (ShapeId, Shape))
        requires
            i < self.entries().len(),
        ensures
            r == self.entries()[i as int],
    {
        self.shapes[i]
    }
}

} // verus!
