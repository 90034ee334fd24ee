//! Resolution of related objects through connection edges.

use vstd::prelude::*;

use crate::document::{Connection, Document, ObjectId};
use crate::object::ObjectHandle;
use crate::search::{first_from, lemma_first_from, lemma_first_from_is};
use crate::text::str_equals;
use crate::typed::{category_of, Category, TypedObjectHandle};

verus! {

/// Which end of its edges an object is looked for at.
#[derive(Debug, Clone, Copy, PartialEq, Eq, Structural)]
pub enum Direction {
    /// Objects at the source of edges that end at this object.
    Source,
    /// Objects at the destination of edges that start at this object.
    Destination,
}

/// The end of `c` at which the object whose relations are sought stands.
pub open spec fn near_end(c: Connection, dir: Direction) -> ObjectId {
    match dir {
        Direction::Source => c.destination,
        Direction::Destination => c.source,
    }
}

/// The end of `c` at which a related object stands.
pub open spec fn far_end(c: Connection, dir: Direction) -> ObjectId {
    match dir {
        Direction::Source => c.source,
        Direction::Destination => c.destination,
    }
}

/// The label of an edge is the one asked for (`None`: no label at all).
pub open spec fn label_matches(label: Option<String>, wanted: Option<Seq<char>>) -> bool {
    match (label, wanted) {
        (None, None) => true,
        (Some(l), Some(w)) => l@ == w,
        _ => false,
    }
}

/// The view of a label filter.
pub open spec fn label_view(wanted: Option<&str>) -> Option<Seq<char>> {
    match wanted {
        Some(w) => Some(w@),
        None => None,
    }
}

/// An edge of object `id`, in direction `dir`, with the label asked for,
/// whose far end resolves to an object of category `cat`.
pub open spec fn qualifies(doc: Document, id: ObjectId, dir: Direction, wanted: Option<Seq<char>>, cat: Category) -> spec_fn(Connection) -> bool {
    |c: Connection|
        near_end(c, dir) == id && label_matches(c.label, wanted) && match doc.index_of(far_end(c, dir)) {
            Some(k) => category_of(doc.objects@[k].class@, doc.objects@[k].subclass@) == cat,
            None => false,
        }
}

/// The node index of the related object: the far end of the first
/// qualifying edge in declaration order, if there is one.
pub open spec fn related_index(doc: Document, id: ObjectId, dir: Direction, wanted: Option<Seq<char>>, cat: Category) -> Option<int> {
    match first_from(doc.connections@, qualifies(doc, id, dir, wanted, cat), 0) {
        Some(i) => doc.index_of(far_end(doc.connections@[i], dir)),
        None => None,
    }
}

fn label_equals(label: &Option<String>, wanted: Option<&str>) -> (r: bool)
    ensures
        r == label_matches(*label, label_view(wanted)),
{
    match (label, wanted) {
        (None, None) => true,
        (Some(l), Some(w)) => str_equals(l.as_str(), w),
        _ => false,
    }
}

impl<'a> ObjectHandle<'a> {
    /// Returns the first object related to this one through an edge in
    /// direction `dir` labelled `wanted` (`None`: unlabelled) that falls into
    /// category `cat`, in edge-declaration order.
    pub fn find_related(&self, dir: Direction, wanted: Option<&str>, cat: Category) -> (r: Option<TypedObjectHandle<'a>>)
        requires
            self.wf(),
        ensures
            match related_index(*self.doc, self.node().id, dir, label_view(wanted), cat) {
                Some(k) => r matches Some(t) && t.spec_object().doc == self.doc && t.spec_object().node_id.0 == k
                    && t.spec_category() == cat,
                None => r is None,
            },
    {
        let doc = self.doc;
        let id = self.id();
        let ghost p = qualifies(*doc, id, dir, label_view(wanted), cat);
        let mut i: usize = 0;
        while i < doc.connections.len()
            invariant
                i <= doc.connections@.len(),
                id == self.node().id,
                doc == self.doc,
                p == qualifies(*doc, id, dir, label_view(wanted), cat),
                first_from(doc.connections@, p, 0) == first_from(doc.connections@, p, i as int),
            decreases doc.connections.len() - i,
        {
            let c = &doc.connections[i];
            let (near, far) = match dir {
                Direction::Source => (c.destination, c.source),
                Direction::Destination => (c.source, c.destination),
            };
            proof {
                assert(near == near_end(*c, dir) && far == far_end(*c, dir));
            }
            if near == id && label_equals(&c.label, wanted) {
                match doc.object_by_id(far) {
                    Some(h) => {
                        let t = h.get_typed();
                        if t.category() == cat {
                            assert(p(doc.connections@[i as int]));
                            assert(first_from(doc.connections@, p, i as int) == Some(i as int));
                            return Some(t);
                        }
                        assert(!p(doc.connections@[i as int]));
                    },
                    None => {
                        assert(!p(doc.connections@[i as int]));
                    },
                }
            }
            assert(!p(doc.connections@[i as int]));
            i += 1;
        }
        None
    }
}

/// The node indices of the objects related through the first `n` edges,
/// in edge-declaration order.
pub open spec fn related_prefix(doc: Document, id: ObjectId, dir: Direction, wanted: Option<Seq<char>>, cat: Category, n: int) -> Seq<int>
    decreases n,
{
    if 0 < n <= doc.connections@.len() {
        let prev = related_prefix(doc, id, dir, wanted, cat, n - 1);
        let c = doc.connections@[n - 1];
        if qualifies(doc, id, dir, wanted, cat)(c) {
            prev.push(doc.index_of(far_end(c, dir))->Some_0)
        } else {
            prev
        }
    } else {
        Seq::empty()
    }
}

/// The node indices of all related objects, in edge-declaration order.
pub open spec fn related_indices(doc: Document, id: ObjectId, dir: Direction, wanted: Option<Seq<char>>, cat: Category) -> Seq<int> {
    related_prefix(doc, id, dir, wanted, cat, doc.connections@.len() as int)
}

impl<'a> ObjectHandle<'a> {
    /// Returns every object related to this one through an edge in direction
    /// `dir` labelled `wanted` (`None`: unlabelled) that falls into category
    /// `cat`, one per qualifying edge, in edge-declaration order.
    pub fn find_all_related(&self, dir: Direction, wanted: Option<&str>, cat: Category) -> (r: Vec<TypedObjectHandle<'a>>)
        requires
            self.wf(),
        ensures
            r@.len() == related_indices(*self.doc, self.node().id, dir, label_view(wanted), cat).len(),
            forall|j: int|
                0 <= j < r@.len() ==> (#[trigger] r@[j]).spec_object().doc == self.doc
                    && r@[j].spec_object().node_id.0 == related_indices(*self.doc, self.node().id, dir, label_view(wanted), cat)[j]
                    && r@[j].spec_category() == cat,
    {
        let doc = self.doc;
        let id = self.id();
        let ghost p = qualifies(*doc, id, dir, label_view(wanted), cat);
        let mut r: Vec<TypedObjectHandle<'a>> = Vec::new();
        let mut i: usize = 0;
        while i < doc.connections.len()
            invariant
                i <= doc.connections@.len(),
                id == self.node().id,
                doc == self.doc,
                p == qualifies(*doc, id, dir, label_view(wanted), cat),
                r@.len() == related_prefix(*doc, id, dir, label_view(wanted), cat, i as int).len(),
                forall|j: int|
                    0 <= j < r@.len() ==> (#[trigger] r@[j]).spec_object().doc == doc
                        && r@[j].spec_object().node_id.0 == related_prefix(*doc, id, dir, label_view(wanted), cat, i as int)[j]
                        && r@[j].spec_category() == cat,
            decreases doc.connections.len() - i,
        {
            let c = &doc.connections[i];
            let (near, far) = match dir {
                Direction::Source => (c.destination, c.source),
                Direction::Destination => (c.source, c.destination),
            };
            proof {
                assert(near == near_end(*c, dir) && far == far_end(*c, dir));
            }
            let mut hit = false;
            if near == id && label_equals(&c.label, wanted) {
                match doc.object_by_id(far) {
                    Some(h) => {
                        let t = h.get_typed();
                        if t.category() == cat {
                            r.push(t);
                            hit = true;
                        }
                    },
                    None => {},
                }
            }
            assert(hit == p(doc.connections@[i as int]));
            i += 1;
        }
        r
    }
}

/// The related object of `find_related` is the first of those that
/// `find_all_related` lists, and there is one exactly when the list is not
/// empty.
pub proof fn first_related_heads_all_related(doc: Document, id: ObjectId, dir: Direction, wanted: Option<Seq<char>>, cat: Category)
    ensures
        related_index(doc, id, dir, wanted, cat) == if related_indices(doc, id, dir, wanted, cat).len() > 0 {
            Some(related_indices(doc, id, dir, wanted, cat)[0])
        } else {
            None::<int>
        },
{
    let p = qualifies(doc, id, dir, wanted, cat);
    let n = doc.connections@.len() as int;
    lemma_related_prefix(doc, id, dir, wanted, cat, n);
    lemma_first_from(doc.connections@, p, 0);
    if related_indices(doc, id, dir, wanted, cat).len() > 0 {
        let i = choose|i: int|
            0 <= i < n && p(doc.connections@[i]) && (forall|k: int| 0 <= k < i ==> !p(#[trigger] doc.connections@[k]))
                && related_prefix(doc, id, dir, wanted, cat, n)[0] == doc.index_of(far_end(doc.connections@[i], dir))->Some_0;
        lemma_first_from_is(doc.connections@, p, 0, i);
    }
}

proof fn lemma_related_prefix(doc: Document, id: ObjectId, dir: Direction, wanted: Option<Seq<char>>, cat: Category, n: int)
    requires
        0 <= n <= doc.connections@.len(),
    ensures
        related_prefix(doc, id, dir, wanted, cat, n).len() == 0
            <==> forall|k: int| 0 <= k < n ==> !qualifies(doc, id, dir, wanted, cat)(#[trigger] doc.connections@[k]),
        related_prefix(doc, id, dir, wanted, cat, n).len() > 0 ==> exists|i: int|
            0 <= i < n && qualifies(doc, id, dir, wanted, cat)(doc.connections@[i])
                && (forall|k: int| 0 <= k < i ==> !qualifies(doc, id, dir, wanted, cat)(#[trigger] doc.connections@[k]))
                && related_prefix(doc, id, dir, wanted, cat, n)[0] == doc.index_of(far_end(doc.connections@[i], dir))->Some_0,
    decreases n,
{
    let p = qualifies(doc, id, dir, wanted, cat);
    if n > 0 {
        lemma_related_prefix(doc, id, dir, wanted, cat, n - 1);
        let prev = related_prefix(doc, id, dir, wanted, cat, n - 1);
        if prev.len() > 0 {
            let i = choose|i: int|
                0 <= i < n - 1 && p(doc.connections@[i]) && (forall|k: int| 0 <= k < i ==> !p(#[trigger] doc.connections@[k]))
                    && prev[0] == doc.index_of(far_end(doc.connections@[i], dir))->Some_0;
            assert(related_prefix(doc, id, dir, wanted, cat, n)[0] == prev[0]);
            assert(!(forall|k: int| 0 <= k < n ==> !p(#[trigger] doc.connections@[k]))) by {
                assert(p(doc.connections@[i]));
            }
        } else if p(doc.connections@[n - 1]) {
            assert(!(forall|k: int| 0 <= k < n ==> !p(#[trigger] doc.connections@[k]))) by {
                assert(p(doc.connections@[n - 1]));
            }
            assert(related_prefix(doc, id, dir, wanted, cat, n)[0] == doc.index_of(far_end(doc.connections@[n - 1], dir))->Some_0);
        }
    }
}

/// An object with no edges in the requested direction has no related object.
pub proof fn no_edges_no_related(doc: Document, id: ObjectId, dir: Direction, wanted: Option<Seq<char>>, cat: Category)
    requires
        forall|i: int| 0 <= i < doc.connections@.len() ==> near_end(#[trigger] doc.connections@[i], dir) != id,
    ensures
        related_index(doc, id, dir, wanted, cat) is None,
{
    let p = qualifies(doc, id, dir, wanted, cat);
    lemma_first_from(doc.connections@, p, 0);
}

/// Of two qualifying edges, the one declared first decides the related
/// object, whatever follows it.
pub proof fn first_declared_edge_wins(doc: Document, id: ObjectId, dir: Direction, wanted: Option<Seq<char>>, cat: Category, i: int, j: int)
    requires
        0 <= i < j < doc.connections@.len(),
        qualifies(doc, id, dir, wanted, cat)(doc.connections@[i]),
        qualifies(doc, id, dir, wanted, cat)(doc.connections@[j]),
        forall|k: int| 0 <= k < i ==> !qualifies(doc, id, dir, wanted, cat)(#[trigger] doc.connections@[k]),
    ensures
        related_index(doc, id, dir, wanted, cat) == doc.index_of(far_end(doc.connections@[i], dir)),
        related_index(doc, id, dir, wanted, cat) is Some,
{
    lemma_first_from_is(doc.connections@, qualifies(doc, id, dir, wanted, cat), 0, i);
}

} // verus!
