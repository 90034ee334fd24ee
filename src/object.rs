//! Generic object handles and their property tables.

use vstd::prelude::*;

use crate::document::{entry_value, find_entry, Document, ObjectId, ObjectNode, ObjectNodeId, PropertyEntry, PropertyValue};

verus! {

/// A borrowed view of one object node of a document.
#[derive(Debug, Clone, Copy)]
pub struct ObjectHandle<'a> {
    pub doc: &'a Document,
    pub node_id: ObjectNodeId,
}

impl<'a> ObjectHandle<'a> {
    /// The handle refers to a node of its document.
    pub open spec fn wf(self) -> bool {
        self.node_id.0 < self.doc.objects@.len()
    }

    /// The node the handle refers to.
    pub open spec fn node(self) -> ObjectNode {
        self.doc.objects@[self.node_id.0 as int]
    }

    /// Returns the object ID.
    pub fn id(&self) -> (r: ObjectId)
        requires
            self.wf(),
        ensures
            r == self.node().id,
    {
        self.doc.objects[self.node_id.0].id
    }

    /// Returns the node ID.
    pub fn node_id(&self) -> (r: ObjectNodeId)
        ensures
            r == self.node_id,
    {
        self.node_id
    }

    /// Returns the document the object belongs to.
    pub fn document(&self) -> (r: &'a Document)
        ensures
            r == self.doc,
    {
        self.doc
    }

    /// Returns the class of the object.
    pub fn class(&self) -> (r: &'a str)
        requires
            self.wf(),
        ensures
            r@ == self.node().class@,
    {
        self.doc.objects[self.node_id.0].class.as_str()
    }

    /// Returns the subclass of the object.
    pub fn subclass(&self) -> (r: &'a str)
        requires
            self.wf(),
        ensures
            r@ == self.node().subclass@,
    {
        self.doc.objects[self.node_id.0].subclass.as_str()
    }

    /// Returns the object's own properties, backed by the template for the
    /// native type `native_typename` where the document has one.
    pub fn properties_by_native_typename(&self, native_typename: &str) -> (r: ObjectProperties<'a>)
        requires
            self.wf(),
        ensures
            r.own@ == self.node().properties@,
            match self.doc.template_index(native_typename@) {
                Some(k) => r.template == Some(&self.doc.templates@[k].properties),
                None => r.template is None,
            },
    {
        ObjectProperties {
            own: &self.doc.objects[self.node_id.0].properties,
            template: self.doc.template_properties(native_typename),
        }
    }
}

impl Document {
    /// Returns the handle of the first object with identity `id`, if any.
    pub fn object_by_id(&self, id: ObjectId) -> (r: Option<ObjectHandle<'_>>)
        ensures
            match self.index_of(id) {
                Some(k) => r matches Some(h) && h.doc == self && h.node_id.0 == k,
                None => r is None,
            },
            r matches Some(h) ==> h.wf(),
            self.index_of(id) matches Some(k) ==> 0 <= k < self.objects@.len() && self.objects@[k].id == id,
    {
        proof {
            crate::search::lemma_first_from(self.objects@, crate::document::has_id(id), 0);
        }
        match self.object_index(id) {
            Some(k) => Some(ObjectHandle { doc: self, node_id: ObjectNodeId(k) }),
            None => None,
        }
    }

    /// Returns the handle of the node with the given node ID, if it exists.
    pub fn object_by_node_id(&self, node_id: ObjectNodeId) -> (r: Option<ObjectHandle<'_>>)
        ensures
            node_id.0 < self.objects@.len() ==> r == Some(ObjectHandle { doc: self, node_id }),
            node_id.0 >= self.objects@.len() ==> r is None,
            r matches Some(h) ==> h.wf(),
    {
        if node_id.0 < self.objects.len() {
            Some(ObjectHandle { doc: self, node_id })
        } else {
            None
        }
    }
}

/// A property table: an object's own entries, backed by a template's.
#[derive(Debug, Clone, Copy)]
pub struct ObjectProperties<'a> {
    pub own: &'a Vec<PropertyEntry>,
    pub template: Option<&'a Vec<PropertyEntry>>,
}

impl<'a> ObjectProperties<'a> {
    /// The stored value for `name`: the object's own entry if it has one,
    /// else the template's.
    pub open spec fn lookup(self, name: Seq<char>) -> Option<PropertyValue> {
        match entry_value(self.own@, name) {
            Some(v) => Some(v),
            None => match self.template {
                Some(t) => entry_value(t@, name),
                None => None,
            },
        }
    }

    /// Returns the stored value for `name`, if any.
    pub fn get_property(&self, name: &str) -> (r: Option<&'a PropertyValue>)
        ensures
            match r {
                Some(v) => self.lookup(name@) == Some(*v),
                None => self.lookup(name@) is None,
            },
    {
        match find_entry(self.own, name) {
            Some(v) => Some(v),
            None => match self.template {
                Some(t) => find_entry(t, name),
                None => None,
            },
        }
    }
}

} // verus!

verus! {

/// A handle was given to a category's constructor but its class is another.
#[derive(Debug, Clone)]
pub struct ClassMismatch {
    /// The class the category requires.
    pub expected: String,
    /// The class the object has.
    pub actual: String,
}

} // verus!
