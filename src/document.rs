//! The parsed document that object handles borrow from.

use vstd::prelude::*;

use crate::search::first_from;
use crate::text::str_equals;

verus! {

/// Identity of an object, stable for the lifetime of its document.
#[derive(Debug, Clone, Copy, PartialEq, Eq, Structural)]
pub struct ObjectId(pub i64);

/// Position of an object node in its document's node list.
#[derive(Debug, Clone, Copy, PartialEq, Eq, Structural)]
pub struct ObjectNodeId(pub usize);

/// A binary64 floating-point number, carried as its IEEE 754 bit pattern.
///
/// This layer only moves such values from the document to the caller and
/// never computes with them, so the bit pattern is all it needs.
#[derive(Debug, Clone, Copy, PartialEq, Eq, Structural)]
pub struct Float64 {
    pub bits: u64,
}

/// A stored property value, before it is decoded into a semantic type.
#[derive(Debug)]
pub enum PropertyValue {
    Bool(bool),
    Int(i64),
    F64(Float64),
    F64Vector(Vec<Float64>),
    Str(String),
}

/// One named entry of a property table.
#[derive(Debug)]
pub struct PropertyEntry {
    pub name: String,
    pub value: PropertyValue,
}

/// Default property values shared by all objects of one native type.
#[derive(Debug)]
pub struct PropertyTemplate {
    pub native_typename: String,
    pub properties: Vec<PropertyEntry>,
}

/// One object node: its identity, class tags and own property table.
#[derive(Debug)]
pub struct ObjectNode {
    pub id: ObjectId,
    pub class: String,
    pub subclass: String,
    pub properties: Vec<PropertyEntry>,
}

/// A directed edge from `source` to `destination`, optionally labelled.
///
/// An unlabelled edge links two objects; a labelled one binds an object
/// to a property of the other.
#[derive(Debug)]
pub struct Connection {
    pub source: ObjectId,
    pub destination: ObjectId,
    pub label: Option<String>,
}

/// A parsed document: object nodes, property templates and connections.
#[derive(Debug)]
pub struct Document {
    pub objects: Vec<ObjectNode>,
    pub templates: Vec<PropertyTemplate>,
    pub connections: Vec<Connection>,
}

} // verus!

verus! {

/// Holds of an object node with identity `id`.
pub open spec fn has_id(id: ObjectId) -> spec_fn(ObjectNode) -> bool {
    |n: ObjectNode| n.id == id
}

/// Holds of a property entry named `name`.
pub open spec fn has_name(name: Seq<char>) -> spec_fn(PropertyEntry) -> bool {
    |e: PropertyEntry| e.name@ == name
}

/// Holds of a property template for the native type `name`.
pub open spec fn is_template_for(name: Seq<char>) -> spec_fn(PropertyTemplate) -> bool {
    |t: PropertyTemplate| t.native_typename@ == name
}

/// The value of the first entry named `name`, if any.
pub open spec fn entry_value(entries: Seq<PropertyEntry>, name: Seq<char>) -> Option<PropertyValue> {
    match first_from(entries, has_name(name), 0) {
        Some(k) => Some(entries[k].value),
        None => None,
    }
}

/// Finds the first entry named `name`.
pub fn find_entry<'a>(entries: &'a Vec<PropertyEntry>, name: &str) -> (r: Option<&'a PropertyValue>)
    ensures
        match r {
            Some(v) => entry_value(entries@, name@) == Some(*v),
            None => entry_value(entries@, name@) is None,
        },
{
    let mut i: usize = 0;
    while i < entries.len()
        invariant
            i <= entries@.len(),
            first_from(entries@, has_name(name@), 0) == first_from(entries@, has_name(name@), i as int),
        decreases entries.len() - i,
    {
        if str_equals(entries[i].name.as_str(), name) {
            return Some(&entries[i].value);
        }
        i += 1;
    }
    None
}

impl Document {
    /// The node index of the first object with identity `id`, if any.
    pub open spec fn index_of(&self, id: ObjectId) -> Option<int> {
        first_from(self.objects@, has_id(id), 0)
    }

    /// Finds the node index of the first object with identity `id`.
    pub fn object_index(&self, id: ObjectId) -> (r: Option<usize>)
        ensures
            match r {
                Some(k) => self.index_of(id) == Some(k as int),
                None => self.index_of(id) is None,
            },
    {
        let mut i: usize = 0;
        while i < self.objects.len()
            invariant
                i <= self.objects@.len(),
                self.index_of(id) == first_from(self.objects@, has_id(id), i as int),
            decreases self.objects.len() - i,
        {
            if self.objects[i].id == id {
                return Some(i);
            }
            i += 1;
        }
        None
    }

    /// The index of the first template for the native type `name`, if any.
    pub open spec fn template_index(&self, name: Seq<char>) -> Option<int> {
        first_from(self.templates@, is_template_for(name), 0)
    }

    /// Finds the property table of the first template for the native type `name`.
    pub fn template_properties(&self, name: &str) -> (r: Option<&Vec<PropertyEntry>>)
        ensures
            match self.template_index(name@) {
                Some(k) => r == Some(&self.templates@[k].properties),
                None => r is None,
            },
    {
        let mut i: usize = 0;
        while i < self.templates.len()
            invariant
                i <= self.templates@.len(),
                self.template_index(name@) == first_from(self.templates@, is_template_for(name@), i as int),
            decreases self.templates.len() - i,
        {
            if str_equals(self.templates[i].native_typename.as_str(), name) {
                return Some(&self.templates[i].properties);
            }
            i += 1;
        }
        None
    }
}

} // verus!
