//! Objects with `Deformer` class.

use vstd::prelude::*;

use crate::document::{ObjectId, ObjectNodeId};
use crate::object::{ClassMismatch, ObjectHandle};
use crate::text::str_equals;

verus! {

/// Node ID for a deformer object.
#[derive(Debug, Clone, Copy, PartialEq, Eq, Structural)]
pub struct DeformerNodeId(pub ObjectNodeId);

/// Object handle for a deformer object.
#[derive(Debug, Clone, Copy)]
pub struct DeformerHandle<'a> {
    /// Object handle.
    object: ObjectHandle<'a>,
}

impl<'a> DeformerHandle<'a> {
    /// The generic handle this one views.
    pub closed spec fn spec_object(self) -> ObjectHandle<'a> {
        self.object
    }

    pub(crate) fn new(object: ObjectHandle<'a>) -> (r: Self)
        ensures
            r.spec_object() == object,
    {
        DeformerHandle { object }
    }

    /// Returns a deformer handle for `object`, or an error carrying the
    /// expected and actual classes if its class is not `Deformer`.
    pub fn from_object(object: &ObjectHandle<'a>) -> (r: Result<Self, ClassMismatch>)
        requires
            object.wf(),
        ensures
            object.node().class@ == "Deformer"@ <==> r is Ok,
            r matches Ok(d) ==> d.spec_object() == *object,
            r matches Err(e) ==> e.expected@ == "Deformer"@ && e.actual@ == object.node().class@,
    {
        let class = object.class();
        if !str_equals(class, "Deformer") {
            return Err(ClassMismatch { expected: "Deformer".to_owned(), actual: class.to_owned() });
        }
        Ok(DeformerHandle { object: *object })
    }

    /// Returns the underlying object handle.
    pub fn as_object(&self) -> (r: &ObjectHandle<'a>)
        ensures
            *r == self.spec_object(),
    {
        &self.object
    }

    /// Returns the underlying object handle.
    pub fn as_ref(&self) -> (r: &ObjectHandle<'a>)
        ensures
            *r == self.spec_object(),
    {
        self.as_object()
    }

    /// Returns the node ID.
    pub fn node_id(&self) -> (r: DeformerNodeId)
        ensures
            r == DeformerNodeId(self.spec_object().node_id),
    {
        DeformerNodeId(self.object.node_id())
    }

    /// Returns the object ID.
    pub fn object_id(&self) -> (r: ObjectId)
        requires
            self.spec_object().wf(),
        ensures
            r == self.spec_object().node().id,
    {
        self.object.id()
    }

    /// Returns the subclass if it is one this layer knows.
    pub fn known_subclass(&self) -> (r: Option<DeformerSubclass>)
        requires
            self.spec_object().wf(),
        ensures
            r == DeformerSubclass::spec_from_name(self.spec_object().node().subclass@),
    {
        DeformerSubclass::from_name(self.object.subclass())
    }
}

/// Subclass of a deformer known to this layer.
#[derive(Debug, Clone, Copy, PartialEq, Eq, Structural, Hash)]
#[non_exhaustive]
pub enum DeformerSubclass {
    /// `Skin` subclass.
    Skin,
}

impl DeformerSubclass {
    /// The known subclass named `name`, if any.
    pub open spec fn spec_from_name(name: Seq<char>) -> Option<DeformerSubclass> {
        if name == "Skin"@ {
            Some(DeformerSubclass::Skin)
        } else {
            None
        }
    }

    /// Returns the known subclass named `name`, if any.
    pub fn from_name(name: &str) -> (r: Option<DeformerSubclass>)
        ensures
            r == Self::spec_from_name(name@),
    {
        if str_equals(name, "Skin") {
            Some(DeformerSubclass::Skin)
        } else {
            None
        }
    }
}

/// Node ID for a skin deformer object.
#[derive(Debug, Clone, Copy, PartialEq, Eq, Structural)]
pub struct DeformerSkinNodeId(pub DeformerNodeId);

/// Object handle for a skin deformer object.
#[derive(Debug, Clone, Copy)]
pub struct DeformerSkinHandle<'a> {
    /// Deformer handle.
    object: DeformerHandle<'a>,
}

impl<'a> DeformerSkinHandle<'a> {
    /// The deformer handle this one views.
    pub closed spec fn spec_deformer(self) -> DeformerHandle<'a> {
        self.object
    }

    pub(crate) fn new(object: DeformerHandle<'a>) -> (r: Self)
        ensures
            r.spec_deformer() == object,
    {
        DeformerSkinHandle { object }
    }

    /// Returns the underlying deformer handle.
    pub fn as_deformer(&self) -> (r: &DeformerHandle<'a>)
        ensures
            *r == self.spec_deformer(),
    {
        &self.object
    }

    /// Returns the node ID.
    pub fn node_id(&self) -> (r: DeformerSkinNodeId)
        ensures
            r == DeformerSkinNodeId(DeformerNodeId(self.spec_deformer().spec_object().node_id)),
    {
        DeformerSkinNodeId(self.object.node_id())
    }
}

/// A deformer handle, classified by subclass.
#[derive(Debug, Clone, Copy)]
#[non_exhaustive]
pub enum TypedDeformerHandle<'a> {
    /// `Skin` subclass.
    Skin(DeformerSkinHandle<'a>),
    /// A subclass this layer does not know.
    Unknown(DeformerHandle<'a>),
}

impl<'a> TypedDeformerHandle<'a> {
    /// The deformer handle that was classified.
    pub open spec fn spec_deformer(self) -> DeformerHandle<'a> {
        match self {
            TypedDeformerHandle::Skin(h) => h.spec_deformer(),
            TypedDeformerHandle::Unknown(h) => h,
        }
    }

    /// Classifies `object` by its subclass.
    pub fn new(object: DeformerHandle<'a>) -> (r: Self)
        requires
            object.spec_object().wf(),
        ensures
            r.spec_deformer() == object,
            r is Skin <==> object.spec_object().node().subclass@ == "Skin"@,
    {
        match object.known_subclass() {
            Some(DeformerSubclass::Skin) => TypedDeformerHandle::Skin(DeformerSkinHandle::new(object)),
            None => TypedDeformerHandle::Unknown(object),
        }
    }

    /// Returns the underlying deformer handle.
    pub fn as_deformer(&self) -> (r: &DeformerHandle<'a>)
        ensures
            *r == self.spec_deformer(),
    {
        match self {
            TypedDeformerHandle::Skin(h) => h.as_deformer(),
            TypedDeformerHandle::Unknown(h) => h,
        }
    }
}

} // verus!
