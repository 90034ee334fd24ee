//! Objects with `Video` class.

use vstd::prelude::*;

use crate::object::ObjectHandle;
use crate::text::str_equals;

verus! {

/// `Video` node handle.
#[derive(Debug, Clone, Copy)]
pub struct VideoHandle<'a> {
    /// Object handle.
    object: ObjectHandle<'a>,
}

impl<'a> VideoHandle<'a> {
    /// The generic handle this one views.
    pub closed spec fn spec_object(self) -> ObjectHandle<'a> {
        self.object
    }

    pub(crate) fn new(object: ObjectHandle<'a>) -> (r: Self)
        ensures
            r.spec_object() == object,
    {
        VideoHandle { object }
    }

    /// Returns the underlying object handle.
    pub fn as_object(&self) -> (r: &ObjectHandle<'a>)
        ensures
            *r == self.spec_object(),
    {
        &self.object
    }
}

/// `Video` node handle with `Clip` subclass.
#[derive(Debug, Clone, Copy)]
pub struct ClipHandle<'a> {
    /// Video handle.
    object: VideoHandle<'a>,
}

impl<'a> ClipHandle<'a> {
    /// The video handle this one views.
    pub closed spec fn spec_video(self) -> VideoHandle<'a> {
        self.object
    }

    pub(crate) fn new(object: VideoHandle<'a>) -> (r: Self)
        ensures
            r.spec_video() == object,
    {
        ClipHandle { object }
    }

    /// Returns the underlying video handle.
    pub fn as_video(&self) -> (r: &VideoHandle<'a>)
        ensures
            *r == self.spec_video(),
    {
        &self.object
    }
}

/// A video handle, classified by subclass.
#[derive(Debug, Clone, Copy)]
#[non_exhaustive]
pub enum TypedVideoHandle<'a> {
    /// `Clip` subclass.
    Clip(ClipHandle<'a>),
    /// A subclass this layer does not know.
    Unknown(VideoHandle<'a>),
}

impl<'a> TypedVideoHandle<'a> {
    /// The video handle that was classified.
    pub open spec fn spec_video(self) -> VideoHandle<'a> {
        match self {
            TypedVideoHandle::Clip(h) => h.spec_video(),
            TypedVideoHandle::Unknown(h) => h,
        }
    }

    /// Classifies `object` by its subclass.
    pub fn new(object: VideoHandle<'a>) -> (r: Self)
        requires
            object.spec_object().wf(),
        ensures
            r.spec_video() == object,
            r is Clip <==> object.spec_object().node().subclass@ == "Clip"@,
    {
        if str_equals(object.as_object().subclass(), "Clip") {
            TypedVideoHandle::Clip(ClipHandle::new(object))
        } else {
            TypedVideoHandle::Unknown(object)
        }
    }

    /// Returns the underlying video handle.
    pub fn as_video(&self) -> (r: &VideoHandle<'a>)
        ensures
            *r == self.spec_video(),
    {
        match self {
            TypedVideoHandle::Clip(h) => h.as_video(),
            TypedVideoHandle::Unknown(h) => h,
        }
    }
}

} // verus!
