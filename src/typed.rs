//! Classification of generic handles into the known object categories.

use vstd::prelude::*;

use crate::deformer::{DeformerHandle, TypedDeformerHandle};
use crate::object::ObjectHandle;
use crate::text::str_equals;
use crate::texture::TextureHandle;
use crate::video::{TypedVideoHandle, VideoHandle};

verus! {

/// The category an object falls into, subclasses included.
#[derive(Debug, Clone, Copy, PartialEq, Eq, Structural)]
pub enum Category {
    /// `Deformer` class, `Skin` subclass.
    DeformerSkin,
    /// `Deformer` class, another subclass.
    DeformerOther,
    /// `Texture` class.
    Texture,
    /// `Video` class, `Clip` subclass.
    VideoClip,
    /// `Video` class, another subclass.
    VideoOther,
    /// Any other class.
    Unknown,
}

/// The classification table: the category of an object with the given class
/// and subclass.
pub open spec fn category_of(class: Seq<char>, subclass: Seq<char>) -> Category {
    if class == "Deformer"@ {
        if subclass == "Skin"@ {
            Category::DeformerSkin
        } else {
            Category::DeformerOther
        }
    } else if class == "Texture"@ {
        Category::Texture
    } else if class == "Video"@ {
        if subclass == "Clip"@ {
            Category::VideoClip
        } else {
            Category::VideoOther
        }
    } else {
        Category::Unknown
    }
}

/// The category of the node `h` refers to.
pub open spec fn category_of_handle(h: ObjectHandle) -> Category {
    category_of(h.node().class@, h.node().subclass@)
}

/// An object handle, classified into a known category.
#[derive(Debug, Clone, Copy)]
#[non_exhaustive]
pub enum TypedObjectHandle<'a> {
    /// `Deformer` class.
    Deformer(TypedDeformerHandle<'a>),
    /// `Texture` class.
    Texture(TextureHandle<'a>),
    /// `Video` class.
    Video(TypedVideoHandle<'a>),
    /// Any other class.
    Unknown(ObjectHandle<'a>),
}

impl<'a> TypedObjectHandle<'a> {
    /// The generic handle that was classified.
    pub open spec fn spec_object(self) -> ObjectHandle<'a> {
        match self {
            TypedObjectHandle::Deformer(h) => h.spec_deformer().spec_object(),
            TypedObjectHandle::Texture(h) => h.spec_object(),
            TypedObjectHandle::Video(h) => h.spec_video().spec_object(),
            TypedObjectHandle::Unknown(h) => h,
        }
    }

    /// The category of this variant.
    pub open spec fn spec_category(self) -> Category {
        match self {
            TypedObjectHandle::Deformer(TypedDeformerHandle::Skin(_)) => Category::DeformerSkin,
            TypedObjectHandle::Deformer(TypedDeformerHandle::Unknown(_)) => Category::DeformerOther,
            TypedObjectHandle::Texture(_) => Category::Texture,
            TypedObjectHandle::Video(TypedVideoHandle::Clip(_)) => Category::VideoClip,
            TypedObjectHandle::Video(TypedVideoHandle::Unknown(_)) => Category::VideoOther,
            TypedObjectHandle::Unknown(_) => Category::Unknown,
        }
    }

    /// `self` is what classifying `h` gives.
    pub open spec fn classifies(self, h: ObjectHandle<'a>) -> bool {
        self.spec_category() == category_of_handle(h) && self.spec_object() == h
    }

    /// Classifies `object` by its class and subclass.
    pub fn new(object: ObjectHandle<'a>) -> (r: Self)
        requires
            object.wf(),
        ensures
            r.classifies(object),
    {
        let class = object.class();
        if str_equals(class, "Deformer") {
            TypedObjectHandle::Deformer(TypedDeformerHandle::new(DeformerHandle::new(object)))
        } else if str_equals(class, "Texture") {
            TypedObjectHandle::Texture(TextureHandle::new(object))
        } else if str_equals(class, "Video") {
            TypedObjectHandle::Video(TypedVideoHandle::new(VideoHandle::new(object)))
        } else {
            TypedObjectHandle::Unknown(object)
        }
    }

    /// Returns the category of this variant.
    pub fn category(&self) -> (r: Category)
        ensures
            r == self.spec_category(),
    {
        match self {
            TypedObjectHandle::Deformer(TypedDeformerHandle::Skin(_)) => Category::DeformerSkin,
            TypedObjectHandle::Deformer(TypedDeformerHandle::Unknown(_)) => Category::DeformerOther,
            TypedObjectHandle::Texture(_) => Category::Texture,
            TypedObjectHandle::Video(TypedVideoHandle::Clip(_)) => Category::VideoClip,
            TypedObjectHandle::Video(TypedVideoHandle::Unknown(_)) => Category::VideoOther,
            TypedObjectHandle::Unknown(_) => Category::Unknown,
        }
    }

    /// Returns the generic handle that was classified.
    pub fn as_object(&self) -> (r: &ObjectHandle<'a>)
        ensures
            *r == self.spec_object(),
    {
        match self {
            TypedObjectHandle::Deformer(h) => h.as_deformer().as_object(),
            TypedObjectHandle::Texture(h) => h.as_object(),
            TypedObjectHandle::Video(h) => h.as_video().as_object(),
            TypedObjectHandle::Unknown(h) => h,
        }
    }
}

impl<'a> ObjectHandle<'a> {
    /// Returns the object classified into its category.
    pub fn get_typed(&self) -> (r: TypedObjectHandle<'a>)
        requires
            self.wf(),
        ensures
            r.classifies(*self),
    {
        TypedObjectHandle::new(*self)
    }
}

/// Classifying an object whose class is not in the table gives `Unknown`,
/// wrapping the very handle that was classified.
pub proof fn unlisted_class_is_unknown<'a>(h: ObjectHandle<'a>, r: TypedObjectHandle<'a>)
    requires
        r.classifies(h),
        h.node().class@ != "Deformer"@,
        h.node().class@ != "Texture"@,
        h.node().class@ != "Video"@,
    ensures
        r == TypedObjectHandle::Unknown(h),
{
}

/// Within a known class, a subclass that is not in the table gives that
/// class's `Unknown`, wrapping a handle over the very object classified.
pub proof fn unlisted_subclass_is_unknown<'a>(h: ObjectHandle<'a>, r: TypedObjectHandle<'a>)
    requires
        r.classifies(h),
    ensures
        h.node().class@ == "Deformer"@ && h.node().subclass@ != "Skin"@ ==> (r matches TypedObjectHandle::Deformer(
            TypedDeformerHandle::Unknown(d),
        ) && d.spec_object() == h),
        h.node().class@ == "Video"@ && h.node().subclass@ != "Clip"@ ==> (r matches TypedObjectHandle::Video(
            TypedVideoHandle::Unknown(v),
        ) && v.spec_object() == h),
{
    reveal_strlit("Deformer");
    reveal_strlit("Texture");
    reveal_strlit("Video");
    assert("Video"@[0] != "Deformer"@[0]);
    assert("Video"@[0] != "Texture"@[0]);
}

/// Classifying and then taking the underlying handle back gives a handle to
/// the same object, with the same identity.
pub proof fn classification_keeps_identity<'a>(h: ObjectHandle<'a>, r: TypedObjectHandle<'a>)
    requires
        r.classifies(h),
        h.wf(),
    ensures
        r.spec_object() == h,
        r.spec_object().node().id == h.node().id,
{
}

} // verus!
