//! `Texture` object.

use vstd::prelude::*;

use crate::document::{Float64, PropertyValue};
use crate::object::{ObjectHandle, ObjectProperties};
use crate::property::{
    reports, resolve, resolve_or, BoolLoader, DecodeFailure, F64Arr3Loader, F64Loader, Loader, PropertyError,
    StringLoader,
};
use crate::relation::{related_index, Direction};
use crate::typed::{Category, TypedObjectHandle};
use crate::video::{ClipHandle, TypedVideoHandle};

verus! {

/// `Texture` node handle.
#[derive(Debug, Clone, Copy)]
pub struct TextureHandle<'a> {
    /// Object handle.
    object: ObjectHandle<'a>,
}

impl<'a> TextureHandle<'a> {
    /// The generic handle this one views.
    pub closed spec fn spec_object(self) -> ObjectHandle<'a> {
        self.object
    }

    pub(crate) fn new(object: ObjectHandle<'a>) -> (r: Self)
        ensures
            r.spec_object() == object,
    {
        TextureHandle { object }
    }

    /// Returns the underlying object handle.
    pub fn as_object(&self) -> (r: &ObjectHandle<'a>)
        ensures
            *r == self.spec_object(),
    {
        &self.object
    }

    /// Returns the video clip object if available: the first object of
    /// `Video` class and `Clip` subclass at the source of an unlabelled edge
    /// that ends at this texture.
    pub fn video_clip(&self) -> (r: Option<ClipHandle<'a>>)
        requires
            self.spec_object().wf(),
        ensures
            match related_index(*self.spec_object().doc, self.spec_object().node().id, Direction::Source, None, Category::VideoClip) {
                Some(k) => r matches Some(c) && c.spec_video().spec_object().doc == self.spec_object().doc
                    && c.spec_video().spec_object().node_id.0 == k,
                None => r is None,
            },
    {
        match self.object.find_related(Direction::Source, None, Category::VideoClip) {
            Some(TypedObjectHandle::Video(TypedVideoHandle::Clip(c))) => Some(c),
            _ => None,
        }
    }

    /// Returns the texture's properties, backed by the `FbxFileTexture`
    /// template where the document has one.
    pub fn properties(&self) -> (r: TextureProperties<'a>)
        requires
            self.spec_object().wf(),
        ensures
            r.spec_properties().own@ == self.spec_object().node().properties@,
            match self.spec_object().doc.template_index("FbxFileTexture"@) {
                Some(k) => r.spec_properties().template == Some(&self.spec_object().doc.templates@[k].properties),
                None => r.spec_properties().template is None,
            },
    {
        TextureProperties { properties: self.object.properties_by_native_typename("FbxFileTexture") }
    }
}

/// Bit pattern of the binary64 number zero.
pub const F64_ZERO_BITS: u64 = 0;

/// Bit pattern of the binary64 number one.
pub const F64_ONE_BITS: u64 = 0x3ff0_0000_0000_0000;

/// How a texture is repeated outside the unit square.
#[derive(Debug, Clone, Copy, PartialEq, Eq, Structural, Hash)]
pub enum WrapMode {
    /// Repeated.
    Repeat,
    /// Clamped to the edge.
    Clamp,
}

/// Decodes a wrap mode from its stored integer: 0 repeat, 1 clamp.
#[derive(Debug, Clone, Copy, Default)]
pub struct WrapModeLoader;

impl Loader for WrapModeLoader {
    type Output = WrapMode;

    open spec fn spec_load(&self, v: PropertyValue) -> Result<WrapMode, DecodeFailure> {
        match v {
            PropertyValue::Int(0) => Ok(WrapMode::Repeat),
            PropertyValue::Int(1) => Ok(WrapMode::Clamp),
            PropertyValue::Int(n) => Err(DecodeFailure::InvalidValue(n)),
            _ => Err(DecodeFailure::TypeMismatch),
        }
    }

    fn load(&self, v: &PropertyValue) -> (r: Result<WrapMode, DecodeFailure>) {
        match v {
            PropertyValue::Int(0) => Ok(WrapMode::Repeat),
            PropertyValue::Int(1) => Ok(WrapMode::Clamp),
            PropertyValue::Int(n) => Err(DecodeFailure::InvalidValue(*n)),
            _ => Err(DecodeFailure::TypeMismatch),
        }
    }
}

/// How a texture is blended with what lies under it.
#[derive(Debug, Clone, Copy, PartialEq, Eq, Structural, Hash)]
pub enum BlendMode {
    /// Translucent.
    Translucent,
    /// Additive.
    Additive,
    /// Modulate.
    Modulate,
    /// Modulate 2.
    Modulate2,
    /// Over.
    Over,
}

/// Decodes a blend mode from its stored integer, 0 to 4 in declaration order.
#[derive(Debug, Clone, Copy, Default)]
pub struct BlendModeLoader;

impl Loader for BlendModeLoader {
    type Output = BlendMode;

    open spec fn spec_load(&self, v: PropertyValue) -> Result<BlendMode, DecodeFailure> {
        match v {
            PropertyValue::Int(0) => Ok(BlendMode::Translucent),
            PropertyValue::Int(1) => Ok(BlendMode::Additive),
            PropertyValue::Int(2) => Ok(BlendMode::Modulate),
            PropertyValue::Int(3) => Ok(BlendMode::Modulate2),
            PropertyValue::Int(4) => Ok(BlendMode::Over),
            PropertyValue::Int(n) => Err(DecodeFailure::InvalidValue(n)),
            _ => Err(DecodeFailure::TypeMismatch),
        }
    }

    fn load(&self, v: &PropertyValue) -> (r: Result<BlendMode, DecodeFailure>) {
        match v {
            PropertyValue::Int(0) => Ok(BlendMode::Translucent),
            PropertyValue::Int(1) => Ok(BlendMode::Additive),
            PropertyValue::Int(2) => Ok(BlendMode::Modulate),
            PropertyValue::Int(3) => Ok(BlendMode::Modulate2),
            PropertyValue::Int(4) => Ok(BlendMode::Over),
            PropertyValue::Int(n) => Err(DecodeFailure::InvalidValue(*n)),
            _ => Err(DecodeFailure::TypeMismatch),
        }
    }
}

/// The properties of a texture, each with its loader, description and
/// default.
#[derive(Debug, Clone, Copy)]
pub struct TextureProperties<'a> {
    /// Properties.
    properties: ObjectProperties<'a>,
}

impl<'a> TextureProperties<'a> {
    /// The property table the getters read.
    pub closed spec fn spec_properties(self) -> ObjectProperties<'a> {
        self.properties
    }

    /// Returns the underlying property table.
    pub fn as_properties(&self) -> (r: &ObjectProperties<'a>)
        ensures
            *r == self.spec_properties(),
    {
        &self.properties
    }

    /// Returns the alpha value.
    pub fn alpha(&self) -> (r: Result<Option<Float64>, PropertyError>)
        ensures
            reports(r, resolve(self.spec_properties().lookup("Texture alpha"@), F64Loader), "Texture alpha"@, "texture alpha value"@),
    {
        self.properties.get("Texture alpha", "texture alpha value", &F64Loader)
    }

    /// Returns the alpha value, or the default if it is not set.
    pub fn alpha_or_default(&self) -> (r: Result<Float64, PropertyError>)
        ensures
            reports(r, resolve_or(self.spec_properties().lookup("Texture alpha"@), F64Loader, Float64 { bits: F64_ONE_BITS }), "Texture alpha"@, "texture alpha value"@),
    {
        self.properties.get_or("Texture alpha", "texture alpha value", &F64Loader, Float64 { bits: F64_ONE_BITS })
    }

    /// Returns wrap mode U.
    pub fn wrap_mode_u(&self) -> (r: Result<Option<WrapMode>, PropertyError>)
        ensures
            reports(r, resolve(self.spec_properties().lookup("WrapModeU"@), WrapModeLoader), "WrapModeU"@, "wrap mode U"@),
    {
        self.properties.get("WrapModeU", "wrap mode U", &WrapModeLoader)
    }

    /// Returns wrap mode U, or the default if it is not set.
    pub fn wrap_mode_u_or_default(&self) -> (r: Result<WrapMode, PropertyError>)
        ensures
            reports(r, resolve_or(self.spec_properties().lookup("WrapModeU"@), WrapModeLoader, WrapMode::Repeat), "WrapModeU"@, "wrap mode U"@),
    {
        self.properties.get_or("WrapModeU", "wrap mode U", &WrapModeLoader, WrapMode::Repeat)
    }

    /// Returns wrap mode V.
    pub fn wrap_mode_v(&self) -> (r: Result<Option<WrapMode>, PropertyError>)
        ensures
            reports(r, resolve(self.spec_properties().lookup("WrapModeV"@), WrapModeLoader), "WrapModeV"@, "wrap mode V"@),
    {
        self.properties.get("WrapModeV", "wrap mode V", &WrapModeLoader)
    }

    /// Returns wrap mode V, or the default if it is not set.
    pub fn wrap_mode_v_or_default(&self) -> (r: Result<WrapMode, PropertyError>)
        ensures
            reports(r, resolve_or(self.spec_properties().lookup("WrapModeV"@), WrapModeLoader, WrapMode::Repeat), "WrapModeV"@, "wrap mode V"@),
    {
        self.properties.get_or("WrapModeV", "wrap mode V", &WrapModeLoader, WrapMode::Repeat)
    }

    /// Returns whether the UV should be swapped (`true`: swapped).
    pub fn uv_swap(&self) -> (r: Result<Option<bool>, PropertyError>)
        ensures
            reports(r, resolve(self.spec_properties().lookup("UVSwap"@), BoolLoader), "UVSwap"@, "UV swap flag"@),
    {
        self.properties.get("UVSwap", "UV swap flag", &BoolLoader)
    }

    /// Returns whether the UV should be swapped (`true`: swapped), or the default if it is not set.
    pub fn uv_swap_or_default(&self) -> (r: Result<bool, PropertyError>)
        ensures
            reports(r, resolve_or(self.spec_properties().lookup("UVSwap"@), BoolLoader, false), "UVSwap"@, "UV swap flag"@),
    {
        self.properties.get_or("UVSwap", "UV swap flag", &BoolLoader, false)
    }

    /// Returns whether the alpha is premultiplied.
    pub fn premultiply_alpha(&self) -> (r: Result<Option<bool>, PropertyError>)
        ensures
            reports(r, resolve(self.spec_properties().lookup("PremultiplyAlpha"@), BoolLoader), "PremultiplyAlpha"@, "premultiply-alpha flag"@),
    {
        self.properties.get("PremultiplyAlpha", "premultiply-alpha flag", &BoolLoader)
    }

    /// Returns whether the alpha is premultiplied, or the default if it is not set.
    pub fn premultiply_alpha_or_default(&self) -> (r: Result<bool, PropertyError>)
        ensures
            reports(r, resolve_or(self.spec_properties().lookup("PremultiplyAlpha"@), BoolLoader, false), "PremultiplyAlpha"@, "premultiply-alpha flag"@),
    {
        self.properties.get_or("PremultiplyAlpha", "premultiply-alpha flag", &BoolLoader, false)
    }

    /// Returns the translation vector.
    pub fn translation(&self) -> (r: Result<Option<[Float64; 3]>, PropertyError>)
        ensures
            reports(r, resolve(self.spec_properties().lookup("Translation"@), F64Arr3Loader), "Translation"@, "translation vector"@),
    {
        self.properties.get("Translation", "translation vector", &F64Arr3Loader)
    }

    /// Returns the translation vector, or the default if it is not set.
    pub fn translation_or_default(&self) -> (r: Result<[Float64; 3], PropertyError>)
        ensures
            reports(r, resolve_or(self.spec_properties().lookup("Translation"@), F64Arr3Loader, [Float64 { bits: F64_ZERO_BITS }, Float64 { bits: F64_ZERO_BITS }, Float64 { bits: F64_ZERO_BITS }]), "Translation"@, "translation vector"@),
    {
        self.properties.get_or("Translation", "translation vector", &F64Arr3Loader, [Float64 { bits: F64_ZERO_BITS }, Float64 { bits: F64_ZERO_BITS }, Float64 { bits: F64_ZERO_BITS }])
    }

    /// Returns the rotation vector.
    pub fn rotation(&self) -> (r: Result<Option<[Float64; 3]>, PropertyError>)
        ensures
            reports(r, resolve(self.spec_properties().lookup("Rotation"@), F64Arr3Loader), "Rotation"@, "rotation vector"@),
    {
        self.properties.get("Rotation", "rotation vector", &F64Arr3Loader)
    }

    /// Returns the rotation vector, or the default if it is not set.
    pub fn rotation_or_default(&self) -> (r: Result<[Float64; 3], PropertyError>)
        ensures
            reports(r, resolve_or(self.spec_properties().lookup("Rotation"@), F64Arr3Loader, [Float64 { bits: F64_ZERO_BITS }, Float64 { bits: F64_ZERO_BITS }, Float64 { bits: F64_ZERO_BITS }]), "Rotation"@, "rotation vector"@),
    {
        self.properties.get_or("Rotation", "rotation vector", &F64Arr3Loader, [Float64 { bits: F64_ZERO_BITS }, Float64 { bits: F64_ZERO_BITS }, Float64 { bits: F64_ZERO_BITS }])
    }

    /// Returns the scaling vector.
    pub fn scaling(&self) -> (r: Result<Option<[Float64; 3]>, PropertyError>)
        ensures
            reports(r, resolve(self.spec_properties().lookup("Scaling"@), F64Arr3Loader), "Scaling"@, "scaling vector"@),
    {
        self.properties.get("Scaling", "scaling vector", &F64Arr3Loader)
    }

    /// Returns the scaling vector, or the default if it is not set.
    pub fn scaling_or_default(&self) -> (r: Result<[Float64; 3], PropertyError>)
        ensures
            reports(r, resolve_or(self.spec_properties().lookup("Scaling"@), F64Arr3Loader, [Float64 { bits: F64_ONE_BITS }, Float64 { bits: F64_ONE_BITS }, Float64 { bits: F64_ONE_BITS }]), "Scaling"@, "scaling vector"@),
    {
        self.properties.get_or("Scaling", "scaling vector", &F64Arr3Loader, [Float64 { bits: F64_ONE_BITS }, Float64 { bits: F64_ONE_BITS }, Float64 { bits: F64_ONE_BITS }])
    }

    /// Returns the rotation pivot vector.
    pub fn rotation_pivot(&self) -> (r: Result<Option<[Float64; 3]>, PropertyError>)
        ensures
            reports(r, resolve(self.spec_properties().lookup("TextureRotationPivot"@), F64Arr3Loader), "TextureRotationPivot"@, "rotation pivot vector"@),
    {
        self.properties.get("TextureRotationPivot", "rotation pivot vector", &F64Arr3Loader)
    }

    /// Returns the rotation pivot vector, or the default if it is not set.
    pub fn rotation_pivot_or_default(&self) -> (r: Result<[Float64; 3], PropertyError>)
        ensures
            reports(r, resolve_or(self.spec_properties().lookup("TextureRotationPivot"@), F64Arr3Loader, [Float64 { bits: F64_ZERO_BITS }, Float64 { bits: F64_ZERO_BITS }, Float64 { bits: F64_ZERO_BITS }]), "TextureRotationPivot"@, "rotation pivot vector"@),
    {
        self.properties.get_or("TextureRotationPivot", "rotation pivot vector", &F64Arr3Loader, [Float64 { bits: F64_ZERO_BITS }, Float64 { bits: F64_ZERO_BITS }, Float64 { bits: F64_ZERO_BITS }])
    }

    /// Returns the scaling pivot vector.
    pub fn scaling_pivot(&self) -> (r: Result<Option<[Float64; 3]>, PropertyError>)
        ensures
            reports(r, resolve(self.spec_properties().lookup("TextureScalingPivot"@), F64Arr3Loader), "TextureScalingPivot"@, "scaling pivot vector"@),
    {
        self.properties.get("TextureScalingPivot", "scaling pivot vector", &F64Arr3Loader)
    }

    /// Returns the scaling pivot vector, or the default if it is not set.
    pub fn scaling_pivot_or_default(&self) -> (r: Result<[Float64; 3], PropertyError>)
        ensures
            reports(r, resolve_or(self.spec_properties().lookup("TextureScalingPivot"@), F64Arr3Loader, [Float64 { bits: F64_ZERO_BITS }, Float64 { bits: F64_ZERO_BITS }, Float64 { bits: F64_ZERO_BITS }]), "TextureScalingPivot"@, "scaling pivot vector"@),
    {
        self.properties.get_or("TextureScalingPivot", "scaling pivot vector", &F64Arr3Loader, [Float64 { bits: F64_ZERO_BITS }, Float64 { bits: F64_ZERO_BITS }, Float64 { bits: F64_ZERO_BITS }])
    }

    /// Returns the texture blend mode.
    pub fn blend_mode(&self) -> (r: Result<Option<BlendMode>, PropertyError>)
        ensures
            reports(r, resolve(self.spec_properties().lookup("CurrentTextureBlendMode"@), BlendModeLoader), "CurrentTextureBlendMode"@, "texture blend mode"@),
    {
        self.properties.get("CurrentTextureBlendMode", "texture blend mode", &BlendModeLoader)
    }

    /// Returns the texture blend mode, or the default if it is not set.
    pub fn blend_mode_or_default(&self) -> (r: Result<BlendMode, PropertyError>)
        ensures
            reports(r, resolve_or(self.spec_properties().lookup("CurrentTextureBlendMode"@), BlendModeLoader, BlendMode::Additive), "CurrentTextureBlendMode"@, "texture blend mode"@),
    {
        self.properties.get_or("CurrentTextureBlendMode", "texture blend mode", &BlendModeLoader, BlendMode::Additive)
    }

    /// Returns the UV set name.
    pub fn uv_set(&self) -> (r: Result<Option<String>, PropertyError>)
        ensures
            reports(r, resolve(self.spec_properties().lookup("UVSet"@), StringLoader), "UVSet"@, "UV set name"@),
    {
        self.properties.get("UVSet", "UV set name", &StringLoader)
    }

    /// Returns the UV set name, or `"default"` if it is not set.
    pub fn uv_set_or_default(&self) -> (r: Result<String, PropertyError>)
        ensures
            match resolve(self.spec_properties().lookup("UVSet"@), StringLoader) {
                Ok(Some(s)) => r == Ok::<String, PropertyError>(s),
                Ok(None) => r matches Ok(s) && s@ == "default"@,
                Err(f) => r matches Err(e) && e.failure == f && e.name@ == "UVSet"@ && e.description@ == "UV set name"@,
            },
    {
        match self.uv_set() {
            Ok(Some(s)) => Ok(s),
            Ok(None) => Ok("default".to_owned()),
            Err(e) => Err(e),
        }
    }
}

} // verus!
