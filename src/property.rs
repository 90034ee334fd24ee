//! Typed decoding of stored property values, and resolution with defaults.

use vstd::prelude::*;

use crate::document::{Float64, PropertyValue};
use crate::object::ObjectProperties;

verus! {

/// Why a stored value could not be decoded.
#[derive(Debug, Clone, Copy, PartialEq, Eq, Structural)]
pub enum DecodeFailure {
    /// The stored value has another shape than the one requested.
    TypeMismatch,
    /// A vector was stored with another number of components.
    LengthMismatch { expected: usize, actual: usize },
    /// An enumeration was stored with a value it does not define.
    InvalidValue(i64),
}

/// A decode failure, with the property it concerns.
#[derive(Debug, Clone)]
pub struct PropertyError {
    /// Name of the property.
    pub name: String,
    /// Human-readable description of the expected value.
    pub description: String,
    /// What went wrong.
    pub failure: DecodeFailure,
}

/// A decoder from a stored value into one semantic type.
pub trait Loader: Sized {
    type Output;

    /// What decoding `v` gives.
    spec fn spec_load(&self, v: PropertyValue) -> Result<Self::Output, DecodeFailure>;

    /// Decodes `v`.
    fn load(&self, v: &PropertyValue) -> (r: Result<Self::Output, DecodeFailure>)
        ensures
            r == self.spec_load(*v),
    ;
}

/// Outcome of looking a property up and decoding what was found.
pub open spec fn resolve<L: Loader>(found: Option<PropertyValue>, loader: L) -> Result<Option<L::Output>, DecodeFailure> {
    match found {
        None => Ok(None),
        Some(v) => match loader.spec_load(v) {
            Ok(x) => Ok(Some(x)),
            Err(e) => Err(e),
        },
    }
}

/// Like `resolve`, with `default` in place of an absent property.
pub open spec fn resolve_or<L: Loader>(found: Option<PropertyValue>, loader: L, default: L::Output) -> Result<L::Output, DecodeFailure> {
    match resolve(found, loader) {
        Ok(Some(x)) => Ok(x),
        Ok(None) => Ok(default),
        Err(e) => Err(e),
    }
}

/// `r` is `expected`, with a failure reported for property `name`.
pub open spec fn reports<T>(r: Result<T, PropertyError>, expected: Result<T, DecodeFailure>, name: Seq<char>, description: Seq<char>) -> bool {
    match expected {
        Ok(x) => r == Ok::<T, PropertyError>(x),
        Err(f) => match r {
            Ok(_) => false,
            Err(e) => e.failure == f && e.name@ == name && e.description@ == description,
        },
    }
}

fn property_error(name: &str, description: &str, failure: DecodeFailure) -> (e: PropertyError)
    ensures
        e.name@ == name@,
        e.description@ == description@,
        e.failure == failure,
{
    PropertyError { name: name.to_owned(), description: description.to_owned(), failure }
}

impl<'a> ObjectProperties<'a> {
    /// Looks up `name` and decodes it with `loader`; an absent property is
    /// `Ok(None)`, a value that does not decode an error naming the property.
    pub fn get<L: Loader>(&self, name: &str, description: &str, loader: &L) -> (r: Result<Option<L::Output>, PropertyError>)
        ensures
            reports(r, resolve(self.lookup(name@), *loader), name@, description@),
    {
        match self.get_property(name) {
            None => Ok(None),
            Some(v) => match loader.load(v) {
                Ok(x) => Ok(Some(x)),
                Err(f) => Err(property_error(name, description, f)),
            },
        }
    }

    /// Like `get`, with `default` in place of an absent property. A value
    /// that does not decode is still an error.
    pub fn get_or<L: Loader>(&self, name: &str, description: &str, loader: &L, default: L::Output) -> (r: Result<L::Output, PropertyError>)
        ensures
            reports(r, resolve_or(self.lookup(name@), *loader, default), name@, description@),
    {
        match self.get(name, description, loader) {
            Ok(Some(x)) => Ok(x),
            Ok(None) => Ok(default),
            Err(e) => Err(e),
        }
    }
}

/// Decodes a binary64 scalar.
#[derive(Debug, Clone, Copy, Default)]
pub struct F64Loader;

impl Loader for F64Loader {
    type Output = Float64;

    open spec fn spec_load(&self, v: PropertyValue) -> Result<Float64, DecodeFailure> {
        match v {
            PropertyValue::F64(x) => Ok(x),
            _ => Err(DecodeFailure::TypeMismatch),
        }
    }

    fn load(&self, v: &PropertyValue) -> (r: Result<Float64, DecodeFailure>) {
        match v {
            PropertyValue::F64(x) => Ok(*x),
            _ => Err(DecodeFailure::TypeMismatch),
        }
    }
}

/// Decodes a boolean.
#[derive(Debug, Clone, Copy, Default)]
pub struct BoolLoader;

impl Loader for BoolLoader {
    type Output = bool;

    open spec fn spec_load(&self, v: PropertyValue) -> Result<bool, DecodeFailure> {
        match v {
            PropertyValue::Bool(b) => Ok(b),
            _ => Err(DecodeFailure::TypeMismatch),
        }
    }

    fn load(&self, v: &PropertyValue) -> (r: Result<bool, DecodeFailure>) {
        match v {
            PropertyValue::Bool(b) => Ok(*b),
            _ => Err(DecodeFailure::TypeMismatch),
        }
    }
}

/// Decodes a vector of exactly three binary64 components.
#[derive(Debug, Clone, Copy, Default)]
pub struct F64Arr3Loader;

impl Loader for F64Arr3Loader {
    type Output = [Float64; 3];

    open spec fn spec_load(&self, v: PropertyValue) -> Result<[Float64; 3], DecodeFailure> {
        match v {
            PropertyValue::F64Vector(xs) => if xs@.len() == 3 {
                Ok([xs@[0], xs@[1], xs@[2]])
            } else {
                Err(DecodeFailure::LengthMismatch { expected: 3, actual: xs@.len() as usize })
            },
            _ => Err(DecodeFailure::TypeMismatch),
        }
    }

    fn load(&self, v: &PropertyValue) -> (r: Result<[Float64; 3], DecodeFailure>) {
        match v {
            PropertyValue::F64Vector(xs) => if xs.len() == 3 {
                Ok([xs[0], xs[1], xs[2]])
            } else {
                Err(DecodeFailure::LengthMismatch { expected: 3, actual: xs.len() })
            },
            _ => Err(DecodeFailure::TypeMismatch),
        }
    }
}

/// Decodes a string.
#[derive(Debug, Clone, Copy, Default)]
pub struct StringLoader;

impl Loader for StringLoader {
    type Output = String;

    open spec fn spec_load(&self, v: PropertyValue) -> Result<String, DecodeFailure> {
        match v {
            PropertyValue::Str(s) => Ok(s),
            _ => Err(DecodeFailure::TypeMismatch),
        }
    }

    fn load(&self, v: &PropertyValue) -> (r: Result<String, DecodeFailure>) {
        match v {
            PropertyValue::Str(s) => Ok(s.clone()),
            _ => Err(DecodeFailure::TypeMismatch),
        }
    }
}

/// An absent property resolves to the default, whatever the loader.
pub proof fn absent_property_gives_default<L: Loader>(props: ObjectProperties, name: Seq<char>, loader: L, default: L::Output)
    requires
        props.lookup(name) is None,
    ensures
        resolve_or(props.lookup(name), loader, default) == Ok::<L::Output, DecodeFailure>(default),
{
}

/// A present property that decodes resolves to its decoded value, never to
/// the default (even where the two are equal).
pub proof fn present_property_gives_decoded<L: Loader>(props: ObjectProperties, name: Seq<char>, loader: L, default: L::Output)
    requires
        props.lookup(name) is Some,
        loader.spec_load(props.lookup(name)->Some_0) is Ok,
    ensures
        resolve_or(props.lookup(name), loader, default)
            == Ok::<L::Output, DecodeFailure>(loader.spec_load(props.lookup(name)->Some_0)->Ok_0),
{
}

/// A vector stored with other than three components fails to decode as a
/// three-vector, reporting both lengths; it is never truncated or padded.
pub proof fn wrong_length_vector_fails(xs: Vec<Float64>)
    requires
        xs@.len() != 3,
    ensures
        F64Arr3Loader.spec_load(PropertyValue::F64Vector(xs))
            == Err::<[Float64; 3], DecodeFailure>(DecodeFailure::LengthMismatch { expected: 3, actual: xs@.len() as usize }),
{
}

} // verus!
