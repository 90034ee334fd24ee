use fbxcel_dom::deformer::{DeformerHandle, DeformerNodeId, DeformerSubclass, TypedDeformerHandle};
use fbxcel_dom::document::{
    Connection, Document, Float64, ObjectId, ObjectNode, ObjectNodeId, PropertyEntry, PropertyTemplate, PropertyValue,
};
use fbxcel_dom::property::{BoolLoader, DecodeFailure, F64Arr3Loader, F64Loader, Loader};
use fbxcel_dom::relation::Direction;
use fbxcel_dom::texture::{BlendMode, TextureHandle, WrapMode};
use fbxcel_dom::typed::{Category, TypedObjectHandle};
use fbxcel_dom::video::TypedVideoHandle;

fn node(id: i64, class: &str, subclass: &str, properties: Vec<PropertyEntry>) -> ObjectNode {
    ObjectNode { id: ObjectId(id), class: class.to_string(), subclass: subclass.to_string(), properties }
}

fn entry(name: &str, value: PropertyValue) -> PropertyEntry {
    PropertyEntry { name: name.to_string(), value }
}

fn edge(source: i64, destination: i64, label: Option<&str>) -> Connection {
    Connection { source: ObjectId(source), destination: ObjectId(destination), label: label.map(|l| l.to_string()) }
}

fn f(x: f64) -> Float64 {
    Float64 { bits: x.to_bits() }
}

fn doc(objects: Vec<ObjectNode>, connections: Vec<Connection>) -> Document {
    Document { objects, templates: Vec::new(), connections }
}

fn texture<'a>(d: &'a Document, id: i64) -> TextureHandle<'a> {
    match d.object_by_id(ObjectId(id)).unwrap().get_typed() {
        TypedObjectHandle::Texture(t) => t,
        other => panic!("not a texture: {:?}", other),
    }
}

#[test]
fn skin_deformer_classifies_to_skin() {
    let d = doc(vec![node(7, "Deformer", "Skin", vec![])], vec![]);
    let h = d.object_by_id(ObjectId(7)).unwrap();
    let t = h.get_typed();
    assert_eq!(t.category(), Category::DeformerSkin);
    match t {
        TypedObjectHandle::Deformer(TypedDeformerHandle::Skin(s)) => {
            assert_eq!(s.as_deformer().object_id(), ObjectId(7));
            assert_eq!(s.as_deformer().known_subclass(), Some(DeformerSubclass::Skin));
        }
        other => panic!("unexpected: {:?}", other),
    }
}

#[test]
fn mesh_probed_as_deformer_reports_class_mismatch() {
    let d = doc(vec![node(7, "Mesh", "Skin", vec![])], vec![]);
    let h = d.object_by_id(ObjectId(7)).unwrap();
    let e = DeformerHandle::from_object(&h).unwrap_err();
    assert_eq!(e.expected, "Deformer");
    assert_eq!(e.actual, "Mesh");
}

#[test]
fn deformer_downcast_keeps_ids() {
    let d = doc(vec![node(1, "Model", "", vec![]), node(9, "Deformer", "Cluster", vec![])], vec![]);
    let h = d.object_by_id(ObjectId(9)).unwrap();
    let def = DeformerHandle::from_object(&h).unwrap();
    assert_eq!(def.object_id(), ObjectId(9));
    assert_eq!(def.node_id(), DeformerNodeId(ObjectNodeId(1)));
    assert_eq!(def.as_ref().id(), ObjectId(9));
    assert_eq!(def.known_subclass(), None);
}

#[test]
fn unknown_class_keeps_handle() {
    let d = doc(vec![node(3, "Mesh", "Skin", vec![])], vec![]);
    let h = d.object_by_id(ObjectId(3)).unwrap();
    match h.get_typed() {
        TypedObjectHandle::Unknown(u) => {
            assert_eq!(u.id(), ObjectId(3));
            assert_eq!(u.node_id(), h.node_id());
            assert_eq!(u.class(), "Mesh");
            assert_eq!(u.subclass(), "Skin");
        }
        other => panic!("unexpected: {:?}", other),
    }
}

#[test]
fn unknown_subclass_stays_in_its_class() {
    let d = doc(vec![node(3, "Deformer", "Blend", vec![]), node(4, "Video", "Movie", vec![])], vec![]);
    match d.object_by_id(ObjectId(3)).unwrap().get_typed() {
        TypedObjectHandle::Deformer(TypedDeformerHandle::Unknown(h)) => assert_eq!(h.object_id(), ObjectId(3)),
        other => panic!("unexpected: {:?}", other),
    }
    let v = d.object_by_id(ObjectId(4)).unwrap().get_typed();
    assert_eq!(v.category(), Category::VideoOther);
    match v {
        TypedObjectHandle::Video(TypedVideoHandle::Unknown(h)) => assert_eq!(h.as_object().id(), ObjectId(4)),
        other => panic!("unexpected: {:?}", other),
    }
}

#[test]
fn classification_keeps_object_id() {
    let d = doc(
        vec![
            node(10, "Deformer", "Skin", vec![]),
            node(11, "Texture", "", vec![]),
            node(12, "Video", "Clip", vec![]),
            node(13, "Geometry", "Mesh", vec![]),
        ],
        vec![],
    );
    for id in 10..14 {
        let h = d.object_by_id(ObjectId(id)).unwrap();
        let t = h.get_typed();
        assert_eq!(t.as_object().id(), ObjectId(id));
        assert_eq!(t.as_object().node_id(), h.node_id());
    }
}

#[test]
fn texture_without_alpha_uses_default() {
    let d = doc(vec![node(1, "Texture", "", vec![])], vec![]);
    let p = texture(&d, 1).properties();
    assert_eq!(p.alpha().unwrap(), None);
    assert_eq!(f64::from_bits(p.alpha_or_default().unwrap().bits), 1.0);
}

#[test]
fn absent_properties_use_their_defaults() {
    let d = doc(vec![node(1, "Texture", "", vec![])], vec![]);
    let p = texture(&d, 1).properties();
    assert_eq!(p.wrap_mode_u_or_default().unwrap(), WrapMode::Repeat);
    assert_eq!(p.wrap_mode_v_or_default().unwrap(), WrapMode::Repeat);
    assert!(!p.uv_swap_or_default().unwrap());
    assert!(!p.premultiply_alpha_or_default().unwrap());
    assert_eq!(p.translation_or_default().unwrap(), [f(0.0); 3]);
    assert_eq!(p.rotation_or_default().unwrap(), [f(0.0); 3]);
    assert_eq!(p.scaling_or_default().unwrap(), [f(1.0); 3]);
    assert_eq!(p.rotation_pivot_or_default().unwrap(), [f(0.0); 3]);
    assert_eq!(p.scaling_pivot_or_default().unwrap(), [f(0.0); 3]);
    assert_eq!(p.blend_mode_or_default().unwrap(), BlendMode::Additive);
    assert_eq!(p.uv_set_or_default().unwrap(), "default");
    assert_eq!(p.uv_set().unwrap(), None);
}

#[test]
fn present_value_equal_to_default_is_returned() {
    let d = doc(
        vec![node(1, "Texture", "", vec![
            entry("Texture alpha", PropertyValue::F64(f(1.0))),
            entry("WrapModeU", PropertyValue::Int(0)),
        ])],
        vec![],
    );
    let p = texture(&d, 1).properties();
    assert_eq!(p.alpha().unwrap(), Some(f(1.0)));
    assert_eq!(p.alpha_or_default().unwrap(), f(1.0));
    assert_eq!(p.wrap_mode_u().unwrap(), Some(WrapMode::Repeat));
}

#[test]
fn present_values_are_decoded() {
    let d = doc(
        vec![node(1, "Texture", "", vec![
            entry("Texture alpha", PropertyValue::F64(f(0.25))),
            entry("WrapModeV", PropertyValue::Int(1)),
            entry("UVSwap", PropertyValue::Bool(true)),
            entry("PremultiplyAlpha", PropertyValue::Bool(true)),
            entry("Translation", PropertyValue::F64Vector(vec![f(1.0), f(2.0), f(3.0)])),
            entry("CurrentTextureBlendMode", PropertyValue::Int(4)),
            entry("UVSet", PropertyValue::Str("map1".to_string())),
        ])],
        vec![],
    );
    let p = texture(&d, 1).properties();
    assert_eq!(f64::from_bits(p.alpha_or_default().unwrap().bits), 0.25);
    assert_eq!(p.wrap_mode_v_or_default().unwrap(), WrapMode::Clamp);
    assert!(p.uv_swap_or_default().unwrap());
    assert_eq!(p.premultiply_alpha().unwrap(), Some(true));
    assert_eq!(p.translation().unwrap(), Some([f(1.0), f(2.0), f(3.0)]));
    assert_eq!(p.blend_mode().unwrap(), Some(BlendMode::Over));
    assert_eq!(p.uv_set_or_default().unwrap(), "map1");
}

#[test]
fn template_supplies_missing_properties() {
    let mut d = doc(
        vec![node(1, "Texture", "", vec![entry("UVSwap", PropertyValue::Bool(false))])],
        vec![],
    );
    d.templates.push(PropertyTemplate {
        native_typename: "FbxFileTexture".to_string(),
        properties: vec![
            entry("UVSwap", PropertyValue::Bool(true)),
            entry("CurrentTextureBlendMode", PropertyValue::Int(2)),
        ],
    });
    let p = texture(&d, 1).properties();
    assert_eq!(p.uv_swap().unwrap(), Some(false));
    assert_eq!(p.blend_mode().unwrap(), Some(BlendMode::Modulate));
    assert_eq!(p.alpha().unwrap(), None);
}

#[test]
fn vector_with_wrong_length_fails() {
    let d = doc(
        vec![node(1, "Texture", "", vec![
            entry("Rotation", PropertyValue::F64Vector(vec![f(1.0), f(2.0)])),
            entry("Scaling", PropertyValue::F64Vector(vec![f(1.0), f(2.0), f(3.0), f(4.0)])),
        ])],
        vec![],
    );
    let p = texture(&d, 1).properties();
    let e = p.rotation().unwrap_err();
    assert_eq!(e.failure, DecodeFailure::LengthMismatch { expected: 3, actual: 2 });
    assert_eq!(e.name, "Rotation");
    assert_eq!(e.description, "rotation vector");
    let e = p.scaling_or_default().unwrap_err();
    assert_eq!(e.failure, DecodeFailure::LengthMismatch { expected: 3, actual: 4 });
    assert_eq!(
        F64Arr3Loader.load(&PropertyValue::F64Vector(vec![])),
        Err(DecodeFailure::LengthMismatch { expected: 3, actual: 0 })
    );
}

#[test]
fn malformed_values_are_errors_not_defaults() {
    let d = doc(
        vec![node(1, "Texture", "", vec![
            entry("Texture alpha", PropertyValue::Bool(true)),
            entry("WrapModeU", PropertyValue::Int(5)),
            entry("CurrentTextureBlendMode", PropertyValue::Int(-1)),
            entry("UVSet", PropertyValue::Int(0)),
        ])],
        vec![],
    );
    let p = texture(&d, 1).properties();
    let e = p.alpha_or_default().unwrap_err();
    assert_eq!(e.failure, DecodeFailure::TypeMismatch);
    assert_eq!(e.name, "Texture alpha");
    assert_eq!(e.description, "texture alpha value");
    assert_eq!(p.wrap_mode_u_or_default().unwrap_err().failure, DecodeFailure::InvalidValue(5));
    assert_eq!(p.blend_mode().unwrap_err().failure, DecodeFailure::InvalidValue(-1));
    assert_eq!(p.uv_set_or_default().unwrap_err().failure, DecodeFailure::TypeMismatch);
    assert_eq!(F64Loader.load(&PropertyValue::Int(1)), Err(DecodeFailure::TypeMismatch));
    assert_eq!(BoolLoader.load(&PropertyValue::Bool(false)), Ok(false));
}

#[test]
fn generic_resolver_applies_default_only_when_absent() {
    let d = doc(vec![node(1, "Texture", "", vec![entry("Flag", PropertyValue::Bool(false))])], vec![]);
    let p = d.object_by_id(ObjectId(1)).unwrap().properties_by_native_typename("FbxFileTexture");
    assert_eq!(p.get_or("Missing", "missing flag", &BoolLoader, true).unwrap(), true);
    assert_eq!(p.get_or("Flag", "flag", &BoolLoader, true).unwrap(), false);
    assert_eq!(p.get("Missing", "missing flag", &BoolLoader).unwrap(), None);
    assert_eq!(p.get_or("Flag", "flag", &F64Loader, f(1.0)).unwrap_err().name, "Flag");
}

#[test]
fn video_clip_ignores_tagged_edge() {
    let d = doc(
        vec![
            node(1, "Texture", "", vec![]),
            node(2, "Video", "Clip", vec![]),
            node(3, "Video", "Clip", vec![]),
        ],
        vec![edge(3, 1, Some("DiffuseColor")), edge(2, 1, None)],
    );
    let clip = texture(&d, 1).video_clip().unwrap();
    assert_eq!(clip.as_video().as_object().id(), ObjectId(2));
}

#[test]
fn video_clip_skips_other_categories() {
    let d = doc(
        vec![
            node(1, "Texture", "", vec![]),
            node(2, "Video", "Movie", vec![]),
            node(4, "Video", "Clip", vec![]),
        ],
        vec![edge(2, 1, None), edge(1, 4, None), edge(5, 1, None)],
    );
    assert!(texture(&d, 1).video_clip().is_none());
}

#[test]
fn find_related_without_edges_is_none() {
    let d = doc(vec![node(1, "Model", "", vec![]), node(2, "Video", "Clip", vec![])], vec![edge(1, 2, None)]);
    let h = d.object_by_id(ObjectId(1)).unwrap();
    assert!(h.find_related(Direction::Source, None, Category::VideoClip).is_none());
    let empty = doc(vec![node(1, "Model", "", vec![])], vec![]);
    let h = empty.object_by_id(ObjectId(1)).unwrap();
    assert!(h.find_related(Direction::Destination, None, Category::Unknown).is_none());
}

#[test]
fn find_related_first_declared_edge_wins() {
    let d = doc(
        vec![
            node(1, "Model", "", vec![]),
            node(2, "Texture", "", vec![]),
            node(3, "Texture", "", vec![]),
        ],
        vec![edge(1, 3, Some("Diffuse")), edge(1, 3, None), edge(1, 2, None)],
    );
    let h = d.object_by_id(ObjectId(1)).unwrap();
    for _ in 0..3 {
        let r = h.find_related(Direction::Destination, None, Category::Texture).unwrap();
        assert_eq!(r.as_object().id(), ObjectId(3));
    }
    let r = h.find_related(Direction::Destination, Some("Diffuse"), Category::Texture).unwrap();
    assert_eq!(r.as_object().id(), ObjectId(3));
    assert!(h.find_related(Direction::Destination, Some("Specular"), Category::Texture).is_none());
}

#[test]
fn lookups_by_id_and_node_id() {
    let d = doc(vec![node(5, "Model", "", vec![]), node(5, "Texture", "", vec![])], vec![]);
    let h = d.object_by_id(ObjectId(5)).unwrap();
    assert_eq!(h.node_id(), ObjectNodeId(0));
    assert_eq!(h.class(), "Model");
    assert!(d.object_by_id(ObjectId(6)).is_none());
    assert_eq!(d.object_by_node_id(ObjectNodeId(1)).unwrap().class(), "Texture");
    assert!(d.object_by_node_id(ObjectNodeId(2)).is_none());
}

#[test]
fn find_all_related_lists_every_match_in_order() {
    let d = doc(
        vec![
            node(1, "Texture", "", vec![]),
            node(2, "Video", "Clip", vec![]),
            node(3, "Video", "Clip", vec![]),
            node(4, "Model", "", vec![]),
        ],
        vec![edge(3, 1, None), edge(4, 1, None), edge(2, 1, Some("Alpha")), edge(2, 1, None), edge(3, 1, None)],
    );
    let h = d.object_by_id(ObjectId(1)).unwrap();
    let all = h.find_all_related(Direction::Source, None, Category::VideoClip);
    let ids: Vec<ObjectId> = all.iter().map(|t| t.as_object().id()).collect();
    assert_eq!(ids, vec![ObjectId(3), ObjectId(2), ObjectId(3)]);
    let first = h.find_related(Direction::Source, None, Category::VideoClip).unwrap();
    assert_eq!(first.as_object().id(), ids[0]);
    assert!(h.find_all_related(Direction::Destination, None, Category::VideoClip).is_empty());
}
