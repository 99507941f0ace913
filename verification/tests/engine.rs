use type_enum::AccessorCapability;
use type_enum::AccessorStrategy;
use type_enum::AttributeDescriptor;
use type_enum::DataShape;
use type_enum::FieldsShape;
use type_enum::GenerationError;
use type_enum::PayloadShapeKey;
use type_enum::TypeDescriptor;
use type_enum::VariantDescriptor;
use type_enum::derive_capabilities;
use type_enum::has_skip_attribute;
use type_enum::type_key;

fn variant(name: &str, types: &[&str]) -> VariantDescriptor {
    VariantDescriptor {
        name: name.to_string(),
        fields: FieldsShape::Tuple(types.iter().map(|t| t.to_string()).collect()),
        attrs: Vec::new(),
    }
}

fn shaped(name: &str, fields: FieldsShape) -> VariantDescriptor {
    VariantDescriptor { name: name.to_string(), fields, attrs: Vec::new() }
}

fn skipped(mut v: VariantDescriptor) -> VariantDescriptor {
    v.attrs.push(AttributeDescriptor {
        path: "type_enum".to_string(),
        list_tokens: Some("skip".to_string()),
    });
    v
}

fn union_of(name: &str, vs: Vec<VariantDescriptor>) -> TypeDescriptor {
    TypeDescriptor { name: name.to_string(), data: DataShape::Union(vs) }
}

#[test]
fn duplicate_payload_detected() {
    let d = union_of("E", vec![variant("A", &["String"]), variant("B", &["String"])]);
    let r = derive_capabilities(&d, AccessorStrategy::PerFieldRefs);
    match r {
        Err(GenerationError::DuplicatePayloadType { first, second }) => {
            assert_eq!(first, "A");
            assert_eq!(second, "B");
        }
        other => panic!("expected a duplicate error, got {other:?}"),
    }
}

#[test]
fn duplicate_reports_first_seen_first() {
    let d = union_of(
        "E",
        vec![variant("A", &["i64"]), variant("B", &["String"]), variant("C", &["i64"])],
    );
    let r = derive_capabilities(&d, AccessorStrategy::PerFieldRefs);
    match r {
        Err(GenerationError::DuplicatePayloadType { first, second }) => {
            assert_eq!(first, "A");
            assert_eq!(second, "C");
        }
        other => panic!("expected a duplicate error, got {other:?}"),
    }
}

#[test]
fn multi_field_keys_are_order_sensitive() {
    let d = union_of("E", vec![variant("A", &["u8", "u16"]), variant("B", &["u16", "u8"])]);
    let r = derive_capabilities(&d, AccessorStrategy::PerFieldRefs);
    assert!(r.is_ok());

    let d2 = union_of("E", vec![variant("A", &["u8", "u16"]), variant("B", &["u8", "u16"])]);
    let r2 = derive_capabilities(&d2, AccessorStrategy::PerFieldRefs);
    match r2 {
        Err(GenerationError::DuplicatePayloadType { first, second }) => {
            assert_eq!(first, "A");
            assert_eq!(second, "B");
        }
        other => panic!("expected a duplicate error, got {other:?}"),
    }
}

#[test]
fn skip_removes_collision() {
    let d = union_of("E", vec![skipped(variant("A", &["String"])), variant("B", &["String"])]);
    let r = derive_capabilities(&d, AccessorStrategy::PerFieldRefs);
    let out = r.expect("generation should succeed once one variant is excluded");
    assert_eq!(out.capabilities.len(), 1);
    assert_eq!(out.capabilities[0].variant_name, "B");
}

#[test]
fn zero_field_variant_rejected() {
    let d = union_of("E", vec![variant("Good", &["i64"]), variant("Empty", &[])]);
    let r = derive_capabilities(&d, AccessorStrategy::PerFieldRefs);
    assert_eq!(
        r,
        Err(GenerationError::UnsupportedVariantShape { variant: "Empty".to_string() })
    );
}

#[test]
fn named_fields_variant_rejected() {
    let d = union_of(
        "E",
        vec![variant("Good", &["i64"]), shaped("Record", FieldsShape::Named)],
    );
    let r = derive_capabilities(&d, AccessorStrategy::PerFieldRefs);
    assert_eq!(
        r,
        Err(GenerationError::UnsupportedVariantShape { variant: "Record".to_string() })
    );
}

#[test]
fn unit_variant_rejected() {
    let d = union_of("E", vec![shaped("Bare", FieldsShape::Unit)]);
    let r = derive_capabilities(&d, AccessorStrategy::PerFieldRefs);
    assert_eq!(
        r,
        Err(GenerationError::UnsupportedVariantShape { variant: "Bare".to_string() })
    );
}

#[test]
fn non_union_rejected() {
    let d = TypeDescriptor { name: "S".to_string(), data: DataShape::Other };
    let r = derive_capabilities(&d, AccessorStrategy::PerFieldRefs);
    assert_eq!(r, Err(GenerationError::InvalidTargetShape));
}

#[test]
fn duplicate_detection_runs_before_shape_checks() {
    // The zero-field variant sits between the two colliding ones, but the
    // duplicate pass runs first and wins.
    let d = union_of(
        "E",
        vec![variant("A", &["String"]), variant("Empty", &[]), variant("C", &["String"])],
    );
    let r = derive_capabilities(&d, AccessorStrategy::PerFieldRefs);
    match r {
        Err(GenerationError::DuplicatePayloadType { first, second }) => {
            assert_eq!(first, "A");
            assert_eq!(second, "C");
        }
        other => panic!("expected a duplicate error, got {other:?}"),
    }
}

#[test]
fn zero_field_variants_never_collide() {
    // A zero-field tuple is an invalid shape, not a payload: it carries no
    // shape key, so two such variants are rejected as unsupported — the
    // first one is named — rather than reported as duplicates.
    let d = union_of("E", vec![variant("A", &[]), variant("B", &[])]);
    let r = derive_capabilities(&d, AccessorStrategy::PerFieldRefs);
    assert_eq!(r, Err(GenerationError::UnsupportedVariantShape { variant: "A".to_string() }));
}

#[test]
fn unkeyed_shapes_never_collide() {
    // Two struct-style variants share no key, so the error is about the
    // first unsupported shape, not about a duplicate.
    let d = union_of(
        "E",
        vec![shaped("R1", FieldsShape::Named), shaped("R2", FieldsShape::Named)],
    );
    let r = derive_capabilities(&d, AccessorStrategy::PerFieldRefs);
    assert_eq!(r, Err(GenerationError::UnsupportedVariantShape { variant: "R1".to_string() }));
}

#[test]
fn excluded_variants_receive_no_capabilities() {
    let d = union_of(
        "E",
        vec![
            variant("Keep", &["i64"]),
            skipped(variant("Drop", &["String"])),
            variant("Pair", &["u8", "u8"]),
        ],
    );
    let r = derive_capabilities(&d, AccessorStrategy::PerFieldRefs);
    let out = r.expect("generation should succeed");
    assert_eq!(out.union_name, "E");
    assert_eq!(out.capabilities.len(), 2);
    assert_eq!(out.capabilities[0].variant_name, "Keep");
    assert_eq!(out.capabilities[1].variant_name, "Pair");
    assert!(out.capabilities.iter().all(|c| c.variant_name != "Drop"));
}

#[test]
fn excluded_unsupported_shapes_are_tolerated() {
    let d = union_of(
        "E",
        vec![skipped(shaped("Record", FieldsShape::Named)), variant("Keep", &["i64"])],
    );
    let r = derive_capabilities(&d, AccessorStrategy::PerFieldRefs);
    let out = r.expect("an excluded variant's shape is never checked");
    assert_eq!(out.capabilities.len(), 1);
    assert_eq!(out.capabilities[0].variant_name, "Keep");
}

#[test]
fn output_records_accessor_forms_per_strategy() {
    let d = union_of(
        "E",
        vec![variant("Number", &["i64"]), variant("Pair", &["u8", "u8"]), variant(
            "Triple",
            &["u8", "u8", "u8"],
        )],
    );

    let out = derive_capabilities(&d, AccessorStrategy::PerFieldRefs).expect("should succeed");
    assert_eq!(out.capabilities[0].accessors, AccessorCapability::SingleRef);
    assert_eq!(out.capabilities[1].accessors, AccessorCapability::PerFieldRefs);
    assert_eq!(out.capabilities[2].accessors, AccessorCapability::PerFieldRefs);

    let out2 = derive_capabilities(&d, AccessorStrategy::WholeTupleRef).expect("should succeed");
    assert_eq!(out2.capabilities[0].accessors, AccessorCapability::SingleRef);
    assert_eq!(out2.capabilities[1].accessors, AccessorCapability::NeverPresent);
    assert_eq!(out2.capabilities[2].accessors, AccessorCapability::NeverPresent);

    assert_eq!(out.capabilities[1].payload_types, vec!["u8".to_string(), "u8".to_string()]);
}

#[test]
fn empty_union_generates_nothing() {
    let d = union_of("E", Vec::new());
    let r = derive_capabilities(&d, AccessorStrategy::PerFieldRefs);
    let out = r.expect("an empty union has nothing to refuse");
    assert_eq!(out.union_name, "E");
    assert_eq!(out.capabilities.len(), 0);
}

#[test]
fn type_key_fingerprints() {
    assert_eq!(
        type_key(&FieldsShape::Tuple(vec!["i64".to_string()])),
        PayloadShapeKey::Types(vec!["i64".to_string()])
    );
    assert_eq!(
        type_key(&FieldsShape::Tuple(vec!["u8".to_string(), "u16".to_string()])),
        PayloadShapeKey::Types(vec!["u8".to_string(), "u16".to_string()])
    );
    assert_eq!(type_key(&FieldsShape::Named), PayloadShapeKey::Unkeyed);
    assert_eq!(type_key(&FieldsShape::Unit), PayloadShapeKey::Unkeyed);
    assert_eq!(type_key(&FieldsShape::Tuple(Vec::new())), PayloadShapeKey::Unkeyed);
}

#[test]
fn skip_marker_recognition() {
    let plain = variant("A", &["i64"]);
    assert!(!has_skip_attribute(&plain));

    let marked = skipped(variant("A", &["i64"]));
    assert!(has_skip_attribute(&marked));

    let mut wrong_tokens = variant("A", &["i64"]);
    wrong_tokens.attrs.push(AttributeDescriptor {
        path: "type_enum".to_string(),
        list_tokens: Some("other".to_string()),
    });
    assert!(!has_skip_attribute(&wrong_tokens));

    let mut wrong_path = variant("A", &["i64"]);
    wrong_path.attrs.push(AttributeDescriptor {
        path: "serde".to_string(),
        list_tokens: Some("skip".to_string()),
    });
    assert!(!has_skip_attribute(&wrong_path));

    let mut no_list = variant("A", &["i64"]);
    no_list.attrs.push(AttributeDescriptor { path: "type_enum".to_string(), list_tokens: None });
    assert!(!has_skip_attribute(&no_list));
}
