use enumerare::derive_cycle;
use enumerare::derive_default;
use enumerare::derive_sized_enum;
use enumerare::primitive_bit_req;
use enumerare::unwrap_enum;
use enumerare::unwrap_linear_enum;
use enumerare::unwrap_unit_variant;
use enumerare::unwrap_variant;
use enumerare::CycleError;
use enumerare::DeriveError;
use enumerare::EnumDescriptor;
use enumerare::FieldKind;
use enumerare::TypeData;
use enumerare::VariantRecord;

fn engine_variant(name: &str, marked: bool, fields: FieldKind) -> VariantRecord {
    VariantRecord {
        name: name.to_string(),
        discriminant: None,
        fields,
        default_marker: marked,
    }
}

fn engine_enum(n: usize) -> TypeData {
    let mut variants = Vec::new();
    for i in 0..n {
        variants.push(engine_variant(&format!("Variant{}", i), false, FieldKind::Unit));
    }
    TypeData::Enum(EnumDescriptor { variants })
}

#[test]
fn test_width_selection() {
    assert_eq!(primitive_bit_req(0), 8);
    assert_eq!(primitive_bit_req(1), 8);
    assert_eq!(primitive_bit_req(3), 8);
    assert_eq!(primitive_bit_req(255), 8);
    assert_eq!(primitive_bit_req(256), 16);
    assert_eq!(primitive_bit_req(65535), 16);
    assert_eq!(primitive_bit_req(65536), 32);
    assert_eq!(primitive_bit_req(4294967295), 32);
    assert_eq!(primitive_bit_req(4294967296), 64);
}

#[test]
fn test_cycle_capability_width() {
    let small = derive_cycle(&engine_enum(3)).unwrap();
    assert_eq!(small.count, 3);
    assert_eq!(small.width, 8);

    let large = derive_cycle(&engine_enum(300)).unwrap();
    assert_eq!(large.count, 300);
    assert_eq!(large.width, 16);
}

#[test]
fn test_variant_count_matches_descriptor() {
    for n in 1..10usize {
        let data = engine_enum(n);
        assert_eq!(derive_sized_enum(&data).unwrap().variants, n);
        assert_eq!(derive_cycle(&data).unwrap().count, n);
    }
}

#[test]
fn test_ordinal_bijection() {
    let cap = derive_cycle(&engine_enum(5)).unwrap();
    for i in 0..5usize {
        assert_eq!(cap.try_from_ordinal(i).unwrap(), i);
        assert_eq!(cap.try_cycle_to(i).unwrap(), i);
    }
    for i in 5..20usize {
        assert_eq!(cap.try_from_ordinal(i).unwrap_err(), CycleError::OutOfBounds);
    }
}

#[test]
fn test_group_law_examples() {
    let cap = derive_cycle(&engine_enum(4)).unwrap();
    for v in 0..4usize {
        // identity
        assert_eq!(cap.cycle_by(v, 0), v);
        for a in -6..=6isize {
            // steps agree modulo the count
            assert_eq!(cap.cycle_by(v, a), cap.cycle_by(v, a.rem_euclid(4)));
            for b in -6..=6isize {
                // composition
                assert_eq!(cap.cycle_by(cap.cycle_by(v, a), b), cap.cycle_by(v, a + b));
            }
        }
    }
}

#[test]
fn test_inverse_law_examples() {
    let cap = derive_cycle(&engine_enum(3)).unwrap();
    for v in 0..3usize {
        assert_eq!(cap.prev(cap.next(v)), v);
        assert_eq!(cap.next(cap.prev(v)), v);
    }
}

#[test]
fn test_not_an_enum_rejected() {
    assert_eq!(derive_sized_enum(&TypeData::Struct).unwrap_err(), DeriveError::NotAnEnum);
    assert_eq!(derive_default(&TypeData::Union).unwrap_err(), DeriveError::NotAnEnum);
    assert_eq!(unwrap_enum(&TypeData::Struct).unwrap_err(), DeriveError::NotAnEnum);
}

#[test]
fn test_empty_enum_rejected() {
    let data = engine_enum(0);
    assert_eq!(derive_default(&data).unwrap_err(), DeriveError::EmptyEnum);
}

#[test]
fn test_non_linear_enum_rejected() {
    let mut variants = vec![engine_variant("Variant", false, FieldKind::Unit)];
    let mut with_discriminant = engine_variant("VariantTwo", false, FieldKind::Unit);
    with_discriminant.discriminant = Some(7);
    variants.push(with_discriminant);
    let data = TypeData::Enum(EnumDescriptor { variants });

    assert_eq!(unwrap_linear_enum(&data).unwrap_err(), DeriveError::NonLinearEnum);
    // the cycle derivation collapses the cause into the combined kind
    assert_eq!(derive_cycle(&data).unwrap_err(), DeriveError::NonLinearPopulatedEnum);
}

#[test]
fn test_combined_error_collapses_cause() {
    assert_eq!(derive_cycle(&TypeData::Struct).unwrap_err(), DeriveError::NonLinearPopulatedEnum);
    assert_eq!(derive_cycle(&engine_enum(0)).unwrap_err(), DeriveError::NonLinearPopulatedEnum);
}

#[test]
fn test_no_valid_variant_rejected() {
    assert_eq!(unwrap_variant(None).unwrap_err(), DeriveError::NoValidVariant);
    assert_eq!(unwrap_unit_variant(None).unwrap_err(), DeriveError::NoValidVariant);
}

#[test]
fn test_non_unit_variant_rejected() {
    let payload = engine_variant("Variant", false, FieldKind::NonUnit);
    assert_eq!(unwrap_unit_variant(Some(&payload)).unwrap_err(), DeriveError::NonUnitVariant);

    // a marked default variant that carries fields is rejected
    let data = TypeData::Enum(EnumDescriptor {
        variants: vec![
            engine_variant("Variant", false, FieldKind::Unit),
            engine_variant("VariantTwo", true, FieldKind::NonUnit),
        ],
    });
    assert_eq!(derive_default(&data).unwrap_err(), DeriveError::NonUnitVariant);
}

#[test]
fn test_first_marked_default_wins() {
    let data = TypeData::Enum(EnumDescriptor {
        variants: vec![
            engine_variant("Variant", false, FieldKind::Unit),
            engine_variant("VariantTwo", true, FieldKind::Unit),
            engine_variant("VariantThree", true, FieldKind::Unit),
        ],
    });
    assert_eq!(derive_default(&data).unwrap().ordinal, 1);
}

#[test]
fn test_cycle_error_message() {
    assert_eq!(CycleError::OutOfBounds.message(), "enum failed to cycle");
}

#[test]
fn test_unit_variant_accepted() {
    let unit = engine_variant("Variant", false, FieldKind::Unit);
    assert_eq!(unwrap_variant(Some(&unit)).unwrap().name, "Variant");
    assert_eq!(unwrap_unit_variant(Some(&unit)).unwrap().name, "Variant");
}

#[test]
fn test_three_variant_scenario() {
    // enum { A, B, C } - ordinals 0, 1, 2
    let data = TypeData::Enum(EnumDescriptor {
        variants: vec![
            engine_variant("A", false, FieldKind::Unit),
            engine_variant("B", false, FieldKind::Unit),
            engine_variant("C", false, FieldKind::Unit),
        ],
    });
    let cap = derive_cycle(&data).unwrap();

    assert_eq!(cap.count, 3);
    // A.cycle_to(2) == C
    assert_eq!(cap.cycle_to(2), 2);
    // C.cycle_by(1) == A
    assert_eq!(cap.cycle_by(2, 1), 0);
    // B.try_cycle_to(5) is out of bounds
    assert_eq!(cap.try_cycle_to(5).unwrap_err(), CycleError::OutOfBounds);
    // A.cycle_by(-1) == C
    assert_eq!(cap.cycle_by(0, -1), 2);
}

#[test]
fn test_two_variant_default_scenario() {
    // enum { A, #[default] B }: default() == B
    let marked = TypeData::Enum(EnumDescriptor {
        variants: vec![
            engine_variant("A", false, FieldKind::Unit),
            engine_variant("B", true, FieldKind::Unit),
        ],
    });
    assert_eq!(derive_default(&marked).unwrap().ordinal, 1);

    // enum { A, B } with no marker: default() == A, the first declared
    let unmarked = TypeData::Enum(EnumDescriptor {
        variants: vec![
            engine_variant("A", false, FieldKind::Unit),
            engine_variant("B", false, FieldKind::Unit),
        ],
    });
    assert_eq!(derive_default(&unmarked).unwrap().ordinal, 0);
}
