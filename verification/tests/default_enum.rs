use enumerare::derive_default;
use enumerare::EnumDescriptor;
use enumerare::FieldKind;
use enumerare::TypeData;
use enumerare::VariantRecord;

fn default_variant(name: &str, marked: bool) -> VariantRecord {
    VariantRecord {
        name: name.to_string(),
        discriminant: None,
        fields: FieldKind::Unit,
        default_marker: marked,
    }
}

#[test]
fn test_explicit_default() {
    // enum Test { Variant, #[default] VariantTwo } - ordinals 0 and 1
    let data = TypeData::Enum(EnumDescriptor {
        variants: vec![
            default_variant("Variant", false),
            default_variant("VariantTwo", true),
        ],
    });
    let cap = derive_default(&data).unwrap();

    assert_eq!(1, cap.ordinal);
    assert_ne!(0, cap.ordinal);
}

#[test]
fn test_implied_first_default() {
    // enum Test { Variant, VariantTwo } - ordinals 0 and 1, none marked
    let data = TypeData::Enum(EnumDescriptor {
        variants: vec![
            default_variant("Variant", false),
            default_variant("VariantTwo", false),
        ],
    });
    let cap = derive_default(&data).unwrap();

    assert_eq!(0, cap.ordinal);
    assert_ne!(1, cap.ordinal);
}
