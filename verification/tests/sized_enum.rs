use enumerare::derive_default;
use enumerare::derive_sized_enum;
use enumerare::EnumDescriptor;
use enumerare::FieldKind;
use enumerare::TypeData;
use enumerare::VariantRecord;

fn sized_variant(name: &str, marked: bool) -> VariantRecord {
    VariantRecord {
        name: name.to_string(),
        discriminant: None,
        fields: FieldKind::Unit,
        default_marker: marked,
    }
}

#[test]
fn test_empty_enum() {
    // enum Test {}
    let data = TypeData::Enum(EnumDescriptor { variants: vec![] });
    let cap = derive_sized_enum(&data).unwrap();

    assert_eq!(cap.variants, 0usize);
}

#[test]
fn test_enum_sizes() {
    // enum Test { Variant } and enum TestTwo { Variant, VariantTwo }
    let data = TypeData::Enum(EnumDescriptor {
        variants: vec![sized_variant("Variant", false)],
    });
    let data_two = TypeData::Enum(EnumDescriptor {
        variants: vec![
            sized_variant("Variant", false),
            sized_variant("VariantTwo", false),
        ],
    });

    assert_eq!(derive_sized_enum(&data).unwrap().variants, 1usize);
    assert_eq!(derive_sized_enum(&data_two).unwrap().variants, 2usize);
}

#[test]
fn test_enum_with_attrs() {
    // enum Test { Variant, #[default] VariantTwo }
    let data = TypeData::Enum(EnumDescriptor {
        variants: vec![
            sized_variant("Variant", false),
            sized_variant("VariantTwo", true),
        ],
    });
    let _default = derive_default(&data).unwrap();

    assert_eq!(derive_sized_enum(&data).unwrap().variants, 2usize);
}
