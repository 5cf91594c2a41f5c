use tos_vm_runtime::enum_types::{EnumType, EnumValueType, EnumVariant};

// A placeholder field-type descriptor for the tests; real callers supply
// their own type system's descriptor here.
#[derive(Debug, Clone, PartialEq)]
enum FieldType {
    Number,
    Text,
}

#[test]
fn test_enum_variant_fields() {
    let variant: EnumVariant<FieldType> = EnumVariant::new(vec![
        (String::from("amount"), FieldType::Number),
        (String::from("memo"), FieldType::Text),
    ]);
    let fields = variant.fields();
    assert_eq!(fields.len(), 2);
    assert_eq!(fields[0].0, "amount");
    assert_eq!(fields[0].1, FieldType::Number);
    assert_eq!(fields[1].0, "memo");
    assert_eq!(fields[1].1, FieldType::Text);
}

#[test]
fn test_enum_type_accessors() {
    let unit_variant: EnumVariant<FieldType> = EnumVariant::new(vec![]);
    let payload_variant =
        EnumVariant::new(vec![(String::from("value"), FieldType::Number)]);
    let enum_type = EnumType::new(
        42,
        String::from("Outcome"),
        vec![
            (String::from("Nothing"), unit_variant),
            (String::from("Value"), payload_variant),
        ],
    );

    assert_eq!(enum_type.id(), 42);
    assert_eq!(enum_type.name(), "Outcome");
    assert_eq!(enum_type.variants().len(), 2);

    let found = enum_type.get_variant(1).unwrap();
    assert_eq!(found.0, "Value");
    assert_eq!(found.1.fields().len(), 1);

    assert!(enum_type.get_variant(2).is_none());
}

#[test]
fn test_enum_value_type() {
    let enum_type: EnumType<FieldType> = EnumType::new(
        7,
        String::from("Flag"),
        vec![(String::from("On"), EnumVariant::new(vec![]))],
    );
    let value_type = EnumValueType::new(enum_type, 0);
    assert_eq!(value_type.id(), 7);
    assert_eq!(value_type.variant_id(), 0);
    assert_eq!(value_type.enum_type().name(), "Flag");
}

#[test]
fn test_enum_types_compare_by_id() {
    let first: EnumType<FieldType> = EnumType::new(
        5,
        String::from("First"),
        vec![(String::from("A"), EnumVariant::new(vec![]))],
    );
    // Same identifier, different name and variants: still the same enum.
    let second: EnumType<FieldType> = EnumType::new(5, String::from("Second"), vec![]);
    let third: EnumType<FieldType> = EnumType::new(6, String::from("First"), vec![]);

    assert!(first == second);
    assert!(first != third);

    let a = EnumValueType::new(first, 0);
    let b = EnumValueType::new(second, 0);
    let c = EnumValueType::new(third, 0);
    assert!(a == b);
    assert!(a != c);
}
