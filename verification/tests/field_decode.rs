use ldtk_decode::defs::TilesetRect;
use ldtk_decode::error::DecodeError;
use ldtk_decode::field::{FieldInstance, FieldInstanceFields, FieldType, FieldValue, GridPoint, LdtkEnum};
use ldtk_decode::json::{JsonNum, JsonValue, Nullable};

fn int_val(n: i64) -> JsonValue {
    JsonValue::Num(JsonNum {
        int_val: Some(n),
        float_bits: (n as f32).to_bits(),
    })
}

fn float(x: f32) -> JsonValue {
    JsonValue::Num(JsonNum {
        int_val: None,
        float_bits: x.to_bits(),
    })
}

fn text(s: &str) -> JsonValue {
    JsonValue::Str(s.to_owned())
}

fn obj(entries: Vec<(&str, JsonValue)>) -> Vec<(String, JsonValue)> {
    entries.into_iter().map(|(k, v)| (k.to_owned(), v)).collect()
}

fn field_entries(ty: &str, value: JsonValue) -> Vec<(String, JsonValue)> {
    obj(vec![
        ("defUid", int_val(7)),
        ("__identifier", text("my_field")),
        ("__tile", JsonValue::Null),
        ("__type", text(ty)),
        ("__value", value),
    ])
}

#[test]
fn type_tag_local_enum_prefix() {
    assert_eq!(
        FieldType::parse("LocalEnum.Direction"),
        Ok(FieldType::LocalEnum)
    );
}

#[test]
fn type_tag_extern_enum_prefix() {
    assert_eq!(
        FieldType::parse("ExternEnum.Anything"),
        Ok(FieldType::ExternEnum)
    );
}

#[test]
fn type_tag_array_prefix() {
    assert_eq!(FieldType::parse("Array<Int>"), Ok(FieldType::Array));
}

#[test]
fn type_tag_exact_names() {
    assert_eq!(FieldType::parse("Int"), Ok(FieldType::Int));
    assert_eq!(FieldType::parse("Float"), Ok(FieldType::Float));
    assert_eq!(FieldType::parse("Bool"), Ok(FieldType::Bool));
    assert_eq!(FieldType::parse("String"), Ok(FieldType::String));
    assert_eq!(FieldType::parse("Multilines"), Ok(FieldType::Multilines));
    assert_eq!(FieldType::parse("FilePath"), Ok(FieldType::FilePath));
    assert_eq!(FieldType::parse("Color"), Ok(FieldType::Color));
    assert_eq!(FieldType::parse("Point"), Ok(FieldType::Point));
    assert_eq!(FieldType::parse("EntityRef"), Ok(FieldType::EntityRef));
}

#[test]
fn type_tag_unknown_fails() {
    assert_eq!(
        FieldType::parse("Bogus"),
        Err(DecodeError::UnknownFieldType("Bogus".to_owned()))
    );
}

#[test]
fn key_classification() {
    assert_eq!(
        FieldInstanceFields::classify("defUid"),
        FieldInstanceFields::DefUid
    );
    assert_eq!(
        FieldInstanceFields::classify("__identifier"),
        FieldInstanceFields::Identifier
    );
    assert_eq!(
        FieldInstanceFields::classify("__tile"),
        FieldInstanceFields::Tile
    );
    assert_eq!(
        FieldInstanceFields::classify("__type"),
        FieldInstanceFields::Type
    );
    assert_eq!(
        FieldInstanceFields::classify("__value"),
        FieldInstanceFields::Value
    );
    assert_eq!(
        FieldInstanceFields::classify("realEditorValues"),
        FieldInstanceFields::Skip
    );
    assert_eq!(
        FieldInstanceFields::classify("somethingNew"),
        FieldInstanceFields::Skip
    );
}

#[test]
fn decode_simple_int_field() {
    let fi = FieldInstance::decode_entries(&field_entries("Int", int_val(42))).unwrap();
    assert_eq!(fi.def_uid, 7);
    assert_eq!(fi.identifier, "my_field".to_owned());
    assert_eq!(fi.tile, Nullable::Null);
    assert_eq!(fi.value, Nullable::Data(FieldValue::Integer(42)));
}

#[test]
fn order_independence() {
    let a = obj(vec![
        ("__value", int_val(42)),
        ("__type", text("Int")),
        ("__identifier", text("my_field")),
        ("defUid", int_val(7)),
        ("__tile", JsonValue::Null),
    ]);
    let b = obj(vec![
        ("defUid", int_val(7)),
        ("__identifier", text("my_field")),
        ("__tile", JsonValue::Null),
        ("__type", text("Int")),
        ("__value", int_val(42)),
    ]);
    let fa = FieldInstance::decode_entries(&a);
    let fb = FieldInstance::decode_entries(&b);
    assert_eq!(fa, fb);
    assert!(fa.is_ok());
}

#[test]
fn duplicate_identifier_fails() {
    let entries = obj(vec![
        ("defUid", int_val(7)),
        ("__identifier", text("my_field")),
        ("__identifier", text("my_field")),
        ("__tile", JsonValue::Null),
        ("__type", text("Int")),
        ("__value", int_val(1)),
    ]);
    assert_eq!(
        FieldInstance::decode_entries(&entries),
        Err(DecodeError::DuplicateField("__identifier".to_owned()))
    );
}

#[test]
fn duplicate_identifier_fails_even_when_values_differ() {
    let entries = obj(vec![
        ("defUid", int_val(7)),
        ("__identifier", text("one")),
        ("__identifier", text("two")),
        ("__tile", JsonValue::Null),
        ("__type", text("Int")),
        ("__value", int_val(1)),
    ]);
    assert_eq!(
        FieldInstance::decode_entries(&entries),
        Err(DecodeError::DuplicateField("__identifier".to_owned()))
    );
}

#[test]
fn missing_type_fails_naming_it() {
    let entries = obj(vec![
        ("defUid", int_val(7)),
        ("__identifier", text("my_field")),
        ("__tile", JsonValue::Null),
        ("__value", int_val(1)),
    ]);
    assert_eq!(
        FieldInstance::decode_entries(&entries),
        Err(DecodeError::MissingField("__type".to_owned()))
    );
}

#[test]
fn empty_object_misses_def_uid_first() {
    let entries: Vec<(String, JsonValue)> = Vec::new();
    assert_eq!(
        FieldInstance::decode_entries(&entries),
        Err(DecodeError::MissingField("defUid".to_owned()))
    );
}

#[test]
fn legacy_key_is_ignored() {
    let entries = obj(vec![
        ("defUid", int_val(7)),
        ("realEditorValues", JsonValue::Arr(vec![JsonValue::Null])),
        ("__identifier", text("my_field")),
        ("__tile", JsonValue::Null),
        ("__type", text("Int")),
        ("__value", int_val(5)),
    ]);
    let fi = FieldInstance::decode_entries(&entries).unwrap();
    assert_eq!(fi.value, Nullable::Data(FieldValue::Integer(5)));
}

#[test]
fn multilines_rewraps_text() {
    let fi = FieldInstance::decode_entries(&field_entries("Multilines", text("hello"))).unwrap();
    assert_eq!(
        fi.value,
        Nullable::Data(FieldValue::Multilines("hello".to_owned()))
    );
    let fi2 = FieldInstance::decode_entries(&field_entries("String", text("hello"))).unwrap();
    assert_eq!(
        fi2.value,
        Nullable::Data(FieldValue::String("hello".to_owned()))
    );
    assert_ne!(fi.value, fi2.value);
}

#[test]
fn file_path_rewraps_text() {
    let fi = FieldInstance::decode_entries(&field_entries("FilePath", text("a/b.png"))).unwrap();
    assert_eq!(
        fi.value,
        Nullable::Data(FieldValue::FilePath("a/b.png".to_owned()))
    );
}

#[test]
fn multilines_of_non_string_fails() {
    assert_eq!(
        FieldInstance::decode_entries(&field_entries("Multilines", int_val(3))),
        Err(DecodeError::TypeMismatch(
            "Multilines".to_owned(),
            "number".to_owned()
        ))
    );
}

#[test]
fn int_of_string_is_a_type_mismatch() {
    assert_eq!(
        FieldInstance::decode_entries(&field_entries("Int", text("3"))),
        Err(DecodeError::TypeMismatch("Int".to_owned(), "string".to_owned()))
    );
}

#[test]
fn int_out_of_range_is_a_type_mismatch() {
    assert_eq!(
        FieldInstance::decode_entries(&field_entries("Int", int_val(1i64 << 40))),
        Err(DecodeError::TypeMismatch(
            "Int".to_owned(),
            "number out of range".to_owned()
        ))
    );
}

#[test]
fn null_value_decodes_to_absent() {
    let fi = FieldInstance::decode_entries(&field_entries("Int", JsonValue::Null)).unwrap();
    assert_eq!(fi.value, Nullable::Null);
}

#[test]
fn tile_reference_decodes() {
    let tile = obj(vec![
        ("x", int_val(16)),
        ("y", int_val(32)),
        ("w", int_val(16)),
        ("h", int_val(16)),
        ("tilesetUid", int_val(3)),
    ]);
    let entries = obj(vec![
        ("defUid", int_val(7)),
        ("__identifier", text("my_field")),
        ("__tile", JsonValue::Obj(tile)),
        ("__type", text("Int")),
        ("__value", int_val(1)),
    ]);
    let fi = FieldInstance::decode_entries(&entries).unwrap();
    assert_eq!(
        fi.tile,
        Nullable::Data(TilesetRect {
            x: 16,
            y: 32,
            w: 16,
            h: 16,
            tileset_uid: 3
        })
    );
}

#[test]
fn local_enum_value_decodes() {
    let value = JsonValue::Obj(obj(vec![
        ("name", text("Direction")),
        ("variant", text("North")),
    ]));
    let fi = FieldInstance::decode_entries(&field_entries("LocalEnum.Direction", value)).unwrap();
    assert_eq!(
        fi.value,
        Nullable::Data(FieldValue::LocalEnum(LdtkEnum {
            name: "Direction".to_owned(),
            variant: "North".to_owned()
        }))
    );
}

#[test]
fn point_value_decodes() {
    let value = JsonValue::Obj(obj(vec![("cx", int_val(3)), ("cy", int_val(9))]));
    let fi = FieldInstance::decode_entries(&field_entries("Point", value)).unwrap();
    assert_eq!(
        fi.value,
        Nullable::Data(FieldValue::Point(GridPoint { cx: 3, cy: 9 }))
    );
}

#[test]
fn array_value_decodes_untagged_elements() {
    let value = JsonValue::Arr(vec![int_val(1), float(2.5), text("x"), JsonValue::Bool(true)]);
    let fi = FieldInstance::decode_entries(&field_entries("Array<Int>", value)).unwrap();
    assert_eq!(
        fi.value,
        Nullable::Data(FieldValue::Array(vec![
            FieldValue::Integer(1),
            FieldValue::Float(ldtk_decode::json::FloatBits(2.5f32.to_bits())),
            FieldValue::String("x".to_owned()),
            FieldValue::Bool(true),
        ]))
    );
}
