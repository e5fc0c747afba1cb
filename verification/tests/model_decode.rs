use ldtk_decode::color::LdtkColor;
use ldtk_decode::decode::Decode;
use ldtk_decode::defs::LayerType;
use ldtk_decode::error::DecodeError;
use ldtk_decode::field::{EntityRef, FieldInstance, FieldType, FieldValue, GridPoint, LdtkEnum};
use ldtk_decode::json::{FloatBits, JsonNum, JsonValue, Nullable};
use ldtk_decode::level::{LayerInstance, TileInstance};

fn int_val(n: i64) -> JsonValue {
    JsonValue::Num(JsonNum {
        int_val: Some(n),
        float_bits: (n as f32).to_bits(),
    })
}

fn float(x: f32) -> JsonValue {
    JsonValue::Num(JsonNum {
        int_val: None,
        float_bits: x.to_bits(),
    })
}

fn text(s: &str) -> JsonValue {
    JsonValue::Str(s.to_owned())
}

fn obj(entries: Vec<(&str, JsonValue)>) -> JsonValue {
    JsonValue::Obj(entries.into_iter().map(|(k, v)| (k.to_owned(), v)).collect())
}

fn field_value(ty: &str, value: JsonValue) -> Nullable<FieldValue> {
    let entries = vec![
        ("defUid".to_owned(), int_val(1)),
        ("__identifier".to_owned(), text("f")),
        ("__tile".to_owned(), JsonValue::Null),
        ("__type".to_owned(), text(ty)),
        ("__value".to_owned(), value),
    ];
    FieldInstance::decode_entries(&entries).unwrap().value
}

#[test]
fn color_red_decodes() {
    assert_eq!(
        LdtkColor::parse("#ff0000"),
        Ok(LdtkColor { r: 255, g: 0, b: 0 })
    );
}

#[test]
fn color_accepts_both_cases() {
    assert_eq!(
        LdtkColor::parse("#AbCdEf"),
        Ok(LdtkColor {
            r: 0xab,
            g: 0xcd,
            b: 0xef
        })
    );
}

#[test]
fn color_encode_is_exact() {
    assert_eq!(
        LdtkColor { r: 255, g: 0, b: 0 }.encode(),
        "#ff0000".to_owned()
    );
    assert_eq!(
        LdtkColor {
            r: 0x12,
            g: 0x34,
            b: 0xf5
        }
        .encode(),
        "#1234f5".to_owned()
    );
}

#[test]
fn color_malformed_fails() {
    assert_eq!(
        LdtkColor::parse("#zzzzzz"),
        Err(DecodeError::MalformedColor("#zzzzzz".to_owned()))
    );
    assert_eq!(
        LdtkColor::parse("ff0000"),
        Err(DecodeError::MalformedColor("ff0000".to_owned()))
    );
    assert_eq!(
        LdtkColor::parse("#ff000"),
        Err(DecodeError::MalformedColor("#ff000".to_owned()))
    );
}

#[test]
fn color_field_decodes_from_text() {
    assert_eq!(
        field_value("Color", text("#ff0000")),
        Nullable::Data(FieldValue::Color(LdtkColor { r: 255, g: 0, b: 0 }))
    );
}

#[test]
fn color_field_absent_is_absent_not_an_error() {
    assert_eq!(field_value("Color", JsonValue::Null), Nullable::Null);
}

#[test]
fn color_field_of_non_string_fails() {
    let entries = vec![
        ("defUid".to_owned(), int_val(1)),
        ("__identifier".to_owned(), text("f")),
        ("__tile".to_owned(), JsonValue::Null),
        ("__type".to_owned(), text("Color")),
        ("__value".to_owned(), int_val(3)),
    ];
    assert_eq!(
        FieldInstance::decode_entries(&entries),
        Err(DecodeError::TypeMismatch(
            "Color".to_owned(),
            "number".to_owned()
        ))
    );
}

fn round_trips_untagged(v: FieldValue) {
    let encoded = v.encode();
    assert_eq!(FieldValue::decode_untagged(&encoded), Ok(v));
}

#[test]
fn round_trip_untagged_variants() {
    round_trips_untagged(FieldValue::Integer(-5));
    round_trips_untagged(FieldValue::Float(FloatBits(0.25f32.to_bits())));
    round_trips_untagged(FieldValue::Bool(true));
    round_trips_untagged(FieldValue::String("hi".to_owned()));
    round_trips_untagged(FieldValue::LocalEnum(LdtkEnum {
        name: "Direction".to_owned(),
        variant: "South".to_owned(),
    }));
    round_trips_untagged(FieldValue::Point(GridPoint { cx: 1, cy: 2 }));
    round_trips_untagged(FieldValue::EntityRef(EntityRef {
        entity_iid: "e".to_owned(),
        layer_iid: "la".to_owned(),
        level_iid: "le".to_owned(),
        world_iid: "w".to_owned(),
    }));
    round_trips_untagged(FieldValue::Array(vec![
        FieldValue::Integer(1),
        FieldValue::Bool(false),
    ]));
}

fn round_trips_typed(ty: FieldType, v: FieldValue) {
    let encoded = v.encode();
    assert_eq!(
        FieldValue::decode_typed(ty, &encoded),
        Ok(Nullable::Data(v))
    );
}

#[test]
fn round_trip_typed_variants() {
    round_trips_typed(
        FieldType::Multilines,
        FieldValue::Multilines("a\nb".to_owned()),
    );
    round_trips_typed(FieldType::FilePath, FieldValue::FilePath("x/y".to_owned()));
    round_trips_typed(
        FieldType::ExternEnum,
        FieldValue::ExternEnum(LdtkEnum {
            name: "Items".to_owned(),
            variant: "Sword".to_owned(),
        }),
    );
    round_trips_typed(
        FieldType::Color,
        FieldValue::Color(LdtkColor {
            r: 1,
            g: 128,
            b: 255,
        }),
    );
}

#[test]
fn untagged_numbers_split_by_integrality() {
    assert_eq!(
        FieldValue::decode_untagged(&int_val(12)),
        Ok(FieldValue::Integer(12))
    );
    assert_eq!(
        FieldValue::decode_untagged(&float(2.5)),
        Ok(FieldValue::Float(FloatBits(2.5f32.to_bits())))
    );
    assert_eq!(
        FieldValue::decode_untagged(&int_val(1i64 << 40)),
        Ok(FieldValue::Float(FloatBits(((1i64 << 40) as f32).to_bits())))
    );
}

#[test]
fn tile_instance_decodes() {
    let v = obj(vec![
        ("a", float(1.0)),
        ("f", int_val(2)),
        ("px", JsonValue::Arr(vec![int_val(32), int_val(64)])),
        ("src", JsonValue::Arr(vec![int_val(0), int_val(16)])),
        ("t", int_val(9)),
    ]);
    assert_eq!(
        TileInstance::decode(&v),
        Ok(TileInstance {
            alpha: FloatBits(1.0f32.to_bits()),
            flip: 2,
            px: (32, 64),
            src: (0, 16),
            tile_id: 9
        })
    );
}

#[test]
fn int_grid_layer_reads_back_row_major() {
    let v = obj(vec![
        ("__cHei", int_val(2)),
        ("__cWid", int_val(2)),
        ("__gridSize", int_val(16)),
        ("__identifier", text("Collisions")),
        ("__opacity", float(1.0)),
        ("__pxTotalOffsetX", int_val(0)),
        ("__pxTotalOffsetY", int_val(0)),
        ("__tilesetDefUid", JsonValue::Null),
        ("__tilesetRelPath", JsonValue::Null),
        ("__type", text("IntGrid")),
        ("autoLayerTiles", JsonValue::Arr(vec![])),
        ("entityInstances", JsonValue::Arr(vec![])),
        ("gridTiles", JsonValue::Arr(vec![])),
        ("iid", text("layer-iid")),
        (
            "intGridCsv",
            JsonValue::Arr(vec![int_val(0), int_val(1), int_val(2), int_val(0)]),
        ),
        ("layerDefUid", int_val(5)),
        ("levelId", int_val(0)),
        ("overrideTilesetUid", JsonValue::Null),
        ("pxOffsetX", int_val(0)),
        ("pxOffsetY", int_val(0)),
        ("visible", JsonValue::Bool(true)),
    ]);
    let layer = LayerInstance::decode(&v).unwrap();
    assert_eq!(layer.ty, LayerType::IntGrid);
    assert_eq!(layer.c_wid, 2);
    assert_eq!(layer.c_hei, 2);
    assert_eq!(layer.int_grid_csv, vec![0, 1, 2, 0]);
    assert_eq!(
        layer.int_grid_csv[(1 * layer.c_wid + 0) as usize],
        2,
        "row-major read-back"
    );
    assert_eq!(layer.tileset_def_uid, Nullable::Null);
    assert!(layer.visible);
}

#[test]
fn duplicate_key_in_model_object_fails() {
    let v = obj(vec![
        ("cx", int_val(1)),
        ("cx", int_val(2)),
        ("cy", int_val(3)),
    ]);
    assert_eq!(
        GridPoint::decode(&v),
        Err(DecodeError::DuplicateField("cx".to_owned()))
    );
}

#[test]
fn wrong_shape_in_model_object_fails() {
    let v = obj(vec![("cx", text("three")), ("cy", int_val(3))]);
    assert_eq!(
        GridPoint::decode(&v),
        Err(DecodeError::WrongShape(
            "cx".to_owned(),
            "integer".to_owned(),
            "string".to_owned()
        ))
    );
}

#[test]
fn tile_encode_decode_round_trip() {
    let tile = TileInstance {
        alpha: FloatBits(0.5f32.to_bits()),
        flip: 3,
        px: (48, 0),
        src: (16, 16),
        tile_id: 4,
    };
    let encoded = ldtk_decode::decode::Encode::encode(&tile);
    assert_eq!(TileInstance::decode(&encoded), Ok(tile));
}

#[test]
fn field_instance_encode_omits_the_type_tag() {
    let entries = vec![
        ("defUid".to_owned(), int_val(1)),
        ("__identifier".to_owned(), text("f")),
        ("__tile".to_owned(), JsonValue::Null),
        ("__type".to_owned(), text("Int")),
        ("__value".to_owned(), int_val(10)),
    ];
    let fi = FieldInstance::decode_entries(&entries).unwrap();
    let encoded = ldtk_decode::decode::Encode::encode(&fi);
    match &encoded {
        JsonValue::Obj(out) => {
            let keys: Vec<&str> = out.iter().map(|(k, _)| k.as_str()).collect();
            assert_eq!(keys, vec!["defUid", "__identifier", "__tile", "__value"]);
        }
        other => panic!("expected an object, got {other:?}"),
    }
    assert_eq!(
        FieldInstance::decode(&encoded),
        Err(DecodeError::MissingField("__type".to_owned()))
    );
}

#[test]
fn bare_array_token_is_the_array_kind() {
    assert_eq!(FieldType::parse("Array"), Ok(FieldType::Array));
}

#[test]
fn float_field_accepts_an_integral_number() {
    assert_eq!(
        field_value("Float", int_val(1)),
        Nullable::Data(FieldValue::Float(FloatBits(1.0f32.to_bits())))
    );
}

#[test]
fn bool_field_decodes() {
    assert_eq!(
        field_value("Bool", JsonValue::Bool(true)),
        Nullable::Data(FieldValue::Bool(true))
    );
}

#[test]
fn entity_ref_field_decodes() {
    let v = obj(vec![
        ("entityIid", text("e1")),
        ("layerIid", text("l1")),
        ("levelIid", text("v1")),
        ("worldIid", text("w1")),
    ]);
    assert_eq!(
        field_value("EntityRef", v),
        Nullable::Data(FieldValue::EntityRef(EntityRef {
            entity_iid: "e1".to_owned(),
            layer_iid: "l1".to_owned(),
            level_iid: "v1".to_owned(),
            world_iid: "w1".to_owned(),
        }))
    );
}

#[test]
fn unknown_layer_type_token_fails() {
    let v = obj(vec![
        ("__cHei", int_val(1)),
        ("__cWid", int_val(1)),
        ("__gridSize", int_val(16)),
        ("__identifier", text("L")),
        ("__opacity", float(1.0)),
        ("__pxTotalOffsetX", int_val(0)),
        ("__pxTotalOffsetY", int_val(0)),
        ("__tilesetDefUid", JsonValue::Null),
        ("__tilesetRelPath", JsonValue::Null),
        ("__type", text("Bogus")),
        ("autoLayerTiles", JsonValue::Arr(vec![])),
        ("entityInstances", JsonValue::Arr(vec![])),
        ("gridTiles", JsonValue::Arr(vec![])),
        ("iid", text("i")),
        ("intGridCsv", JsonValue::Arr(vec![])),
        ("layerDefUid", int_val(0)),
        ("levelId", int_val(0)),
        ("overrideTilesetUid", JsonValue::Null),
        ("pxOffsetX", int_val(0)),
        ("pxOffsetY", int_val(0)),
        ("visible", JsonValue::Bool(true)),
    ]);
    assert_eq!(
        LayerInstance::decode(&v),
        Err(DecodeError::WrongShape(
            "__type".to_owned(),
            "layer type".to_owned(),
            "Bogus".to_owned()
        ))
    );
}

#[test]
fn array_element_error_aborts_the_array() {
    assert_eq!(
        field_value_err("Array<Int>", JsonValue::Arr(vec![int_val(1), JsonValue::Null])),
        DecodeError::TypeMismatch("value".to_owned(), "null".to_owned())
    );
}

fn field_value_err(ty: &str, value: JsonValue) -> DecodeError {
    let entries = vec![
        ("defUid".to_owned(), int_val(1)),
        ("__identifier".to_owned(), text("f")),
        ("__tile".to_owned(), JsonValue::Null),
        ("__type".to_owned(), text(ty)),
        ("__value".to_owned(), value),
    ];
    FieldInstance::decode_entries(&entries).unwrap_err()
}
