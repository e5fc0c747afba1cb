use ldtk_decode::decode::Decode;
use ldtk_decode::color::LdtkColor;
use ldtk_decode::error::DecodeError;
use ldtk_decode::field::FieldValue;
use ldtk_decode::json::{FloatBits, JsonNum, JsonValue, Nullable};
use ldtk_decode::level::{EntityInstance, Level, Neighbour};

fn int_val(n: i64) -> JsonValue {
    JsonValue::Num(JsonNum {
        int_val: Some(n),
        float_bits: (n as f32).to_bits(),
    })
}

fn float(x: f32) -> JsonValue {
    JsonValue::Num(JsonNum {
        int_val: None,
        float_bits: x.to_bits(),
    })
}

fn text(s: &str) -> JsonValue {
    JsonValue::Str(s.to_owned())
}

fn obj(entries: Vec<(&str, JsonValue)>) -> JsonValue {
    JsonValue::Obj(entries.into_iter().map(|(k, v)| (k.to_owned(), v)).collect())
}

fn sample_field() -> JsonValue {
    obj(vec![
        ("defUid", int_val(1)),
        ("__identifier", text("hp")),
        ("__tile", JsonValue::Null),
        ("__type", text("Int")),
        ("__value", int_val(10)),
    ])
}

fn sample_entity() -> JsonValue {
    obj(vec![
        ("__grid", JsonValue::Arr(vec![int_val(1), int_val(2)])),
        ("__identifier", text("Player")),
        ("__pivot", JsonValue::Arr(vec![float(0.5), float(1.0)])),
        ("__smartColor", text("#ffcc00")),
        ("__tags", JsonValue::Arr(vec![text("actor"), text("hero")])),
        ("__tile", JsonValue::Null),
        ("__worldX", int_val(100)),
        ("__worldY", int_val(200)),
        ("defUid", int_val(12)),
        ("fieldInstances", JsonValue::Arr(vec![sample_field()])),
        ("iid", text("entity-iid")),
        ("px", JsonValue::Arr(vec![int_val(16), int_val(32)])),
        ("width", int_val(16)),
        ("height", int_val(16)),
    ])
}

fn sample_layer() -> JsonValue {
    obj(vec![
        ("__cHei", int_val(1)),
        ("__cWid", int_val(1)),
        ("__gridSize", int_val(16)),
        ("__identifier", text("Entities")),
        ("__opacity", float(1.0)),
        ("__pxTotalOffsetX", int_val(0)),
        ("__pxTotalOffsetY", int_val(0)),
        ("__tilesetDefUid", JsonValue::Null),
        ("__tilesetRelPath", JsonValue::Null),
        ("__type", text("Entities")),
        ("autoLayerTiles", JsonValue::Arr(vec![])),
        ("entityInstances", JsonValue::Arr(vec![sample_entity()])),
        ("gridTiles", JsonValue::Arr(vec![])),
        ("iid", text("layer-iid")),
        ("intGridCsv", JsonValue::Arr(vec![])),
        ("layerDefUid", int_val(3)),
        ("levelId", int_val(7)),
        ("overrideTilesetUid", JsonValue::Null),
        ("pxOffsetX", int_val(0)),
        ("pxOffsetY", int_val(0)),
        ("visible", JsonValue::Bool(true)),
    ])
}

fn sample_level() -> JsonValue {
    obj(vec![
        ("__bgColor", text("#102030")),
        ("__bgPos", JsonValue::Null),
        (
            "__neighbours",
            JsonValue::Arr(vec![obj(vec![
                ("dir", text("n")),
                ("levelIid", text("other-level")),
            ])]),
        ),
        ("bgRelPath", JsonValue::Null),
        ("externalRelPath", JsonValue::Null),
        ("fieldInstances", JsonValue::Arr(vec![])),
        ("identifier", text("Level_0")),
        ("iid", text("level-iid")),
        ("layerInstances", JsonValue::Arr(vec![sample_layer()])),
        ("pxHei", int_val(256)),
        ("pxWid", int_val(256)),
        ("uid", int_val(7)),
        ("worldDepth", int_val(0)),
        ("worldX", int_val(-1)),
        ("worldY", int_val(-1)),
    ])
}

#[test]
fn entity_instance_decodes() {
    let e = EntityInstance::decode(&sample_entity()).unwrap();
    assert_eq!(e.identifier, "Player".to_owned());
    assert_eq!(e.grid, (1, 2));
    assert_eq!(e.pivot, (FloatBits(0.5f32.to_bits()), FloatBits(1.0f32.to_bits())));
    assert_eq!(e.tags, vec!["actor".to_owned(), "hero".to_owned()]);
    assert_eq!(e.tile, Nullable::Null);
    assert_eq!(e.field_instances.len(), 1);
    assert_eq!(
        e.field_instances[0].value,
        Nullable::Data(FieldValue::Integer(10))
    );
    assert_eq!(e.local_pos, (16, 32));
}

#[test]
fn level_decodes_end_to_end() {
    let level = Level::decode(&sample_level()).unwrap();
    assert_eq!(
        level.bg_color,
        LdtkColor {
            r: 0x10,
            g: 0x20,
            b: 0x30
        }
    );
    assert_eq!(level.bg_pos, Nullable::Null);
    assert_eq!(
        level.neighbours,
        vec![Neighbour {
            dir: "n".to_owned(),
            level_iid: "other-level".to_owned()
        }]
    );
    assert_eq!(level.identifier, "Level_0".to_owned());
    assert_eq!(level.px_wid, 256);
    assert_eq!(level.world_x, -1);
    assert_eq!(level.layer_instances.len(), 1);
    let layer = &level.layer_instances[0];
    assert_eq!(layer.entity_instances.len(), 1);
    assert_eq!(layer.entity_instances[0].def_uid, 12);
}

#[test]
fn level_with_malformed_color_fails() {
    let v = obj(vec![("__bgColor", text("oops"))]);
    assert_eq!(
        Level::decode(&v),
        Err(DecodeError::MalformedColor("oops".to_owned()))
    );
}

#[test]
fn level_of_wrong_shape_fails() {
    assert_eq!(
        Level::decode(&int_val(3)),
        Err(DecodeError::WrongShape(
            "".to_owned(),
            "level".to_owned(),
            "number".to_owned()
        ))
    );
}

#[test]
fn level_encode_decode_round_trip() {
    // A decoded field instance no longer carries its type tag (the value is
    // already typed), so a document with field instances does not round-trip
    // textually; one without them does.
    let mut level = Level::decode(&sample_level()).unwrap();
    level.layer_instances[0].entity_instances[0]
        .field_instances
        .clear();
    let mut expected = Level::decode(&sample_level()).unwrap();
    expected.layer_instances[0].entity_instances[0]
        .field_instances
        .clear();
    let encoded = ldtk_decode::decode::Encode::encode(&level);
    assert_eq!(Level::decode(&encoded), Ok(expected));
}

#[test]
fn structural_errors_carry_the_key_path() {
    let mut layer = sample_layer();
    if let JsonValue::Obj(entries) = &mut layer {
        for entry in entries.iter_mut() {
            if entry.0 == "pxOffsetX" {
                entry.1 = text("zero");
            }
        }
    }
    let v = obj(vec![
        ("__bgColor", text("#102030")),
        ("__bgPos", JsonValue::Null),
        ("__neighbours", JsonValue::Arr(vec![])),
        ("bgRelPath", JsonValue::Null),
        ("externalRelPath", JsonValue::Null),
        ("fieldInstances", JsonValue::Arr(vec![])),
        ("identifier", text("Level_0")),
        ("iid", text("level-iid")),
        ("layerInstances", JsonValue::Arr(vec![layer])),
        ("pxHei", int_val(256)),
        ("pxWid", int_val(256)),
        ("uid", int_val(7)),
        ("worldDepth", int_val(0)),
        ("worldX", int_val(-1)),
        ("worldY", int_val(-1)),
    ]);
    assert_eq!(
        Level::decode(&v),
        Err(DecodeError::WrongShape(
            "layerInstances/pxOffsetX".to_owned(),
            "integer".to_owned(),
            "string".to_owned()
        ))
    );
}
