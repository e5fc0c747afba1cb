//! Dynamically typed fields: the type-tag grammar normalizer, the field
//! value union, and the two-phase field-instance decoder.

use vstd::prelude::*;

use crate::color::{spec_parse_color, LdtkColor};
use crate::decode::{decode_field, shape_name, spec_field, spec_shape_name, Decode, Encode};
use crate::defs::TilesetRect;
use crate::error::{res_view, DecodeError, ErrView};
use crate::json::{
    entries_view, jsons_view, vec_view, FloatBits, JsonNum, JsonValue, JsonView, Nullable,
};

verus! {

use vstd::string::StringExecFns;

broadcast use {vstd::seq::axiom_seq_index_decreases, vstd::std_specs::vec::axiom_vec_decreases_to_view};

/// The semantic kind a type-tag token normalizes to.
#[derive(Clone, Copy, PartialEq, Eq, Structural, Debug)]
pub enum FieldType {
    Int,
    Float,
    Bool,
    String,
    Multilines,
    FilePath,
    LocalEnum,
    ExternEnum,
    Color,
    Point,
    EntityRef,
    Array,
}

impl View for FieldType {
    type V = FieldType;

    open spec fn view(&self) -> FieldType {
        *self
    }
}

/// What a type-tag token normalizes to. Parametric tags carry their payload
/// (the referenced enum's name, the array's element type) inside the token;
/// the prefix alone decides the kind and the payload is discarded. The
/// prefix rules come first; the remaining names must match exactly; anything
/// else is `UnknownFieldType`.
pub open spec fn spec_parse_field_type(s: Seq<char>) -> Result<FieldType, ErrView> {
    if crate::json::spec_starts_with(s, "LocalEnum"@) {
        Ok(FieldType::LocalEnum)
    } else if crate::json::spec_starts_with(s, "ExternEnum"@) {
        Ok(FieldType::ExternEnum)
    } else if crate::json::spec_starts_with(s, "Array"@) {
        Ok(FieldType::Array)
    } else if s == "Int"@ {
        Ok(FieldType::Int)
    } else if s == "Float"@ {
        Ok(FieldType::Float)
    } else if s == "Bool"@ {
        Ok(FieldType::Bool)
    } else if s == "String"@ {
        Ok(FieldType::String)
    } else if s == "Multilines"@ {
        Ok(FieldType::Multilines)
    } else if s == "FilePath"@ {
        Ok(FieldType::FilePath)
    } else if s == "Color"@ {
        Ok(FieldType::Color)
    } else if s == "Point"@ {
        Ok(FieldType::Point)
    } else if s == "EntityRef"@ {
        Ok(FieldType::EntityRef)
    } else {
        Err(ErrView::UnknownFieldType(s))
    }
}

impl FieldType {
    /// Normalize a raw type-tag token to its semantic kind.
    pub fn parse(s: &str) -> (r: Result<FieldType, DecodeError>)
        ensures
            res_view(r) == spec_parse_field_type(s@),
    {
        if crate::json::str_starts_with(s, "LocalEnum") {
            Ok(FieldType::LocalEnum)
        } else if crate::json::str_starts_with(s, "ExternEnum") {
            Ok(FieldType::ExternEnum)
        } else if crate::json::str_starts_with(s, "Array") {
            Ok(FieldType::Array)
        } else if crate::json::str_eq(s, "Int") {
            Ok(FieldType::Int)
        } else if crate::json::str_eq(s, "Float") {
            Ok(FieldType::Float)
        } else if crate::json::str_eq(s, "Bool") {
            Ok(FieldType::Bool)
        } else if crate::json::str_eq(s, "String") {
            Ok(FieldType::String)
        } else if crate::json::str_eq(s, "Multilines") {
            Ok(FieldType::Multilines)
        } else if crate::json::str_eq(s, "FilePath") {
            Ok(FieldType::FilePath)
        } else if crate::json::str_eq(s, "Color") {
            Ok(FieldType::Color)
        } else if crate::json::str_eq(s, "Point") {
            Ok(FieldType::Point)
        } else if crate::json::str_eq(s, "EntityRef") {
            Ok(FieldType::EntityRef)
        } else {
            Err(DecodeError::UnknownFieldType(s.to_owned()))
        }
    }
}

/// The logical key a field-instance object entry falls under. Unrecognized
/// keys — the historical editor-only `realEditorValues` among them — are
/// discarded without error, an explicit outcome rather than a failure, so
/// that forward-compatible documents still decode.
#[derive(Clone, Copy, PartialEq, Eq, Structural, Debug)]
pub enum FieldInstanceFields {
    DefUid,
    Identifier,
    Tile,
    Type,
    Value,
    Skip,
}

/// Which logical key a field-instance object key is.
pub open spec fn spec_classify_key(k: Seq<char>) -> FieldInstanceFields {
    if k == "defUid"@ {
        FieldInstanceFields::DefUid
    } else if k == "__identifier"@ {
        FieldInstanceFields::Identifier
    } else if k == "__tile"@ {
        FieldInstanceFields::Tile
    } else if k == "__type"@ {
        FieldInstanceFields::Type
    } else if k == "__value"@ {
        FieldInstanceFields::Value
    } else {
        FieldInstanceFields::Skip
    }
}

impl FieldInstanceFields {
    /// Classify one object key.
    pub fn classify(k: &str) -> (r: FieldInstanceFields)
        ensures
            r == spec_classify_key(k@),
    {
        if crate::json::str_eq(k, "defUid") {
            FieldInstanceFields::DefUid
        } else if crate::json::str_eq(k, "__identifier") {
            FieldInstanceFields::Identifier
        } else if crate::json::str_eq(k, "__tile") {
            FieldInstanceFields::Tile
        } else if crate::json::str_eq(k, "__type") {
            FieldInstanceFields::Type
        } else if crate::json::str_eq(k, "__value") {
            FieldInstanceFields::Value
        } else {
            FieldInstanceFields::Skip
        }
    }
}

/// A reference to one variant of a named enum.
#[derive(Clone, PartialEq, Eq, Debug)]
pub struct LdtkEnum {
    pub name: String,
    pub variant: String,
}

/// The model of an [`LdtkEnum`].
pub struct LdtkEnumView {
    pub name: Seq<char>,
    pub variant: Seq<char>,
}

impl View for LdtkEnum {
    type V = LdtkEnumView;

    open spec fn view(&self) -> LdtkEnumView {
        LdtkEnumView { name: self.name@, variant: self.variant@ }
    }
}

impl Decode for LdtkEnum {
    open spec fn spec_decode(v: JsonView) -> Result<LdtkEnumView, ErrView> {
        match v {
            JsonView::Obj(entries) => {
                let name = spec_field::<String>(entries, "name"@);
                let variant = spec_field::<String>(entries, "variant"@);
                if name is Err {
                    Err(name->Err_0)
                } else if variant is Err {
                    Err(variant->Err_0)
                } else {
                    Ok(LdtkEnumView { name: name->Ok_0, variant: variant->Ok_0 })
                }
            },
            _ => Err(ErrView::WrongShape(Seq::<char>::empty(), "enum reference"@, spec_shape_name(v))),
        }
    }

    fn decode(v: &JsonValue) -> (r: Result<LdtkEnum, DecodeError>) {
        match v {
            JsonValue::Obj(entries) => {
                proof {
                    crate::json::lemma_obj_view(*v);
                }
                let name = match decode_field::<String>(entries, "name") {
                    Ok(s) => s,
                    Err(e) => {
                        return Err(e);
                    },
                };
                let variant = match decode_field::<String>(entries, "variant") {
                    Ok(s) => s,
                    Err(e) => {
                        return Err(e);
                    },
                };
                Ok(LdtkEnum { name, variant })
            },
            _ => Err(
                DecodeError::WrongShape(String::new(), String::from_str("enum reference"), shape_name(v)),
            ),
        }
    }
}

/// A grid-based coordinate pair.
#[derive(Clone, Copy, PartialEq, Eq, Structural, Debug)]
pub struct GridPoint {
    pub cx: i32,
    pub cy: i32,
}

impl View for GridPoint {
    type V = GridPoint;

    open spec fn view(&self) -> GridPoint {
        *self
    }
}

impl Decode for GridPoint {
    open spec fn spec_decode(v: JsonView) -> Result<GridPoint, ErrView> {
        match v {
            JsonView::Obj(entries) => {
                let cx = spec_field::<i32>(entries, "cx"@);
                let cy = spec_field::<i32>(entries, "cy"@);
                if cx is Err {
                    Err(cx->Err_0)
                } else if cy is Err {
                    Err(cy->Err_0)
                } else {
                    Ok(GridPoint { cx: cx->Ok_0, cy: cy->Ok_0 })
                }
            },
            _ => Err(ErrView::WrongShape(Seq::<char>::empty(), "grid point"@, spec_shape_name(v))),
        }
    }

    fn decode(v: &JsonValue) -> (r: Result<GridPoint, DecodeError>) {
        match v {
            JsonValue::Obj(entries) => {
                proof {
                    crate::json::lemma_obj_view(*v);
                }
                let cx = match decode_field::<i32>(entries, "cx") {
                    Ok(n) => n,
                    Err(e) => {
                        return Err(e);
                    },
                };
                let cy = match decode_field::<i32>(entries, "cy") {
                    Ok(n) => n,
                    Err(e) => {
                        return Err(e);
                    },
                };
                Ok(GridPoint { cx, cy })
            },
            _ => Err(DecodeError::WrongShape(String::new(), String::from_str("grid point"), shape_name(v))),
        }
    }
}

/// A reference to an entity instance elsewhere in the document.
#[derive(Clone, PartialEq, Eq, Debug)]
pub struct EntityRef {
    pub entity_iid: String,
    pub layer_iid: String,
    pub level_iid: String,
    pub world_iid: String,
}

/// The model of an [`EntityRef`].
pub struct EntityRefView {
    pub entity_iid: Seq<char>,
    pub layer_iid: Seq<char>,
    pub level_iid: Seq<char>,
    pub world_iid: Seq<char>,
}

impl View for EntityRef {
    type V = EntityRefView;

    open spec fn view(&self) -> EntityRefView {
        EntityRefView {
            entity_iid: self.entity_iid@,
            layer_iid: self.layer_iid@,
            level_iid: self.level_iid@,
            world_iid: self.world_iid@,
        }
    }
}

impl Decode for EntityRef {
    open spec fn spec_decode(v: JsonView) -> Result<EntityRefView, ErrView> {
        match v {
            JsonView::Obj(entries) => {
                let entity = spec_field::<String>(entries, "entityIid"@);
                let layer = spec_field::<String>(entries, "layerIid"@);
                let level = spec_field::<String>(entries, "levelIid"@);
                let world = spec_field::<String>(entries, "worldIid"@);
                if entity is Err {
                    Err(entity->Err_0)
                } else if layer is Err {
                    Err(layer->Err_0)
                } else if level is Err {
                    Err(level->Err_0)
                } else if world is Err {
                    Err(world->Err_0)
                } else {
                    Ok(
                        EntityRefView {
                            entity_iid: entity->Ok_0,
                            layer_iid: layer->Ok_0,
                            level_iid: level->Ok_0,
                            world_iid: world->Ok_0,
                        },
                    )
                }
            },
            _ => Err(ErrView::WrongShape(Seq::<char>::empty(), "entity reference"@, spec_shape_name(v))),
        }
    }

    fn decode(v: &JsonValue) -> (r: Result<EntityRef, DecodeError>) {
        match v {
            JsonValue::Obj(entries) => {
                proof {
                    crate::json::lemma_obj_view(*v);
                }
                let entity_iid = match decode_field::<String>(entries, "entityIid") {
                    Ok(s) => s,
                    Err(e) => {
                        return Err(e);
                    },
                };
                let layer_iid = match decode_field::<String>(entries, "layerIid") {
                    Ok(s) => s,
                    Err(e) => {
                        return Err(e);
                    },
                };
                let level_iid = match decode_field::<String>(entries, "levelIid") {
                    Ok(s) => s,
                    Err(e) => {
                        return Err(e);
                    },
                };
                let world_iid = match decode_field::<String>(entries, "worldIid") {
                    Ok(s) => s,
                    Err(e) => {
                        return Err(e);
                    },
                };
                Ok(EntityRef { entity_iid, layer_iid, level_iid, world_iid })
            },
            _ => Err(
                DecodeError::WrongShape(String::new(), String::from_str("entity reference"), shape_name(v)),
            ),
        }
    }
}


/// The decoded value of a field: one variant per semantic kind. Plain
/// string, multiline string and file-path string all hold text and differ
/// only in their tag, because the source type tag distinguished them and
/// consumers branch on it.
#[derive(PartialEq, Eq, Debug)]
pub enum FieldValue {
    Integer(i32),
    Float(FloatBits),
    Bool(bool),
    String(String),
    Multilines(String),
    FilePath(String),
    LocalEnum(LdtkEnum),
    ExternEnum(LdtkEnum),
    Color(LdtkColor),
    Point(GridPoint),
    EntityRef(EntityRef),
    Array(Vec<FieldValue>),
}

/// The model of a [`FieldValue`].
pub enum FieldValueView {
    Integer(i32),
    Float(FloatBits),
    Bool(bool),
    String(Seq<char>),
    Multilines(Seq<char>),
    FilePath(Seq<char>),
    LocalEnum(LdtkEnumView),
    ExternEnum(LdtkEnumView),
    Color(LdtkColor),
    Point(GridPoint),
    EntityRef(EntityRefView),
    Array(Seq<FieldValueView>),
}

/// The model of one field value, element views taken recursively.
pub open spec fn field_value_view(v: FieldValue) -> FieldValueView
    decreases v,
{
    match v {
        FieldValue::Integer(n) => FieldValueView::Integer(n),
        FieldValue::Float(b) => FieldValueView::Float(b),
        FieldValue::Bool(b) => FieldValueView::Bool(b),
        FieldValue::String(s) => FieldValueView::String(s@),
        FieldValue::Multilines(s) => FieldValueView::Multilines(s@),
        FieldValue::FilePath(s) => FieldValueView::FilePath(s@),
        FieldValue::LocalEnum(e) => FieldValueView::LocalEnum(e@),
        FieldValue::ExternEnum(e) => FieldValueView::ExternEnum(e@),
        FieldValue::Color(c) => FieldValueView::Color(c),
        FieldValue::Point(p) => FieldValueView::Point(p),
        FieldValue::EntityRef(er) => FieldValueView::EntityRef(er@),
        FieldValue::Array(items) => FieldValueView::Array(
            Seq::new(
                items@.len(),
                |i: int|
                    if 0 <= i < items@.len() {
                        field_value_view(items@[i])
                    } else {
                        FieldValueView::Bool(false)
                    },
            ),
        ),
    }
}

impl View for FieldValue {
    type V = FieldValueView;

    open spec fn view(&self) -> FieldValueView {
        field_value_view(*self)
    }
}

/// An array value's view holds exactly the element views.
pub broadcast proof fn lemma_field_array_view(v: FieldValue)
    ensures
        v is Array ==> (#[trigger] v@) == FieldValueView::Array(vec_view(v->Array_0)),
{
    if v is Array {
        let items = v->Array_0;
        assert forall|i: int| 0 <= i < items@.len() implies v@->Array_0[i] == vec_view(items)[i] by {
        }
        assert(v@->Array_0 =~= vec_view(items));
    }
}

/// What a value decodes to when no type tag constrains it, as array elements
/// are decoded: by shape alone. A number is an integer when it is one and
/// within range, else a float; an object is tried as an enum reference, then
/// a grid point, then an entity reference.
pub open spec fn spec_decode_untagged(v: JsonView) -> Result<FieldValueView, ErrView>
    decreases v,
{
    match v {
        JsonView::Null => Err(ErrView::TypeMismatch("value"@, "null"@)),
        JsonView::Bool(b) => Ok(FieldValueView::Bool(b)),
        JsonView::Num(n) => match n.int_val {
            Some(x) => if i32::MIN <= x <= i32::MAX {
                Ok(FieldValueView::Integer(x as i32))
            } else {
                Ok(FieldValueView::Float(FloatBits(n.float_bits)))
            },
            None => Ok(FieldValueView::Float(FloatBits(n.float_bits))),
        },
        JsonView::Str(s) => Ok(FieldValueView::String(s)),
        JsonView::Arr(items) => match spec_untagged_seq(items) {
            Ok(vs) => Ok(FieldValueView::Array(vs)),
            Err(e) => Err(e),
        },
        JsonView::Obj(_) => match LdtkEnum::spec_decode(v) {
            Ok(e) => Ok(FieldValueView::LocalEnum(e)),
            Err(_) => match GridPoint::spec_decode(v) {
                Ok(p) => Ok(FieldValueView::Point(p)),
                Err(_) => match EntityRef::spec_decode(v) {
                    Ok(er) => Ok(FieldValueView::EntityRef(er)),
                    Err(_) => Err(ErrView::TypeMismatch("value"@, "object"@)),
                },
            },
        },
    }
}

/// Untagged decoding of a sequence; the leftmost failure aborts.
pub open spec fn spec_untagged_seq(items: Seq<JsonView>) -> Result<Seq<FieldValueView>, ErrView>
    decreases items,
{
    if items.len() == 0 {
        Ok(Seq::empty())
    } else {
        match spec_untagged_seq(items.drop_last()) {
            Err(e) => Err(e),
            Ok(init) => match spec_decode_untagged(items.last()) {
                Err(e) => Err(e),
                Ok(x) => Ok(init.push(x)),
            },
        }
    }
}

/// Once a prefix fails untagged decoding, the whole sequence fails the same
/// way.
proof fn lemma_untagged_seq_err_prefix(items: Seq<JsonView>, j: int)
    requires
        0 <= j <= items.len(),
        spec_untagged_seq(items.subrange(0, j)) is Err,
    ensures
        spec_untagged_seq(items) == spec_untagged_seq(items.subrange(0, j)),
    decreases items.len() - j,
{
    if j < items.len() {
        assert(items.subrange(0, j + 1).drop_last() =~= items.subrange(0, j));
        lemma_untagged_seq_err_prefix(items, j + 1);
    } else {
        assert(items.subrange(0, items.len() as int) =~= items);
    }
}

impl FieldValue {
    /// Decode a value by shape alone, with no type tag to constrain it.
    #[verifier::loop_isolation(false)]
    pub fn decode_untagged(v: &JsonValue) -> (r: Result<FieldValue, DecodeError>)
        ensures
            res_view(r) == spec_decode_untagged(v@),
        decreases v,
    {
        match v {
            JsonValue::Null => Err(
                DecodeError::TypeMismatch(String::from_str("value"), String::from_str("null")),
            ),
            JsonValue::Bool(b) => Ok(FieldValue::Bool(*b)),
            JsonValue::Num(n) => match n.int_val {
                Some(x) => if i32::MIN as i64 <= x && x <= i32::MAX as i64 {
                    Ok(FieldValue::Integer(x as i32))
                } else {
                    Ok(FieldValue::Float(FloatBits(n.float_bits)))
                },
                None => Ok(FieldValue::Float(FloatBits(n.float_bits))),
            },
            JsonValue::Str(s) => Ok(FieldValue::String(s.clone())),
            JsonValue::Arr(items) => {
                proof {
                    crate::json::lemma_arr_view(*v);
                }
                let ghost s = jsons_view(items@);
                let mut out: Vec<FieldValue> = Vec::new();
                let mut i: usize = 0;
                proof {
                    assert(s.subrange(0, 0) =~= Seq::<JsonView>::empty());
                    assert(vec_view(out) =~= Seq::<FieldValueView>::empty());
                }
                while i < items.len()
                    invariant
                        i <= items.len(),
                        s == jsons_view(items@),
                        s.len() == items.len(),
                        out.len() == i,
                        spec_untagged_seq(s.subrange(0, i as int)) == Ok::<_, ErrView>(
                            vec_view(out),
                        ),
                    decreases items.len() - i,
                {
                    proof {
                        assert(s.subrange(0, i + 1).drop_last() =~= s.subrange(0, i as int));
                        assert(s.subrange(0, i + 1).last() == s[i as int]);
                        assert(s[i as int] == items@[i as int]@);
                    }
                    match FieldValue::decode_untagged(&items[i]) {
                        Ok(x) => {
                            let ghost old_out_view = vec_view(out);
                            out.push(x);
                            proof {
                                assert(vec_view(out) =~= old_out_view.push(x@));
                            }
                        },
                        Err(e) => {
                            proof {
                                lemma_untagged_seq_err_prefix(s, i + 1);
                            }
                            return Err(e);
                        },
                    }
                    i += 1;
                }
                proof {
                    assert(s.subrange(0, items.len() as int) =~= s);
                    lemma_field_array_view(FieldValue::Array(out));
                }
                Ok(FieldValue::Array(out))
            },
            JsonValue::Obj(_) => match LdtkEnum::decode(v) {
                Ok(e) => Ok(FieldValue::LocalEnum(e)),
                Err(_) => match GridPoint::decode(v) {
                    Ok(p) => Ok(FieldValue::Point(p)),
                    Err(_) => match EntityRef::decode(v) {
                        Ok(er) => Ok(FieldValue::EntityRef(er)),
                        Err(_) => Err(
                            DecodeError::TypeMismatch(
                                String::from_str("value"),
                                String::from_str("object"),
                            ),
                        ),
                    },
                },
            },
        }
    }
}


/// Reinterpreting a non-null deferred value once its kind is known: each
/// kind accepts exactly the shape it names, and the string-subtype kinds
/// re-wrap the same text under their own tag.
pub open spec fn spec_typed_value(ty: FieldType, v: JsonView) -> Result<FieldValueView, ErrView> {
    match ty {
        FieldType::Int => match v {
            JsonView::Num(n) => match n.int_val {
                Some(x) => if i32::MIN <= x <= i32::MAX {
                    Ok(FieldValueView::Integer(x as i32))
                } else {
                    Err(ErrView::TypeMismatch("Int"@, "number out of range"@))
                },
                None => Err(ErrView::TypeMismatch("Int"@, "fractional number"@)),
            },
            _ => Err(ErrView::TypeMismatch("Int"@, spec_shape_name(v))),
        },
        FieldType::Float => match v {
            JsonView::Num(n) => Ok(FieldValueView::Float(FloatBits(n.float_bits))),
            _ => Err(ErrView::TypeMismatch("Float"@, spec_shape_name(v))),
        },
        FieldType::Bool => match v {
            JsonView::Bool(b) => Ok(FieldValueView::Bool(b)),
            _ => Err(ErrView::TypeMismatch("Bool"@, spec_shape_name(v))),
        },
        FieldType::String => match v {
            JsonView::Str(s) => Ok(FieldValueView::String(s)),
            _ => Err(ErrView::TypeMismatch("String"@, spec_shape_name(v))),
        },
        FieldType::Multilines => match v {
            JsonView::Str(s) => Ok(FieldValueView::Multilines(s)),
            _ => Err(ErrView::TypeMismatch("Multilines"@, spec_shape_name(v))),
        },
        FieldType::FilePath => match v {
            JsonView::Str(s) => Ok(FieldValueView::FilePath(s)),
            _ => Err(ErrView::TypeMismatch("FilePath"@, spec_shape_name(v))),
        },
        FieldType::LocalEnum => match LdtkEnum::spec_decode(v) {
            Ok(e) => Ok(FieldValueView::LocalEnum(e)),
            Err(e) => Err(e),
        },
        FieldType::ExternEnum => match LdtkEnum::spec_decode(v) {
            Ok(e) => Ok(FieldValueView::ExternEnum(e)),
            Err(e) => Err(e),
        },
        FieldType::Color => match v {
            JsonView::Str(s) => match spec_parse_color(s) {
                Some(c) => Ok(FieldValueView::Color(c)),
                None => Err(ErrView::MalformedColor(s)),
            },
            _ => Err(ErrView::TypeMismatch("Color"@, spec_shape_name(v))),
        },
        FieldType::Point => match GridPoint::spec_decode(v) {
            Ok(p) => Ok(FieldValueView::Point(p)),
            Err(e) => Err(e),
        },
        FieldType::EntityRef => match EntityRef::spec_decode(v) {
            Ok(er) => Ok(FieldValueView::EntityRef(er)),
            Err(e) => Err(e),
        },
        FieldType::Array => match v {
            JsonView::Arr(items) => match spec_untagged_seq(items) {
                Ok(vs) => Ok(FieldValueView::Array(vs)),
                Err(e) => Err(e),
            },
            _ => Err(ErrView::TypeMismatch("Array"@, spec_shape_name(v))),
        },
    }
}

/// Reinterpreting the deferred value: an absent (null) value stays absent,
/// whatever the kind; a present value must match the kind's shape.
pub open spec fn spec_reinterpret(ty: FieldType, v: JsonView) -> Result<
    Nullable<FieldValueView>,
    ErrView,
> {
    if v is Null {
        Ok(Nullable::Null)
    } else {
        match spec_typed_value(ty, v) {
            Ok(x) => Ok(Nullable::Data(x)),
            Err(e) => Err(e),
        }
    }
}

impl FieldValue {
    /// Reinterpret a deferred value according to its resolved kind.
    pub fn decode_typed(ty: FieldType, v: &JsonValue) -> (r: Result<
        Nullable<FieldValue>,
        DecodeError,
    >)
        ensures
            res_view(r) == spec_reinterpret(ty, v@),
    {
        if let JsonValue::Null = v {
            return Ok(Nullable::Null);
        }
        let typed = match ty {
            FieldType::Int => match v {
                JsonValue::Num(n) => match n.int_val {
                    Some(x) => if i32::MIN as i64 <= x && x <= i32::MAX as i64 {
                        Ok(FieldValue::Integer(x as i32))
                    } else {
                        Err(
                            DecodeError::TypeMismatch(
                                String::from_str("Int"),
                                String::from_str("number out of range"),
                            ),
                        )
                    },
                    None => Err(
                        DecodeError::TypeMismatch(
                            String::from_str("Int"),
                            String::from_str("fractional number"),
                        ),
                    ),
                },
                _ => Err(DecodeError::TypeMismatch(String::from_str("Int"), shape_name(v))),
            },
            FieldType::Float => match v {
                JsonValue::Num(n) => Ok(FieldValue::Float(FloatBits(n.float_bits))),
                _ => Err(DecodeError::TypeMismatch(String::from_str("Float"), shape_name(v))),
            },
            FieldType::Bool => match v {
                JsonValue::Bool(b) => Ok(FieldValue::Bool(*b)),
                _ => Err(DecodeError::TypeMismatch(String::from_str("Bool"), shape_name(v))),
            },
            FieldType::String => match v {
                JsonValue::Str(s) => Ok(FieldValue::String(s.clone())),
                _ => Err(DecodeError::TypeMismatch(String::from_str("String"), shape_name(v))),
            },
            FieldType::Multilines => match v {
                JsonValue::Str(s) => Ok(FieldValue::Multilines(s.clone())),
                _ => Err(
                    DecodeError::TypeMismatch(String::from_str("Multilines"), shape_name(v)),
                ),
            },
            FieldType::FilePath => match v {
                JsonValue::Str(s) => Ok(FieldValue::FilePath(s.clone())),
                _ => Err(
                    DecodeError::TypeMismatch(String::from_str("FilePath"), shape_name(v)),
                ),
            },
            FieldType::LocalEnum => match LdtkEnum::decode(v) {
                Ok(e) => Ok(FieldValue::LocalEnum(e)),
                Err(e) => Err(e),
            },
            FieldType::ExternEnum => match LdtkEnum::decode(v) {
                Ok(e) => Ok(FieldValue::ExternEnum(e)),
                Err(e) => Err(e),
            },
            FieldType::Color => match v {
                JsonValue::Str(s) => match LdtkColor::parse(s.as_str()) {
                    Ok(c) => Ok(FieldValue::Color(c)),
                    Err(e) => Err(e),
                },
                _ => Err(DecodeError::TypeMismatch(String::from_str("Color"), shape_name(v))),
            },
            FieldType::Point => match GridPoint::decode(v) {
                Ok(p) => Ok(FieldValue::Point(p)),
                Err(e) => Err(e),
            },
            FieldType::EntityRef => match EntityRef::decode(v) {
                Ok(er) => Ok(FieldValue::EntityRef(er)),
                Err(e) => Err(e),
            },
            FieldType::Array => match v {
                JsonValue::Arr(_) => match FieldValue::decode_untagged(v) {
                    Ok(fv) => Ok(fv),
                    Err(e) => Err(e),
                },
                _ => Err(DecodeError::TypeMismatch(String::from_str("Array"), shape_name(v))),
            },
        };
        match typed {
            Ok(x) => Ok(Nullable::Data(x)),
            Err(e) => Err(e),
        }
    }
}


/// The wire form of a field value: untagged, indistinguishable from the
/// primitive shape it corresponds to. The three string-subtype variants all
/// encode as plain text, which is why decoding them back needs the type tag.
pub open spec fn spec_encode_field_value(v: FieldValueView) -> JsonView
    decreases v,
{
    match v {
        FieldValueView::Integer(n) => JsonView::Num(
            JsonNum { int_val: Some(n as i64), float_bits: 0 },
        ),
        FieldValueView::Float(b) => JsonView::Num(JsonNum { int_val: None, float_bits: b.0 }),
        FieldValueView::Bool(b) => JsonView::Bool(b),
        FieldValueView::String(s) => JsonView::Str(s),
        FieldValueView::Multilines(s) => JsonView::Str(s),
        FieldValueView::FilePath(s) => JsonView::Str(s),
        FieldValueView::LocalEnum(e) => JsonView::Obj(
            seq![("name"@, JsonView::Str(e.name)), ("variant"@, JsonView::Str(e.variant))],
        ),
        FieldValueView::ExternEnum(e) => JsonView::Obj(
            seq![("name"@, JsonView::Str(e.name)), ("variant"@, JsonView::Str(e.variant))],
        ),
        FieldValueView::Color(c) => JsonView::Str(crate::color::spec_encode_color(c)),
        FieldValueView::Point(p) => JsonView::Obj(
            seq![
                ("cx"@, JsonView::Num(JsonNum { int_val: Some(p.cx as i64), float_bits: 0 })),
                ("cy"@, JsonView::Num(JsonNum { int_val: Some(p.cy as i64), float_bits: 0 })),
            ],
        ),
        FieldValueView::EntityRef(er) => JsonView::Obj(
            seq![
                ("entityIid"@, JsonView::Str(er.entity_iid)),
                ("layerIid"@, JsonView::Str(er.layer_iid)),
                ("levelIid"@, JsonView::Str(er.level_iid)),
                ("worldIid"@, JsonView::Str(er.world_iid)),
            ],
        ),
        FieldValueView::Array(items) => JsonView::Arr(
            Seq::new(
                items.len(),
                |i: int|
                    if 0 <= i < items.len() {
                        spec_encode_field_value(items[i])
                    } else {
                        JsonView::Null
                    },
            ),
        ),
    }
}

impl FieldValue {
    /// Encode to the untagged wire form.
    #[verifier::loop_isolation(false)]
    pub fn encode(&self) -> (r: JsonValue)
        ensures
            r@ == spec_encode_field_value(self@),
        decreases self,
    {
        match self {
            FieldValue::Integer(n) => JsonValue::Num(
                JsonNum { int_val: Some(*n as i64), float_bits: 0 },
            ),
            FieldValue::Float(b) => JsonValue::Num(JsonNum { int_val: None, float_bits: b.0 }),
            FieldValue::Bool(b) => JsonValue::Bool(*b),
            FieldValue::String(s) => JsonValue::Str(s.clone()),
            FieldValue::Multilines(s) => JsonValue::Str(s.clone()),
            FieldValue::FilePath(s) => JsonValue::Str(s.clone()),
            FieldValue::LocalEnum(e) => {
                let mut entries: Vec<(String, JsonValue)> = Vec::new();
                entries.push((String::from_str("name"), JsonValue::Str(e.name.clone())));
                entries.push((String::from_str("variant"), JsonValue::Str(e.variant.clone())));
                let r = JsonValue::Obj(entries);
                proof {
                    crate::json::lemma_obj_view(r);
                    assert(entries_view(r->Obj_0@) =~= spec_encode_field_value(self@)->Obj_0);
                }
                r
            },
            FieldValue::ExternEnum(e) => {
                let mut entries: Vec<(String, JsonValue)> = Vec::new();
                entries.push((String::from_str("name"), JsonValue::Str(e.name.clone())));
                entries.push((String::from_str("variant"), JsonValue::Str(e.variant.clone())));
                let r = JsonValue::Obj(entries);
                proof {
                    crate::json::lemma_obj_view(r);
                    assert(entries_view(r->Obj_0@) =~= spec_encode_field_value(self@)->Obj_0);
                }
                r
            },
            FieldValue::Color(c) => JsonValue::Str(c.encode()),
            FieldValue::Point(p) => {
                let mut entries: Vec<(String, JsonValue)> = Vec::new();
                entries.push(
                    (
                        String::from_str("cx"),
                        JsonValue::Num(JsonNum { int_val: Some(p.cx as i64), float_bits: 0 }),
                    ),
                );
                entries.push(
                    (
                        String::from_str("cy"),
                        JsonValue::Num(JsonNum { int_val: Some(p.cy as i64), float_bits: 0 }),
                    ),
                );
                let r = JsonValue::Obj(entries);
                proof {
                    crate::json::lemma_obj_view(r);
                    assert(entries_view(r->Obj_0@) =~= spec_encode_field_value(self@)->Obj_0);
                }
                r
            },
            FieldValue::EntityRef(er) => {
                let mut entries: Vec<(String, JsonValue)> = Vec::new();
                entries.push(
                    (String::from_str("entityIid"), JsonValue::Str(er.entity_iid.clone())),
                );
                entries.push(
                    (String::from_str("layerIid"), JsonValue::Str(er.layer_iid.clone())),
                );
                entries.push(
                    (String::from_str("levelIid"), JsonValue::Str(er.level_iid.clone())),
                );
                entries.push(
                    (String::from_str("worldIid"), JsonValue::Str(er.world_iid.clone())),
                );
                let r = JsonValue::Obj(entries);
                proof {
                    crate::json::lemma_obj_view(r);
                    assert(entries_view(r->Obj_0@) =~= spec_encode_field_value(self@)->Obj_0);
                }
                r
            },
            FieldValue::Array(items) => {
                let mut out: Vec<JsonValue> = Vec::new();
                let mut i: usize = 0;
                while i < items.len()
                    invariant
                        i <= items.len(),
                        out.len() == i,
                        forall|j: int|
                            0 <= j < i ==> out@[j]@ == spec_encode_field_value(items@[j]@),
                    decreases items.len() - i,
                {
                    let encoded = items[i].encode();
                    out.push(encoded);
                    i += 1;
                }
                let r = JsonValue::Arr(out);
                proof {
                    crate::json::lemma_arr_view(r);
                    lemma_field_array_view(*self);
                    assert(jsons_view(r->Arr_0@) =~= spec_encode_field_value(self@)->Arr_0);
                }
                r
            },
        }
    }
}


/// One named, dynamically-typed value attached to an entity or level. The
/// decoded `value`, when present, matches the semantic kind resolved from
/// the type tag: the pairing is enforced once at decode time, so consumers
/// may assume it.
#[derive(PartialEq, Eq, Debug)]
pub struct FieldInstance {
    pub def_uid: i32,
    pub identifier: String,
    pub tile: Nullable<TilesetRect>,
    pub value: Nullable<FieldValue>,
}

/// The model of a [`FieldInstance`].
pub struct FieldInstanceView {
    pub def_uid: i32,
    pub identifier: Seq<char>,
    pub tile: Nullable<TilesetRect>,
    pub value: Nullable<FieldValueView>,
}

impl View for FieldInstance {
    type V = FieldInstanceView;

    open spec fn view(&self) -> FieldInstanceView {
        FieldInstanceView {
            def_uid: self.def_uid,
            identifier: self.identifier@,
            tile: self.tile@,
            value: self.value@,
        }
    }
}

/// The raw values collected in the first decode phase, one slot per
/// recognized key, each still uninterpreted.
pub struct RawFields {
    pub def_uid: Option<JsonView>,
    pub identifier: Option<JsonView>,
    pub tile: Option<JsonView>,
    pub ty: Option<JsonView>,
    pub value: Option<JsonView>,
}

/// The empty first-phase state: nothing seen yet.
pub open spec fn raw_fields_empty() -> RawFields {
    RawFields { def_uid: None, identifier: None, tile: None, ty: None, value: None }
}

/// The view of an optional borrowed slot.
pub open spec fn slot_view(o: Option<&JsonValue>) -> Option<JsonView> {
    match o {
        Some(v) => Some(v@),
        None => None,
    }
}

/// Phase one: visit the entries once, in document order, filling each
/// recognized key's slot; a second occurrence of a recognized key fails with
/// `DuplicateField` then and there; anything unrecognized is skipped.
pub open spec fn spec_collect_from(acc: RawFields, entries: Seq<(Seq<char>, JsonView)>) -> Result<
    RawFields,
    ErrView,
>
    decreases entries.len(),
{
    if entries.len() == 0 {
        Ok(acc)
    } else {
        let k = entries[0].0;
        let v = entries[0].1;
        let rest = entries.drop_first();
        match spec_classify_key(k) {
            FieldInstanceFields::DefUid => if acc.def_uid is Some {
                Err(ErrView::DuplicateField("defUid"@))
            } else {
                spec_collect_from(RawFields { def_uid: Some(v), ..acc }, rest)
            },
            FieldInstanceFields::Identifier => if acc.identifier is Some {
                Err(ErrView::DuplicateField("__identifier"@))
            } else {
                spec_collect_from(RawFields { identifier: Some(v), ..acc }, rest)
            },
            FieldInstanceFields::Tile => if acc.tile is Some {
                Err(ErrView::DuplicateField("__tile"@))
            } else {
                spec_collect_from(RawFields { tile: Some(v), ..acc }, rest)
            },
            FieldInstanceFields::Type => if acc.ty is Some {
                Err(ErrView::DuplicateField("__type"@))
            } else {
                spec_collect_from(RawFields { ty: Some(v), ..acc }, rest)
            },
            FieldInstanceFields::Value => if acc.value is Some {
                Err(ErrView::DuplicateField("__value"@))
            } else {
                spec_collect_from(RawFields { value: Some(v), ..acc }, rest)
            },
            FieldInstanceFields::Skip => spec_collect_from(acc, rest),
        }
    }
}

/// Phase two: every recognized key must have been seen, checked in a fixed
/// order; then each raw value is interpreted, the type tag is normalized,
/// and the deferred value is reinterpreted under the resolved kind.
pub open spec fn spec_phase_two(raw: RawFields) -> Result<FieldInstanceView, ErrView> {
    if raw.def_uid is None {
        Err(ErrView::MissingField("defUid"@))
    } else if raw.identifier is None {
        Err(ErrView::MissingField("__identifier"@))
    } else if raw.tile is None {
        Err(ErrView::MissingField("__tile"@))
    } else if raw.ty is None {
        Err(ErrView::MissingField("__type"@))
    } else if raw.value is None {
        Err(ErrView::MissingField("__value"@))
    } else {
        match i32::spec_decode(raw.def_uid->Some_0) {
            Err(e) => Err(crate::error::spec_nest_err("defUid"@, e)),
            Ok(def_uid) => match String::spec_decode(raw.identifier->Some_0) {
                Err(e) => Err(crate::error::spec_nest_err("__identifier"@, e)),
                Ok(identifier) => match Nullable::<TilesetRect>::spec_decode(raw.tile->Some_0) {
                    Err(e) => Err(crate::error::spec_nest_err("__tile"@, e)),
                    Ok(tile) => match raw.ty->Some_0 {
                        JsonView::Str(tag) => match spec_parse_field_type(tag) {
                            Err(e) => Err(e),
                            Ok(ty) => match spec_reinterpret(ty, raw.value->Some_0) {
                                Err(e) => Err(crate::error::spec_nest_err("__value"@, e)),
                                Ok(value) => Ok(
                                    FieldInstanceView { def_uid, identifier, tile, value },
                                ),
                            },
                        },
                        _ => Err(
                            ErrView::WrongShape(
                                "__type"@,
                                "string"@,
                                spec_shape_name(raw.ty->Some_0),
                            ),
                        ),
                    },
                },
            },
        }
    }
}

/// The whole two-phase decode of one field-instance object.
pub open spec fn spec_decode_field_instance(entries: Seq<(Seq<char>, JsonView)>) -> Result<
    FieldInstanceView,
    ErrView,
> {
    match spec_collect_from(raw_fields_empty(), entries) {
        Err(e) => Err(e),
        Ok(raw) => spec_phase_two(raw),
    }
}

impl FieldInstance {
    /// Decode one field-instance object from its key/value entries, which
    /// may arrive in any order: the raw value is held uninterpreted until
    /// the type tag is known, so the value key may precede or follow it.
    #[verifier::loop_isolation(false)]
    pub fn decode_entries(entries: &Vec<(String, JsonValue)>) -> (r: Result<
        FieldInstance,
        DecodeError,
    >)
        ensures
            res_view(r) == spec_decode_field_instance(entries_view(entries@)),
    {
        let ghost s = entries_view(entries@);
        let mut def_uid_slot: Option<&JsonValue> = None;
        let mut identifier_slot: Option<&JsonValue> = None;
        let mut tile_slot: Option<&JsonValue> = None;
        let mut ty_slot: Option<&JsonValue> = None;
        let mut value_slot: Option<&JsonValue> = None;
        let mut i: usize = 0;
        proof {
            assert(s.subrange(0, s.len() as int) =~= s);
        }
        while i < entries.len()
            invariant
                i <= entries.len(),
                spec_collect_from(raw_fields_empty(), s) == spec_collect_from(
                    RawFields {
                        def_uid: slot_view(def_uid_slot),
                        identifier: slot_view(identifier_slot),
                        tile: slot_view(tile_slot),
                        ty: slot_view(ty_slot),
                        value: slot_view(value_slot),
                    },
                    s.subrange(i as int, s.len() as int),
                ),
            decreases entries.len() - i,
        {
            let ghost rest = s.subrange(i as int, s.len() as int);
            proof {
                assert(rest[0] == s[i as int]);
                assert(s[i as int] == (entries@[i as int].0@, entries@[i as int].1@));
                assert(rest.drop_first() =~= s.subrange(i + 1, s.len() as int));
            }
            let entry_value = &entries[i].1;
            match FieldInstanceFields::classify(entries[i].0.as_str()) {
                FieldInstanceFields::DefUid => {
                    if def_uid_slot.is_some() {
                        return Err(DecodeError::DuplicateField(String::from_str("defUid")));
                    }
                    def_uid_slot = Some(entry_value);
                },
                FieldInstanceFields::Identifier => {
                    if identifier_slot.is_some() {
                        return Err(
                            DecodeError::DuplicateField(String::from_str("__identifier")),
                        );
                    }
                    identifier_slot = Some(entry_value);
                },
                FieldInstanceFields::Tile => {
                    if tile_slot.is_some() {
                        return Err(DecodeError::DuplicateField(String::from_str("__tile")));
                    }
                    tile_slot = Some(entry_value);
                },
                FieldInstanceFields::Type => {
                    if ty_slot.is_some() {
                        return Err(DecodeError::DuplicateField(String::from_str("__type")));
                    }
                    ty_slot = Some(entry_value);
                },
                FieldInstanceFields::Value => {
                    if value_slot.is_some() {
                        return Err(DecodeError::DuplicateField(String::from_str("__value")));
                    }
                    value_slot = Some(entry_value);
                },
                FieldInstanceFields::Skip => {},
            }
            i += 1;
        }
        proof {
            assert(s.subrange(entries.len() as int, s.len() as int) =~= Seq::<(
                Seq<char>,
                JsonView,
            )>::empty());
        }
        let raw_def_uid = match def_uid_slot {
            Some(v) => v,
            None => {
                return Err(DecodeError::MissingField(String::from_str("defUid")));
            },
        };
        let raw_identifier = match identifier_slot {
            Some(v) => v,
            None => {
                return Err(DecodeError::MissingField(String::from_str("__identifier")));
            },
        };
        let raw_tile = match tile_slot {
            Some(v) => v,
            None => {
                return Err(DecodeError::MissingField(String::from_str("__tile")));
            },
        };
        let raw_ty = match ty_slot {
            Some(v) => v,
            None => {
                return Err(DecodeError::MissingField(String::from_str("__type")));
            },
        };
        let raw_value = match value_slot {
            Some(v) => v,
            None => {
                return Err(DecodeError::MissingField(String::from_str("__value")));
            },
        };
        let def_uid = match i32::decode(raw_def_uid) {
            Ok(n) => n,
            Err(e) => {
                return Err(crate::error::nest_err("defUid", e));
            },
        };
        let identifier = match String::decode(raw_identifier) {
            Ok(s) => s,
            Err(e) => {
                return Err(crate::error::nest_err("__identifier", e));
            },
        };
        let tile = match Nullable::<TilesetRect>::decode(raw_tile) {
            Ok(t) => t,
            Err(e) => {
                return Err(crate::error::nest_err("__tile", e));
            },
        };
        let ty = match raw_ty {
            JsonValue::Str(tag) => match FieldType::parse(tag.as_str()) {
                Ok(t) => t,
                Err(e) => {
                    return Err(e);
                },
            },
            _ => {
                return Err(
                    DecodeError::WrongShape(
                        String::from_str("__type"),
                        String::from_str("string"),
                        shape_name(raw_ty),
                    ),
                );
            },
        };
        let value = match FieldValue::decode_typed(ty, raw_value) {
            Ok(v) => v,
            Err(e) => {
                return Err(crate::error::nest_err("__value", e));
            },
        };
        Ok(FieldInstance { def_uid, identifier, tile, value })
    }
}

impl Decode for FieldInstance {
    open spec fn spec_decode(v: JsonView) -> Result<FieldInstanceView, ErrView> {
        match v {
            JsonView::Obj(entries) => spec_decode_field_instance(entries),
            _ => Err(ErrView::WrongShape(Seq::<char>::empty(), "field instance"@, spec_shape_name(v))),
        }
    }

    fn decode(v: &JsonValue) -> (r: Result<FieldInstance, DecodeError>) {
        match v {
            JsonValue::Obj(entries) => {
                proof {
                    crate::json::lemma_obj_view(*v);
                }
                FieldInstance::decode_entries(entries)
            },
            _ => Err(
                DecodeError::WrongShape(String::new(), String::from_str("field instance"), shape_name(v)),
            ),
        }
    }
}


/// The recognized keys, as the first decode phase sees them.
pub open spec fn spec_recognized_keys() -> Seq<Seq<char>> {
    seq!["defUid"@, "__identifier"@, "__tile"@, "__type"@, "__value"@]
}

/// How often `key` would be charged against a slot that is already filled:
/// the slot's own occupancy plus the occurrences still to come.
pub open spec fn slot_load(occupied: Option<JsonView>, entries: Seq<(Seq<char>, JsonView)>, key: Seq<char>) -> int {
    (if occupied is Some {
        1int
    } else {
        0int
    }) + crate::decode::spec_count_key(entries, key)
}


/// The five recognized keys are pairwise distinct.
proof fn lemma_recognized_keys_distinct()
    ensures
        "defUid"@ != "__identifier"@,
        "defUid"@ != "__tile"@,
        "defUid"@ != "__type"@,
        "defUid"@ != "__value"@,
        "__identifier"@ != "__tile"@,
        "__identifier"@ != "__type"@,
        "__identifier"@ != "__value"@,
        "__tile"@ != "__type"@,
        "__tile"@ != "__value"@,
        "__type"@ != "__value"@,
{
    reveal_strlit("defUid");
    reveal_strlit("__identifier");
    reveal_strlit("__tile");
    reveal_strlit("__type");
    reveal_strlit("__value");
    assert("defUid"@.len() == 6);
    assert("__identifier"@.len() == 12);
    assert("__tile"@.len() == 6);
    assert("__type"@.len() == 6);
    assert("__value"@.len() == 7);
    assert("defUid"@[0] == 'd');
    assert("__tile"@[0] == '_');
    assert("__type"@[0] == '_');
    assert("__tile"@[3] == 'i');
    assert("__type"@[3] == 'y');
}

/// When no recognized key is charged twice, the first phase succeeds and
/// each slot ends up holding the first value under its key.
proof fn lemma_collect_clean(acc: RawFields, entries: Seq<(Seq<char>, JsonView)>)
    requires
        slot_load(acc.def_uid, entries, "defUid"@) <= 1,
        slot_load(acc.identifier, entries, "__identifier"@) <= 1,
        slot_load(acc.tile, entries, "__tile"@) <= 1,
        slot_load(acc.ty, entries, "__type"@) <= 1,
        slot_load(acc.value, entries, "__value"@) <= 1,
    ensures
        spec_collect_from(acc, entries) == Ok::<RawFields, ErrView>(
            RawFields {
                def_uid: if acc.def_uid is Some {
                    acc.def_uid
                } else {
                    crate::decode::spec_find_key(entries, "defUid"@)
                },
                identifier: if acc.identifier is Some {
                    acc.identifier
                } else {
                    crate::decode::spec_find_key(entries, "__identifier"@)
                },
                tile: if acc.tile is Some {
                    acc.tile
                } else {
                    crate::decode::spec_find_key(entries, "__tile"@)
                },
                ty: if acc.ty is Some {
                    acc.ty
                } else {
                    crate::decode::spec_find_key(entries, "__type"@)
                },
                value: if acc.value is Some {
                    acc.value
                } else {
                    crate::decode::spec_find_key(entries, "__value"@)
                },
            },
        ),
    decreases entries.len(),
{
    lemma_recognized_keys_distinct();
    if entries.len() > 0 {
        let rest = entries.drop_first();
        crate::decode::lemma_count_key_first(entries, "defUid"@);
        crate::decode::lemma_count_key_first(entries, "__identifier"@);
        crate::decode::lemma_count_key_first(entries, "__tile"@);
        crate::decode::lemma_count_key_first(entries, "__type"@);
        crate::decode::lemma_count_key_first(entries, "__value"@);
        crate::decode::lemma_find_key_first(entries, "defUid"@);
        crate::decode::lemma_find_key_first(entries, "__identifier"@);
        crate::decode::lemma_find_key_first(entries, "__tile"@);
        crate::decode::lemma_find_key_first(entries, "__type"@);
        crate::decode::lemma_find_key_first(entries, "__value"@);
        crate::decode::lemma_count_find(rest, "defUid"@);
        crate::decode::lemma_count_find(rest, "__identifier"@);
        crate::decode::lemma_count_find(rest, "__tile"@);
        crate::decode::lemma_count_find(rest, "__type"@);
        crate::decode::lemma_count_find(rest, "__value"@);
        let k = entries[0].0;
        let v = entries[0].1;
        match spec_classify_key(k) {
            FieldInstanceFields::DefUid => {
                lemma_collect_clean(RawFields { def_uid: Some(v), ..acc }, rest);
            },
            FieldInstanceFields::Identifier => {
                lemma_collect_clean(RawFields { identifier: Some(v), ..acc }, rest);
            },
            FieldInstanceFields::Tile => {
                lemma_collect_clean(RawFields { tile: Some(v), ..acc }, rest);
            },
            FieldInstanceFields::Type => {
                lemma_collect_clean(RawFields { ty: Some(v), ..acc }, rest);
            },
            FieldInstanceFields::Value => {
                lemma_collect_clean(RawFields { value: Some(v), ..acc }, rest);
            },
            FieldInstanceFields::Skip => {
                lemma_collect_clean(acc, rest);
            },
        }
    } else {
        assert(acc == RawFields {
            def_uid: acc.def_uid,
            identifier: acc.identifier,
            tile: acc.tile,
            ty: acc.ty,
            value: acc.value,
        });
    }
}

/// Decoding a field-instance object does not depend on the order of its
/// entries: two objects that carry each recognized key at most once, with
/// the same first value under each, decode identically — whatever other
/// entries surround them.
pub proof fn lemma_order_independence(
    e1: Seq<(Seq<char>, JsonView)>,
    e2: Seq<(Seq<char>, JsonView)>,
)
    requires
        forall|k: Seq<char>| spec_recognized_keys().contains(k) ==> {
            &&& #[trigger] crate::decode::spec_count_key(e1, k) <= 1
            &&& crate::decode::spec_count_key(e2, k) <= 1
            &&& crate::decode::spec_find_key(e1, k) == crate::decode::spec_find_key(e2, k)
        },
    ensures
        spec_decode_field_instance(e1) == spec_decode_field_instance(e2),
{
    assert(spec_recognized_keys().contains("defUid"@)) by {
        assert(spec_recognized_keys()[0] == "defUid"@);
    }
    assert(spec_recognized_keys().contains("__identifier"@)) by {
        assert(spec_recognized_keys()[1] == "__identifier"@);
    }
    assert(spec_recognized_keys().contains("__tile"@)) by {
        assert(spec_recognized_keys()[2] == "__tile"@);
    }
    assert(spec_recognized_keys().contains("__type"@)) by {
        assert(spec_recognized_keys()[3] == "__type"@);
    }
    assert(spec_recognized_keys().contains("__value"@)) by {
        assert(spec_recognized_keys()[4] == "__value"@);
    }
    assert(crate::decode::spec_count_key(e1, "defUid"@) <= 1);
    assert(crate::decode::spec_count_key(e1, "__identifier"@) <= 1);
    assert(crate::decode::spec_count_key(e1, "__tile"@) <= 1);
    assert(crate::decode::spec_count_key(e1, "__type"@) <= 1);
    assert(crate::decode::spec_count_key(e1, "__value"@) <= 1);
    lemma_collect_clean(raw_fields_empty(), e1);
    lemma_collect_clean(raw_fields_empty(), e2);
}

/// An object carrying the identifier key twice fails with `DuplicateField`
/// naming it, whatever the two values hold, as long as no other recognized
/// key is itself duplicated first.
pub proof fn lemma_duplicate_identifier(entries: Seq<(Seq<char>, JsonView)>)
    requires
        crate::decode::spec_count_key(entries, "__identifier"@) >= 2,
        crate::decode::spec_count_key(entries, "defUid"@) <= 1,
        crate::decode::spec_count_key(entries, "__tile"@) <= 1,
        crate::decode::spec_count_key(entries, "__type"@) <= 1,
        crate::decode::spec_count_key(entries, "__value"@) <= 1,
    ensures
        spec_decode_field_instance(entries) == Err::<FieldInstanceView, ErrView>(
            ErrView::DuplicateField("__identifier"@),
        ),
{
    lemma_collect_dup_identifier(raw_fields_empty(), entries);
}

/// The generalized duplicate argument, tracking the slots already filled.
proof fn lemma_collect_dup_identifier(acc: RawFields, entries: Seq<(Seq<char>, JsonView)>)
    requires
        slot_load(acc.identifier, entries, "__identifier"@) >= 2,
        slot_load(acc.def_uid, entries, "defUid"@) <= 1,
        slot_load(acc.tile, entries, "__tile"@) <= 1,
        slot_load(acc.ty, entries, "__type"@) <= 1,
        slot_load(acc.value, entries, "__value"@) <= 1,
    ensures
        spec_collect_from(acc, entries) == Err::<RawFields, ErrView>(
            ErrView::DuplicateField("__identifier"@),
        ),
    decreases entries.len(),
{
    lemma_recognized_keys_distinct();
    crate::decode::lemma_count_find(entries, "__identifier"@);
    if entries.len() > 0 {
        let rest = entries.drop_first();
        crate::decode::lemma_count_key_first(entries, "defUid"@);
        crate::decode::lemma_count_key_first(entries, "__identifier"@);
        crate::decode::lemma_count_key_first(entries, "__tile"@);
        crate::decode::lemma_count_key_first(entries, "__type"@);
        crate::decode::lemma_count_key_first(entries, "__value"@);
        crate::decode::lemma_count_find(rest, "defUid"@);
        crate::decode::lemma_count_find(rest, "__identifier"@);
        crate::decode::lemma_count_find(rest, "__tile"@);
        crate::decode::lemma_count_find(rest, "__type"@);
        crate::decode::lemma_count_find(rest, "__value"@);
        let k = entries[0].0;
        let v = entries[0].1;
        match spec_classify_key(k) {
            FieldInstanceFields::DefUid => {
                lemma_collect_dup_identifier(RawFields { def_uid: Some(v), ..acc }, rest);
            },
            FieldInstanceFields::Identifier => {
                if acc.identifier is None {
                    lemma_collect_dup_identifier(
                        RawFields { identifier: Some(v), ..acc },
                        rest,
                    );
                }
            },
            FieldInstanceFields::Tile => {
                lemma_collect_dup_identifier(RawFields { tile: Some(v), ..acc }, rest);
            },
            FieldInstanceFields::Type => {
                lemma_collect_dup_identifier(RawFields { ty: Some(v), ..acc }, rest);
            },
            FieldInstanceFields::Value => {
                lemma_collect_dup_identifier(RawFields { value: Some(v), ..acc }, rest);
            },
            FieldInstanceFields::Skip => {
                lemma_collect_dup_identifier(acc, rest);
            },
        }
    }
}

/// Omitting the type-tag key fails with `MissingField` naming it, even when
/// the raw value is present: the three keys checked before it must each
/// appear once, and then nothing else about the values matters.
pub proof fn lemma_missing_type(entries: Seq<(Seq<char>, JsonView)>)
    requires
        crate::decode::spec_count_key(entries, "defUid"@) == 1,
        crate::decode::spec_count_key(entries, "__identifier"@) == 1,
        crate::decode::spec_count_key(entries, "__tile"@) == 1,
        crate::decode::spec_count_key(entries, "__type"@) == 0,
        crate::decode::spec_count_key(entries, "__value"@) <= 1,
    ensures
        spec_decode_field_instance(entries) == Err::<FieldInstanceView, ErrView>(
            ErrView::MissingField("__type"@),
        ),
{
    lemma_collect_clean(raw_fields_empty(), entries);
    crate::decode::lemma_count_find(entries, "defUid"@);
    crate::decode::lemma_count_find(entries, "__identifier"@);
    crate::decode::lemma_count_find(entries, "__tile"@);
    crate::decode::lemma_count_find(entries, "__type"@);
}


/// The semantic kind a decoded value belongs to.
pub open spec fn spec_kind_of(v: FieldValueView) -> FieldType {
    match v {
        FieldValueView::Integer(_) => FieldType::Int,
        FieldValueView::Float(_) => FieldType::Float,
        FieldValueView::Bool(_) => FieldType::Bool,
        FieldValueView::String(_) => FieldType::String,
        FieldValueView::Multilines(_) => FieldType::Multilines,
        FieldValueView::FilePath(_) => FieldType::FilePath,
        FieldValueView::LocalEnum(_) => FieldType::LocalEnum,
        FieldValueView::ExternEnum(_) => FieldType::ExternEnum,
        FieldValueView::Color(_) => FieldType::Color,
        FieldValueView::Point(_) => FieldType::Point,
        FieldValueView::EntityRef(_) => FieldType::EntityRef,
        FieldValueView::Array(_) => FieldType::Array,
    }
}

/// Whether untagged decoding can reconstruct a value from its wire form.
/// The string subtypes collapse to plain text, an extern enum reference is
/// indistinguishable from a local one, and a color is indistinguishable
/// from its text, so those need the type tag; everything else survives,
/// arrays element by element.
pub open spec fn spec_untagged_safe(v: FieldValueView) -> bool
    decreases v,
{
    match v {
        FieldValueView::Multilines(_) => false,
        FieldValueView::FilePath(_) => false,
        FieldValueView::ExternEnum(_) => false,
        FieldValueView::Color(_) => false,
        FieldValueView::Array(items) => forall|i: int|
            0 <= i < items.len() ==> spec_untagged_safe(#[trigger] items[i]),
        _ => true,
    }
}

/// An encoded enum reference decodes back to itself.
proof fn lemma_enum_obj_round_trip(e: LdtkEnumView)
    ensures
        LdtkEnum::spec_decode(spec_encode_field_value(FieldValueView::LocalEnum(e))) == Ok::<
            LdtkEnumView,
            ErrView,
        >(e),
{
    reveal_strlit("name");
    reveal_strlit("variant");
    reveal_with_fuel(crate::decode::spec_count_key, 6);
    reveal_with_fuel(crate::decode::spec_find_key, 6);
    assert("name"@.len() == 4);
    assert("variant"@.len() == 7);
    let s = seq![("name"@, JsonView::Str(e.name)), ("variant"@, JsonView::Str(e.variant))];
    assert(s.drop_last() =~= seq![("name"@, JsonView::Str(e.name))]);
    assert(seq![("name"@, JsonView::Str(e.name))].drop_last() =~= Seq::<(
        Seq<char>,
        JsonView,
    )>::empty());
    assert(crate::decode::spec_count_key(s, "name"@) == 1);
    assert(crate::decode::spec_count_key(s, "variant"@) == 1);
    assert(crate::decode::spec_find_key(s, "name"@) == Some(JsonView::Str(e.name)));
    assert(crate::decode::spec_find_key(s, "variant"@) == Some(JsonView::Str(e.variant)));
    assert(e == LdtkEnumView { name: e.name, variant: e.variant });
}

/// An encoded grid point decodes back to itself.
proof fn lemma_point_obj_round_trip(p: GridPoint)
    ensures
        GridPoint::spec_decode(spec_encode_field_value(FieldValueView::Point(p))) == Ok::<
            GridPoint,
            ErrView,
        >(p),
{
    reveal_strlit("cx");
    reveal_strlit("cy");
    reveal_with_fuel(crate::decode::spec_count_key, 6);
    reveal_with_fuel(crate::decode::spec_find_key, 6);
    assert("cx"@.len() == 2);
    assert("cy"@.len() == 2);
    assert("cx"@[1] == 'x');
    assert("cy"@[1] == 'y');
    let cx_val = JsonView::Num(JsonNum { int_val: Some(p.cx as i64), float_bits: 0 });
    let cy_val = JsonView::Num(JsonNum { int_val: Some(p.cy as i64), float_bits: 0 });
    let s = seq![("cx"@, cx_val), ("cy"@, cy_val)];
    assert(s.drop_last() =~= seq![("cx"@, cx_val)]);
    assert(seq![("cx"@, cx_val)].drop_last() =~= Seq::<(Seq<char>, JsonView)>::empty());
    assert(crate::decode::spec_count_key(s, "cx"@) == 1);
    assert(crate::decode::spec_count_key(s, "cy"@) == 1);
    assert(crate::decode::spec_find_key(s, "cx"@) == Some(cx_val));
    assert(crate::decode::spec_find_key(s, "cy"@) == Some(cy_val));
    assert(p == GridPoint { cx: p.cx, cy: p.cy });
}

/// An encoded entity reference decodes back to itself.
proof fn lemma_entity_ref_obj_round_trip(er: EntityRefView)
    ensures
        EntityRef::spec_decode(spec_encode_field_value(FieldValueView::EntityRef(er))) == Ok::<
            EntityRefView,
            ErrView,
        >(er),
{
    reveal_strlit("entityIid");
    reveal_strlit("layerIid");
    reveal_strlit("levelIid");
    reveal_strlit("worldIid");
    reveal_with_fuel(crate::decode::spec_count_key, 6);
    reveal_with_fuel(crate::decode::spec_find_key, 6);
    assert("entityIid"@.len() == 9);
    assert("layerIid"@.len() == 8);
    assert("levelIid"@.len() == 8);
    assert("worldIid"@.len() == 8);
    assert("layerIid"@[0] == 'l');
    assert("levelIid"@[0] == 'l');
    assert("worldIid"@[0] == 'w');
    assert("layerIid"@[1] == 'a');
    assert("levelIid"@[1] == 'e');
    let e0 = ("entityIid"@, JsonView::Str(er.entity_iid));
    let e1 = ("layerIid"@, JsonView::Str(er.layer_iid));
    let e2 = ("levelIid"@, JsonView::Str(er.level_iid));
    let e3 = ("worldIid"@, JsonView::Str(er.world_iid));
    let s = seq![e0, e1, e2, e3];
    assert(s.drop_last() =~= seq![e0, e1, e2]);
    assert(seq![e0, e1, e2].drop_last() =~= seq![e0, e1]);
    assert(seq![e0, e1].drop_last() =~= seq![e0]);
    assert(seq![e0].drop_last() =~= Seq::<(Seq<char>, JsonView)>::empty());
    assert(crate::decode::spec_count_key(s, "entityIid"@) == 1);
    assert(crate::decode::spec_count_key(s, "layerIid"@) == 1);
    assert(crate::decode::spec_count_key(s, "levelIid"@) == 1);
    assert(crate::decode::spec_count_key(s, "worldIid"@) == 1);
    assert(crate::decode::spec_find_key(s, "entityIid"@) == Some(e0.1));
    assert(crate::decode::spec_find_key(s, "layerIid"@) == Some(e1.1));
    assert(crate::decode::spec_find_key(s, "levelIid"@) == Some(e2.1));
    assert(crate::decode::spec_find_key(s, "worldIid"@) == Some(e3.1));
    assert(er == EntityRefView {
        entity_iid: er.entity_iid,
        layer_iid: er.layer_iid,
        level_iid: er.level_iid,
        world_iid: er.world_iid,
    });
}

/// Round trip without a tag: every untagged-safe value decodes from its
/// wire form back to itself.
pub proof fn lemma_untagged_round_trip(v: FieldValueView)
    requires
        spec_untagged_safe(v),
    ensures
        spec_decode_untagged(spec_encode_field_value(v)) == Ok::<FieldValueView, ErrView>(v),
    decreases v,
{
    match v {
        FieldValueView::LocalEnum(e) => {
            lemma_enum_obj_round_trip(e);
        },
        FieldValueView::Point(p) => {
            lemma_point_obj_round_trip(p);
            let enc = spec_encode_field_value(v);
            assert(LdtkEnum::spec_decode(enc) is Err) by {
                lemma_point_keys_not_enum(p);
            }
        },
        FieldValueView::EntityRef(er) => {
            lemma_entity_ref_obj_round_trip(er);
            let enc = spec_encode_field_value(v);
            assert(LdtkEnum::spec_decode(enc) is Err) by {
                lemma_entity_ref_keys_not_enum(er);
            }
            assert(GridPoint::spec_decode(enc) is Err) by {
                lemma_entity_ref_keys_not_point(er);
            }
        },
        FieldValueView::Array(items) => {
            let enc = spec_encode_field_value(v);
            lemma_untagged_seq_round_trip(items, enc->Arr_0);
        },
        _ => {},
    }
}

/// A grid point's keys carry no enum reference.
proof fn lemma_point_keys_not_enum(p: GridPoint)
    ensures
        LdtkEnum::spec_decode(spec_encode_field_value(FieldValueView::Point(p))) is Err,
{
    reveal_strlit("cx");
    reveal_strlit("cy");
    reveal_strlit("name");
    reveal_with_fuel(crate::decode::spec_count_key, 6);
    reveal_with_fuel(crate::decode::spec_find_key, 6);
    assert("cx"@.len() == 2);
    assert("cy"@.len() == 2);
    assert("name"@.len() == 4);
    let cx_val = JsonView::Num(JsonNum { int_val: Some(p.cx as i64), float_bits: 0 });
    let cy_val = JsonView::Num(JsonNum { int_val: Some(p.cy as i64), float_bits: 0 });
    let s = seq![("cx"@, cx_val), ("cy"@, cy_val)];
    assert(s.drop_last() =~= seq![("cx"@, cx_val)]);
    assert(seq![("cx"@, cx_val)].drop_last() =~= Seq::<(Seq<char>, JsonView)>::empty());
    assert(crate::decode::spec_count_key(s, "name"@) == 0);
    assert(crate::decode::spec_find_key(s, "name"@) is None);
}

/// An entity reference's keys carry no enum reference.
proof fn lemma_entity_ref_keys_not_enum(er: EntityRefView)
    ensures
        LdtkEnum::spec_decode(spec_encode_field_value(FieldValueView::EntityRef(er))) is Err,
{
    reveal_strlit("entityIid");
    reveal_strlit("layerIid");
    reveal_strlit("levelIid");
    reveal_strlit("worldIid");
    reveal_strlit("name");
    reveal_with_fuel(crate::decode::spec_count_key, 6);
    reveal_with_fuel(crate::decode::spec_find_key, 6);
    assert("entityIid"@.len() == 9);
    assert("layerIid"@.len() == 8);
    assert("levelIid"@.len() == 8);
    assert("worldIid"@.len() == 8);
    assert("name"@.len() == 4);
    let e0 = ("entityIid"@, JsonView::Str(er.entity_iid));
    let e1 = ("layerIid"@, JsonView::Str(er.layer_iid));
    let e2 = ("levelIid"@, JsonView::Str(er.level_iid));
    let e3 = ("worldIid"@, JsonView::Str(er.world_iid));
    let s = seq![e0, e1, e2, e3];
    assert(s.drop_last() =~= seq![e0, e1, e2]);
    assert(seq![e0, e1, e2].drop_last() =~= seq![e0, e1]);
    assert(seq![e0, e1].drop_last() =~= seq![e0]);
    assert(seq![e0].drop_last() =~= Seq::<(Seq<char>, JsonView)>::empty());
    assert(crate::decode::spec_count_key(s, "name"@) == 0);
    assert(crate::decode::spec_find_key(s, "name"@) is None);
}

/// An entity reference's keys carry no grid point.
proof fn lemma_entity_ref_keys_not_point(er: EntityRefView)
    ensures
        GridPoint::spec_decode(spec_encode_field_value(FieldValueView::EntityRef(er))) is Err,
{
    reveal_strlit("entityIid");
    reveal_strlit("layerIid");
    reveal_strlit("levelIid");
    reveal_strlit("worldIid");
    reveal_strlit("cx");
    reveal_with_fuel(crate::decode::spec_count_key, 6);
    reveal_with_fuel(crate::decode::spec_find_key, 6);
    assert("entityIid"@.len() == 9);
    assert("layerIid"@.len() == 8);
    assert("levelIid"@.len() == 8);
    assert("worldIid"@.len() == 8);
    assert("cx"@.len() == 2);
    let e0 = ("entityIid"@, JsonView::Str(er.entity_iid));
    let e1 = ("layerIid"@, JsonView::Str(er.layer_iid));
    let e2 = ("levelIid"@, JsonView::Str(er.level_iid));
    let e3 = ("worldIid"@, JsonView::Str(er.world_iid));
    let s = seq![e0, e1, e2, e3];
    assert(s.drop_last() =~= seq![e0, e1, e2]);
    assert(seq![e0, e1, e2].drop_last() =~= seq![e0, e1]);
    assert(seq![e0, e1].drop_last() =~= seq![e0]);
    assert(seq![e0].drop_last() =~= Seq::<(Seq<char>, JsonView)>::empty());
    assert(crate::decode::spec_count_key(s, "cx"@) == 0);
    assert(crate::decode::spec_find_key(s, "cx"@) is None);
}

/// Round trip for a sequence of untagged-safe values.
proof fn lemma_untagged_seq_round_trip(items: Seq<FieldValueView>, enc: Seq<JsonView>)
    requires
        enc.len() == items.len(),
        forall|i: int| 0 <= i < items.len() ==> spec_untagged_safe(#[trigger] items[i]),
        forall|i: int|
            0 <= i < items.len() ==> #[trigger] enc[i] == spec_encode_field_value(items[i]),
    ensures
        spec_untagged_seq(enc) == Ok::<Seq<FieldValueView>, ErrView>(items),
    decreases items,
{
    if items.len() == 0 {
        assert(enc =~= Seq::<JsonView>::empty());
        assert(items =~= Seq::<FieldValueView>::empty());
    } else {
        lemma_untagged_seq_round_trip(items.drop_last(), enc.drop_last());
        lemma_untagged_round_trip(items.last());
        assert(enc.last() == spec_encode_field_value(items.last()));
        assert(spec_untagged_seq(enc.drop_last()) == Ok::<Seq<FieldValueView>, ErrView>(
            items.drop_last(),
        ));
        assert(spec_decode_untagged(enc.last()) == Ok::<FieldValueView, ErrView>(items.last()));
        assert(spec_untagged_seq(enc) == Ok::<Seq<FieldValueView>, ErrView>(
            items.drop_last().push(items.last()),
        ));
        assert(items.drop_last().push(items.last()) =~= items);
    }
}

/// Round trip with the matching tag: reinterpreting a value's wire form
/// under its own kind reconstructs it, for every variant — the string
/// subtypes and extern enums re-wrap under their tag, a color re-parses
/// from its text — as long as any array inside holds only untagged-safe
/// elements, since array elements decode without a tag.
pub proof fn lemma_typed_round_trip(v: FieldValueView)
    requires
        v is Array ==> forall|i: int|
            0 <= i < v->Array_0.len() ==> spec_untagged_safe(#[trigger] v->Array_0[i]),
    ensures
        spec_typed_value(spec_kind_of(v), spec_encode_field_value(v)) == Ok::<
            FieldValueView,
            ErrView,
        >(v),
{
    match v {
        FieldValueView::LocalEnum(e) => {
            lemma_enum_obj_round_trip(e);
        },
        FieldValueView::ExternEnum(e) => {
            lemma_enum_obj_round_trip(LdtkEnumView { name: e.name, variant: e.variant });
            assert(spec_encode_field_value(FieldValueView::LocalEnum(
                LdtkEnumView { name: e.name, variant: e.variant },
            )) == spec_encode_field_value(v));
        },
        FieldValueView::Color(c) => {
            crate::color::lemma_color_round_trip(c);
        },
        FieldValueView::Point(p) => {
            lemma_point_obj_round_trip(p);
        },
        FieldValueView::EntityRef(er) => {
            lemma_entity_ref_obj_round_trip(er);
        },
        FieldValueView::Array(items) => {
            let enc = spec_encode_field_value(v);
            lemma_untagged_seq_round_trip(items, enc->Arr_0);
        },
        _ => {},
    }
}


impl Encode for FieldValue {
    open spec fn spec_encode(v: FieldValueView) -> JsonView {
        spec_encode_field_value(v)
    }

    fn encode(&self) -> (r: JsonValue) {
        FieldValue::encode(self)
    }
}

impl Encode for FieldInstance {
    open spec fn spec_encode(v: FieldInstanceView) -> JsonView {
        JsonView::Obj(
            seq![
                ("defUid"@, i32::spec_encode(v.def_uid)),
                ("__identifier"@, JsonView::Str(v.identifier)),
                ("__tile"@, Nullable::<TilesetRect>::spec_encode(v.tile)),
                ("__value"@, Nullable::<FieldValue>::spec_encode(v.value)),
            ],
        )
    }

    fn encode(&self) -> (r: JsonValue) {
        let mut entries: Vec<(String, JsonValue)> = Vec::new();
        entries.push((String::from_str("defUid"), Encode::encode(&self.def_uid)));
        entries.push((String::from_str("__identifier"), JsonValue::Str(self.identifier.clone())));
        entries.push((String::from_str("__tile"), Encode::encode(&self.tile)));
        entries.push((String::from_str("__value"), Encode::encode(&self.value)));
        let r = JsonValue::Obj(entries);
        proof {
            crate::json::lemma_obj_view(r);
            assert(entries_view(r->Obj_0@) =~= Self::spec_encode(self.view())->Obj_0);
        }
        r
    }
}

} // verus!
