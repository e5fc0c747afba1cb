//! Shared definition references: the tileset sub-rectangle used for display,
//! and the layer-kind tag.

use vstd::prelude::*;

use crate::decode::{spec_field, spec_shape_name, Decode, Encode};
use crate::error::{DecodeError, ErrView};
use crate::json::{entries_view, JsonValue, JsonView};

verus! {

use vstd::string::StringExecFns;

/// A reference to a sub-rectangle of a tileset image.
#[derive(Clone, Copy, PartialEq, Eq, Debug)]
pub struct TilesetRect {
    pub x: i32,
    pub y: i32,
    pub w: i32,
    pub h: i32,
    pub tileset_uid: i32,
}

impl View for TilesetRect {
    type V = TilesetRect;

    open spec fn view(&self) -> TilesetRect {
        *self
    }
}

impl Decode for TilesetRect {
    open spec fn spec_decode(v: JsonView) -> Result<TilesetRect, ErrView> {
        match v {
            JsonView::Obj(entries) => {
                let x = spec_field::<i32>(entries, "x"@);
                let y = spec_field::<i32>(entries, "y"@);
                let w = spec_field::<i32>(entries, "w"@);
                let h = spec_field::<i32>(entries, "h"@);
                let uid = spec_field::<i32>(entries, "tilesetUid"@);
                if x is Err {
                    Err(x->Err_0)
                } else if y is Err {
                    Err(y->Err_0)
                } else if w is Err {
                    Err(w->Err_0)
                } else if h is Err {
                    Err(h->Err_0)
                } else if uid is Err {
                    Err(uid->Err_0)
                } else {
                    Ok(
                        TilesetRect {
                            x: x->Ok_0,
                            y: y->Ok_0,
                            w: w->Ok_0,
                            h: h->Ok_0,
                            tileset_uid: uid->Ok_0,
                        },
                    )
                }
            },
            _ => Err(ErrView::WrongShape(Seq::<char>::empty(), "tileset rect"@, spec_shape_name(v))),
        }
    }

    fn decode(v: &JsonValue) -> (r: Result<TilesetRect, DecodeError>) {
        match v {
            JsonValue::Obj(entries) => {
                proof {
                    crate::json::lemma_obj_view(*v);
                }
                let x = match crate::decode::decode_field::<i32>(entries, "x") {
                    Ok(n) => n,
                    Err(e) => {
                        return Err(e);
                    },
                };
                let y = match crate::decode::decode_field::<i32>(entries, "y") {
                    Ok(n) => n,
                    Err(e) => {
                        return Err(e);
                    },
                };
                let w = match crate::decode::decode_field::<i32>(entries, "w") {
                    Ok(n) => n,
                    Err(e) => {
                        return Err(e);
                    },
                };
                let h = match crate::decode::decode_field::<i32>(entries, "h") {
                    Ok(n) => n,
                    Err(e) => {
                        return Err(e);
                    },
                };
                let uid = match crate::decode::decode_field::<i32>(entries, "tilesetUid") {
                    Ok(n) => n,
                    Err(e) => {
                        return Err(e);
                    },
                };
                Ok(TilesetRect { x, y, w, h, tileset_uid: uid })
            },
            _ => Err(
                DecodeError::WrongShape(
                    String::new(),
                    String::from_str("tileset rect"),
                    crate::decode::shape_name(v),
                ),
            ),
        }
    }
}

/// The kind of a layer.
#[derive(Clone, Copy, PartialEq, Eq, Structural, Debug)]
pub enum LayerType {
    IntGrid,
    Entities,
    Tiles,
    AutoLayer,
}

/// What the layer-kind tag token denotes, if anything.
pub open spec fn spec_parse_layer_type(s: Seq<char>) -> Option<LayerType> {
    if s == "IntGrid"@ {
        Some(LayerType::IntGrid)
    } else if s == "Entities"@ {
        Some(LayerType::Entities)
    } else if s == "Tiles"@ {
        Some(LayerType::Tiles)
    } else if s == "AutoLayer"@ {
        Some(LayerType::AutoLayer)
    } else {
        None
    }
}

impl View for LayerType {
    type V = LayerType;

    open spec fn view(&self) -> LayerType {
        *self
    }
}

impl Decode for LayerType {
    open spec fn spec_decode(v: JsonView) -> Result<LayerType, ErrView> {
        match v {
            JsonView::Str(s) => match spec_parse_layer_type(s) {
                Some(t) => Ok(t),
                None => Err(ErrView::WrongShape(Seq::<char>::empty(), "layer type"@, s)),
            },
            _ => Err(ErrView::WrongShape(Seq::<char>::empty(), "layer type"@, spec_shape_name(v))),
        }
    }

    fn decode(v: &JsonValue) -> (r: Result<LayerType, DecodeError>) {
        match v {
            JsonValue::Str(s) => {
                if crate::json::str_eq(s.as_str(), "IntGrid") {
                    Ok(LayerType::IntGrid)
                } else if crate::json::str_eq(s.as_str(), "Entities") {
                    Ok(LayerType::Entities)
                } else if crate::json::str_eq(s.as_str(), "Tiles") {
                    Ok(LayerType::Tiles)
                } else if crate::json::str_eq(s.as_str(), "AutoLayer") {
                    Ok(LayerType::AutoLayer)
                } else {
                    Err(DecodeError::WrongShape(String::new(), String::from_str("layer type"), s.clone()))
                }
            },
            _ => Err(
                DecodeError::WrongShape(
                    String::new(),
                    String::from_str("layer type"),
                    crate::decode::shape_name(v),
                ),
            ),
        }
    }
}


impl Encode for TilesetRect {
    open spec fn spec_encode(v: TilesetRect) -> JsonView {
        JsonView::Obj(
            seq![
                ("x"@, i32::spec_encode(v.x)),
                ("y"@, i32::spec_encode(v.y)),
                ("w"@, i32::spec_encode(v.w)),
                ("h"@, i32::spec_encode(v.h)),
                ("tilesetUid"@, i32::spec_encode(v.tileset_uid)),
            ],
        )
    }

    fn encode(&self) -> (r: JsonValue) {
        let mut entries: Vec<(String, JsonValue)> = Vec::new();
        entries.push((String::from_str("x"), Encode::encode(&self.x)));
        entries.push((String::from_str("y"), Encode::encode(&self.y)));
        entries.push((String::from_str("w"), Encode::encode(&self.w)));
        entries.push((String::from_str("h"), Encode::encode(&self.h)));
        entries.push((String::from_str("tilesetUid"), Encode::encode(&self.tileset_uid)));
        let r = JsonValue::Obj(entries);
        proof {
            crate::json::lemma_obj_view(r);
            assert(entries_view(r->Obj_0@) =~= Self::spec_encode(self.view())->Obj_0);
        }
        r
    }
}

/// The wire token of a layer kind.
pub open spec fn spec_encode_layer_type(t: LayerType) -> Seq<char> {
    match t {
        LayerType::IntGrid => "IntGrid"@,
        LayerType::Entities => "Entities"@,
        LayerType::Tiles => "Tiles"@,
        LayerType::AutoLayer => "AutoLayer"@,
    }
}

impl Encode for LayerType {
    open spec fn spec_encode(v: LayerType) -> JsonView {
        JsonView::Str(spec_encode_layer_type(v))
    }

    fn encode(&self) -> (r: JsonValue) {
        match self {
            LayerType::IntGrid => JsonValue::Str(String::from_str("IntGrid")),
            LayerType::Entities => JsonValue::Str(String::from_str("Entities")),
            LayerType::Tiles => JsonValue::Str(String::from_str("Tiles")),
            LayerType::AutoLayer => JsonValue::Str(String::from_str("AutoLayer")),
        }
    }
}

} // verus!
