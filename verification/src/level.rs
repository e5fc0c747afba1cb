//! The document model: levels, layers, tiles and entities, each decoded by
//! direct structural field mapping from its wire object.

use vstd::prelude::*;

use crate::color::LdtkColor;
use crate::decode::{
    decode_field, decode_field_vec, encode_vec, shape_name, spec_encode_seq, spec_field,
    spec_field_vec, spec_shape_name, Decode, Encode,
};
use crate::defs::{LayerType, TilesetRect};
use crate::error::{DecodeError, ErrView};
use crate::field::{FieldInstance, FieldInstanceView};
use crate::json::{entries_view, vec_view, FloatBits, JsonValue, JsonView, Nullable};

verus! {

use vstd::string::StringExecFns;

/// One placed tile: its opacity, 2-bit flip flag (bit 0 horizontal, bit 1
/// vertical), placement pixel coordinates, source pixel coordinates within
/// the tileset image, and tile id.
#[derive(Clone, Copy, PartialEq, Eq, Debug)]
pub struct TileInstance {
    pub alpha: FloatBits,
    pub flip: i32,
    pub px: (i32, i32),
    pub src: (i32, i32),
    pub tile_id: i32,
}

impl View for TileInstance {
    type V = TileInstance;

    open spec fn view(&self) -> TileInstance {
        *self
    }
}

impl Decode for TileInstance {
    open spec fn spec_decode(v: JsonView) -> Result<TileInstance, ErrView> {
        match v {
            JsonView::Obj(entries) => {
                let alpha = spec_field::<FloatBits>(entries, "a"@);
                let flip = spec_field::<i32>(entries, "f"@);
                let px = spec_field::<(i32, i32)>(entries, "px"@);
                let src = spec_field::<(i32, i32)>(entries, "src"@);
                let tile_id = spec_field::<i32>(entries, "t"@);
                if alpha is Err {
                    Err(alpha->Err_0)
                } else if flip is Err {
                    Err(flip->Err_0)
                } else if px is Err {
                    Err(px->Err_0)
                } else if src is Err {
                    Err(src->Err_0)
                } else if tile_id is Err {
                    Err(tile_id->Err_0)
                } else {
                    Ok(
                        TileInstance {
                            alpha: alpha->Ok_0,
                            flip: flip->Ok_0,
                            px: px->Ok_0,
                            src: src->Ok_0,
                            tile_id: tile_id->Ok_0,
                        },
                    )
                }
            },
            _ => Err(ErrView::WrongShape(Seq::<char>::empty(), "tile instance"@, spec_shape_name(v))),
        }
    }

    fn decode(v: &JsonValue) -> (r: Result<TileInstance, DecodeError>) {
        match v {
            JsonValue::Obj(entries) => {
                proof {
                    crate::json::lemma_obj_view(*v);
                }
                let alpha = match decode_field::<FloatBits>(entries, "a") {
                    Ok(x) => x,
                    Err(e) => {
                        return Err(e);
                    },
                };
                let flip = match decode_field::<i32>(entries, "f") {
                    Ok(x) => x,
                    Err(e) => {
                        return Err(e);
                    },
                };
                let px = match decode_field::<(i32, i32)>(entries, "px") {
                    Ok(x) => x,
                    Err(e) => {
                        return Err(e);
                    },
                };
                let src = match decode_field::<(i32, i32)>(entries, "src") {
                    Ok(x) => x,
                    Err(e) => {
                        return Err(e);
                    },
                };
                let tile_id = match decode_field::<i32>(entries, "t") {
                    Ok(x) => x,
                    Err(e) => {
                        return Err(e);
                    },
                };
                Ok(TileInstance { alpha, flip, px, src, tile_id })
            },
            _ => Err(
                DecodeError::WrongShape(String::new(), String::from_str("tile instance"), shape_name(v)),
            ),
        }
    }
}

/// A non-owning reference to another level touching this one: a direction
/// code and the neighbour's instance identifier.
#[derive(Clone, PartialEq, Eq, Debug)]
pub struct Neighbour {
    pub dir: String,
    pub level_iid: String,
}

/// The model of a [`Neighbour`].
pub struct NeighbourView {
    pub dir: Seq<char>,
    pub level_iid: Seq<char>,
}

impl View for Neighbour {
    type V = NeighbourView;

    open spec fn view(&self) -> NeighbourView {
        NeighbourView { dir: self.dir@, level_iid: self.level_iid@ }
    }
}

impl Decode for Neighbour {
    open spec fn spec_decode(v: JsonView) -> Result<NeighbourView, ErrView> {
        match v {
            JsonView::Obj(entries) => {
                let dir = spec_field::<String>(entries, "dir"@);
                let level_iid = spec_field::<String>(entries, "levelIid"@);
                if dir is Err {
                    Err(dir->Err_0)
                } else if level_iid is Err {
                    Err(level_iid->Err_0)
                } else {
                    Ok(NeighbourView { dir: dir->Ok_0, level_iid: level_iid->Ok_0 })
                }
            },
            _ => Err(ErrView::WrongShape(Seq::<char>::empty(), "neighbour"@, spec_shape_name(v))),
        }
    }

    fn decode(v: &JsonValue) -> (r: Result<Neighbour, DecodeError>) {
        match v {
            JsonValue::Obj(entries) => {
                proof {
                    crate::json::lemma_obj_view(*v);
                }
                let dir = match decode_field::<String>(entries, "dir") {
                    Ok(x) => x,
                    Err(e) => {
                        return Err(e);
                    },
                };
                let level_iid = match decode_field::<String>(entries, "levelIid") {
                    Ok(x) => x,
                    Err(e) => {
                        return Err(e);
                    },
                };
                Ok(Neighbour { dir, level_iid })
            },
            _ => Err(DecodeError::WrongShape(String::new(), String::from_str("neighbour"), shape_name(v))),
        }
    }
}

/// Placement of a level's background image: the cropped sub-rectangle, the
/// scale applied to it, and the pixel position of its top-left corner.
#[derive(Clone, Copy, PartialEq, Eq, Debug)]
pub struct ImagePosition {
    pub crop_rect: (FloatBits, FloatBits, FloatBits, FloatBits),
    pub scale: (FloatBits, FloatBits),
    pub top_left_px: (i32, i32),
}

impl View for ImagePosition {
    type V = ImagePosition;

    open spec fn view(&self) -> ImagePosition {
        *self
    }
}

impl Decode for ImagePosition {
    open spec fn spec_decode(v: JsonView) -> Result<ImagePosition, ErrView> {
        match v {
            JsonView::Obj(entries) => {
                let crop = spec_field::<(FloatBits, FloatBits, FloatBits, FloatBits)>(
                    entries,
                    "cropRect"@,
                );
                let scale = spec_field::<(FloatBits, FloatBits)>(entries, "scale"@);
                let top_left = spec_field::<(i32, i32)>(entries, "topLeftPx"@);
                if crop is Err {
                    Err(crop->Err_0)
                } else if scale is Err {
                    Err(scale->Err_0)
                } else if top_left is Err {
                    Err(top_left->Err_0)
                } else {
                    Ok(
                        ImagePosition {
                            crop_rect: crop->Ok_0,
                            scale: scale->Ok_0,
                            top_left_px: top_left->Ok_0,
                        },
                    )
                }
            },
            _ => Err(ErrView::WrongShape(Seq::<char>::empty(), "image position"@, spec_shape_name(v))),
        }
    }

    fn decode(v: &JsonValue) -> (r: Result<ImagePosition, DecodeError>) {
        match v {
            JsonValue::Obj(entries) => {
                proof {
                    crate::json::lemma_obj_view(*v);
                }
                let crop_rect = match decode_field::<(FloatBits, FloatBits, FloatBits, FloatBits)>(
                    entries,
                    "cropRect",
                ) {
                    Ok(x) => x,
                    Err(e) => {
                        return Err(e);
                    },
                };
                let scale = match decode_field::<(FloatBits, FloatBits)>(entries, "scale") {
                    Ok(x) => x,
                    Err(e) => {
                        return Err(e);
                    },
                };
                let top_left_px = match decode_field::<(i32, i32)>(entries, "topLeftPx") {
                    Ok(x) => x,
                    Err(e) => {
                        return Err(e);
                    },
                };
                Ok(ImagePosition { crop_rect, scale, top_left_px })
            },
            _ => Err(
                DecodeError::WrongShape(String::new(), String::from_str("image position"), shape_name(v)),
            ),
        }
    }
}

/// One placed entity: its grid and pixel positions, identifier, pivot,
/// smart color, tags, optional display tile, world position, definition
/// reference, custom fields, instance id and size.
#[derive(PartialEq, Eq, Debug)]
pub struct EntityInstance {
    pub grid: (i32, i32),
    pub identifier: String,
    pub pivot: (FloatBits, FloatBits),
    pub smart_color: String,
    pub tags: Vec<String>,
    pub tile: Nullable<TilesetRect>,
    pub world_x: i32,
    pub world_y: i32,
    pub def_uid: i32,
    pub field_instances: Vec<FieldInstance>,
    pub iid: String,
    pub local_pos: (i32, i32),
    pub width: i32,
    pub height: i32,
}

/// The model of an [`EntityInstance`].
pub struct EntityInstanceView {
    pub grid: (i32, i32),
    pub identifier: Seq<char>,
    pub pivot: (FloatBits, FloatBits),
    pub smart_color: Seq<char>,
    pub tags: Seq<Seq<char>>,
    pub tile: Nullable<TilesetRect>,
    pub world_x: i32,
    pub world_y: i32,
    pub def_uid: i32,
    pub field_instances: Seq<FieldInstanceView>,
    pub iid: Seq<char>,
    pub local_pos: (i32, i32),
    pub width: i32,
    pub height: i32,
}

impl View for EntityInstance {
    type V = EntityInstanceView;

    open spec fn view(&self) -> EntityInstanceView {
        EntityInstanceView {
            grid: self.grid,
            identifier: self.identifier@,
            pivot: self.pivot,
            smart_color: self.smart_color@,
            tags: vec_view(self.tags),
            tile: self.tile@,
            world_x: self.world_x,
            world_y: self.world_y,
            def_uid: self.def_uid,
            field_instances: vec_view(self.field_instances),
            iid: self.iid@,
            local_pos: self.local_pos,
            width: self.width,
            height: self.height,
        }
    }
}

impl Decode for EntityInstance {
    open spec fn spec_decode(v: JsonView) -> Result<EntityInstanceView, ErrView> {
        match v {
            JsonView::Obj(entries) => {
                let grid = spec_field::<(i32, i32)>(entries, "__grid"@);
                let identifier = spec_field::<String>(entries, "__identifier"@);
                let pivot = spec_field::<(FloatBits, FloatBits)>(entries, "__pivot"@);
                let smart_color = spec_field::<String>(entries, "__smartColor"@);
                let tags = spec_field_vec::<String>(entries, "__tags"@);
                let tile = spec_field::<Nullable<TilesetRect>>(entries, "__tile"@);
                let world_x = spec_field::<i32>(entries, "__worldX"@);
                let world_y = spec_field::<i32>(entries, "__worldY"@);
                let def_uid = spec_field::<i32>(entries, "defUid"@);
                let field_instances = spec_field_vec::<FieldInstance>(
                    entries,
                    "fieldInstances"@,
                );
                let iid = spec_field::<String>(entries, "iid"@);
                let local_pos = spec_field::<(i32, i32)>(entries, "px"@);
                let width = spec_field::<i32>(entries, "width"@);
                let height = spec_field::<i32>(entries, "height"@);
                if grid is Err {
                    Err(grid->Err_0)
                } else if identifier is Err {
                    Err(identifier->Err_0)
                } else if pivot is Err {
                    Err(pivot->Err_0)
                } else if smart_color is Err {
                    Err(smart_color->Err_0)
                } else if tags is Err {
                    Err(tags->Err_0)
                } else if tile is Err {
                    Err(tile->Err_0)
                } else if world_x is Err {
                    Err(world_x->Err_0)
                } else if world_y is Err {
                    Err(world_y->Err_0)
                } else if def_uid is Err {
                    Err(def_uid->Err_0)
                } else if field_instances is Err {
                    Err(field_instances->Err_0)
                } else if iid is Err {
                    Err(iid->Err_0)
                } else if local_pos is Err {
                    Err(local_pos->Err_0)
                } else if width is Err {
                    Err(width->Err_0)
                } else if height is Err {
                    Err(height->Err_0)
                } else {
                    Ok(
                        EntityInstanceView {
                            grid: grid->Ok_0,
                            identifier: identifier->Ok_0,
                            pivot: pivot->Ok_0,
                            smart_color: smart_color->Ok_0,
                            tags: tags->Ok_0,
                            tile: tile->Ok_0,
                            world_x: world_x->Ok_0,
                            world_y: world_y->Ok_0,
                            def_uid: def_uid->Ok_0,
                            field_instances: field_instances->Ok_0,
                            iid: iid->Ok_0,
                            local_pos: local_pos->Ok_0,
                            width: width->Ok_0,
                            height: height->Ok_0,
                        },
                    )
                }
            },
            _ => Err(ErrView::WrongShape(Seq::<char>::empty(), "entity instance"@, spec_shape_name(v))),
        }
    }

    fn decode(v: &JsonValue) -> (r: Result<EntityInstance, DecodeError>) {
        match v {
            JsonValue::Obj(entries) => {
                proof {
                    crate::json::lemma_obj_view(*v);
                }
                let grid = match decode_field::<(i32, i32)>(entries, "__grid") {
                    Ok(x) => x,
                    Err(e) => {
                        return Err(e);
                    },
                };
                let identifier = match decode_field::<String>(entries, "__identifier") {
                    Ok(x) => x,
                    Err(e) => {
                        return Err(e);
                    },
                };
                let pivot = match decode_field::<(FloatBits, FloatBits)>(entries, "__pivot") {
                    Ok(x) => x,
                    Err(e) => {
                        return Err(e);
                    },
                };
                let smart_color = match decode_field::<String>(entries, "__smartColor") {
                    Ok(x) => x,
                    Err(e) => {
                        return Err(e);
                    },
                };
                let tags = match decode_field_vec::<String>(entries, "__tags") {
                    Ok(x) => x,
                    Err(e) => {
                        return Err(e);
                    },
                };
                let tile = match decode_field::<Nullable<TilesetRect>>(entries, "__tile") {
                    Ok(x) => x,
                    Err(e) => {
                        return Err(e);
                    },
                };
                let world_x = match decode_field::<i32>(entries, "__worldX") {
                    Ok(x) => x,
                    Err(e) => {
                        return Err(e);
                    },
                };
                let world_y = match decode_field::<i32>(entries, "__worldY") {
                    Ok(x) => x,
                    Err(e) => {
                        return Err(e);
                    },
                };
                let def_uid = match decode_field::<i32>(entries, "defUid") {
                    Ok(x) => x,
                    Err(e) => {
                        return Err(e);
                    },
                };
                let field_instances = match decode_field_vec::<FieldInstance>(
                    entries,
                    "fieldInstances",
                ) {
                    Ok(x) => x,
                    Err(e) => {
                        return Err(e);
                    },
                };
                let iid = match decode_field::<String>(entries, "iid") {
                    Ok(x) => x,
                    Err(e) => {
                        return Err(e);
                    },
                };
                let local_pos = match decode_field::<(i32, i32)>(entries, "px") {
                    Ok(x) => x,
                    Err(e) => {
                        return Err(e);
                    },
                };
                let width = match decode_field::<i32>(entries, "width") {
                    Ok(x) => x,
                    Err(e) => {
                        return Err(e);
                    },
                };
                let height = match decode_field::<i32>(entries, "height") {
                    Ok(x) => x,
                    Err(e) => {
                        return Err(e);
                    },
                };
                Ok(
                    EntityInstance {
                        grid,
                        identifier,
                        pivot,
                        smart_color,
                        tags,
                        tile,
                        world_x,
                        world_y,
                        def_uid,
                        field_instances,
                        iid,
                        local_pos,
                        width,
                        height,
                    },
                )
            },
            _ => Err(
                DecodeError::WrongShape(String::new(), String::from_str("entity instance"), shape_name(v)),
            ),
        }
    }
}

/// One layer of a level: grid dimensions and cell size, identifier,
/// opacity, offsets, optional tileset reference, its kind tag, the placed
/// tiles and entities in display order, and for IntGrid layers a flat
/// row-major width-by-height grid where 0 means empty.
#[derive(PartialEq, Eq, Debug)]
pub struct LayerInstance {
    pub c_hei: i32,
    pub c_wid: i32,
    pub grid_size: i32,
    pub identifier: String,
    pub opacity: FloatBits,
    pub px_total_offset_x: i32,
    pub px_total_offset_y: i32,
    pub tileset_def_uid: Nullable<i32>,
    pub tileset_rel_path: Nullable<String>,
    pub ty: LayerType,
    pub auto_layer_tiles: Vec<TileInstance>,
    pub entity_instances: Vec<EntityInstance>,
    pub grid_tiles: Vec<TileInstance>,
    pub iid: String,
    pub int_grid_csv: Vec<i32>,
    pub layer_def_uid: i32,
    pub level_id: i32,
    pub override_tileset_uid: Nullable<i32>,
    pub px_offset_x: i32,
    pub px_offset_y: i32,
    pub visible: bool,
}

/// The model of a [`LayerInstance`].
pub struct LayerInstanceView {
    pub c_hei: i32,
    pub c_wid: i32,
    pub grid_size: i32,
    pub identifier: Seq<char>,
    pub opacity: FloatBits,
    pub px_total_offset_x: i32,
    pub px_total_offset_y: i32,
    pub tileset_def_uid: Nullable<i32>,
    pub tileset_rel_path: Nullable<Seq<char>>,
    pub ty: LayerType,
    pub auto_layer_tiles: Seq<TileInstance>,
    pub entity_instances: Seq<EntityInstanceView>,
    pub grid_tiles: Seq<TileInstance>,
    pub iid: Seq<char>,
    pub int_grid_csv: Seq<i32>,
    pub layer_def_uid: i32,
    pub level_id: i32,
    pub override_tileset_uid: Nullable<i32>,
    pub px_offset_x: i32,
    pub px_offset_y: i32,
    pub visible: bool,
}

impl View for LayerInstance {
    type V = LayerInstanceView;

    open spec fn view(&self) -> LayerInstanceView {
        LayerInstanceView {
            c_hei: self.c_hei,
            c_wid: self.c_wid,
            grid_size: self.grid_size,
            identifier: self.identifier@,
            opacity: self.opacity,
            px_total_offset_x: self.px_total_offset_x,
            px_total_offset_y: self.px_total_offset_y,
            tileset_def_uid: self.tileset_def_uid,
            tileset_rel_path: self.tileset_rel_path@,
            ty: self.ty,
            auto_layer_tiles: vec_view(self.auto_layer_tiles),
            entity_instances: vec_view(self.entity_instances),
            grid_tiles: vec_view(self.grid_tiles),
            iid: self.iid@,
            int_grid_csv: vec_view(self.int_grid_csv),
            layer_def_uid: self.layer_def_uid,
            level_id: self.level_id,
            override_tileset_uid: self.override_tileset_uid,
            px_offset_x: self.px_offset_x,
            px_offset_y: self.px_offset_y,
            visible: self.visible,
        }
    }
}

impl Decode for LayerInstance {
    open spec fn spec_decode(v: JsonView) -> Result<LayerInstanceView, ErrView> {
        match v {
            JsonView::Obj(entries) => {
                let c_hei = spec_field::<i32>(entries, "__cHei"@);
                let c_wid = spec_field::<i32>(entries, "__cWid"@);
                let grid_size = spec_field::<i32>(entries, "__gridSize"@);
                let identifier = spec_field::<String>(entries, "__identifier"@);
                let opacity = spec_field::<FloatBits>(entries, "__opacity"@);
                let px_total_offset_x = spec_field::<i32>(entries, "__pxTotalOffsetX"@);
                let px_total_offset_y = spec_field::<i32>(entries, "__pxTotalOffsetY"@);
                let tileset_def_uid = spec_field::<Nullable<i32>>(entries, "__tilesetDefUid"@);
                let tileset_rel_path = spec_field::<Nullable<String>>(entries, "__tilesetRelPath"@);
                let ty = spec_field::<LayerType>(entries, "__type"@);
                let auto_layer_tiles = spec_field_vec::<TileInstance>(entries, "autoLayerTiles"@);
                let entity_instances = spec_field_vec::<EntityInstance>(entries, "entityInstances"@);
                let grid_tiles = spec_field_vec::<TileInstance>(entries, "gridTiles"@);
                let iid = spec_field::<String>(entries, "iid"@);
                let int_grid_csv = spec_field_vec::<i32>(entries, "intGridCsv"@);
                let layer_def_uid = spec_field::<i32>(entries, "layerDefUid"@);
                let level_id = spec_field::<i32>(entries, "levelId"@);
                let override_tileset_uid = spec_field::<Nullable<i32>>(entries, "overrideTilesetUid"@);
                let px_offset_x = spec_field::<i32>(entries, "pxOffsetX"@);
                let px_offset_y = spec_field::<i32>(entries, "pxOffsetY"@);
                let visible = spec_field::<bool>(entries, "visible"@);
                if c_hei is Err {
                    Err(c_hei->Err_0)
                } else if c_wid is Err {
                    Err(c_wid->Err_0)
                } else if grid_size is Err {
                    Err(grid_size->Err_0)
                } else if identifier is Err {
                    Err(identifier->Err_0)
                } else if opacity is Err {
                    Err(opacity->Err_0)
                } else if px_total_offset_x is Err {
                    Err(px_total_offset_x->Err_0)
                } else if px_total_offset_y is Err {
                    Err(px_total_offset_y->Err_0)
                } else if tileset_def_uid is Err {
                    Err(tileset_def_uid->Err_0)
                } else if tileset_rel_path is Err {
                    Err(tileset_rel_path->Err_0)
                } else if ty is Err {
                    Err(ty->Err_0)
                } else if auto_layer_tiles is Err {
                    Err(auto_layer_tiles->Err_0)
                } else if entity_instances is Err {
                    Err(entity_instances->Err_0)
                } else if grid_tiles is Err {
                    Err(grid_tiles->Err_0)
                } else if iid is Err {
                    Err(iid->Err_0)
                } else if int_grid_csv is Err {
                    Err(int_grid_csv->Err_0)
                } else if layer_def_uid is Err {
                    Err(layer_def_uid->Err_0)
                } else if level_id is Err {
                    Err(level_id->Err_0)
                } else if override_tileset_uid is Err {
                    Err(override_tileset_uid->Err_0)
                } else if px_offset_x is Err {
                    Err(px_offset_x->Err_0)
                } else if px_offset_y is Err {
                    Err(px_offset_y->Err_0)
                } else if visible is Err {
                    Err(visible->Err_0)
                } else {
                    Ok(
                        LayerInstanceView {
                            c_hei: c_hei->Ok_0,
                            c_wid: c_wid->Ok_0,
                            grid_size: grid_size->Ok_0,
                            identifier: identifier->Ok_0,
                            opacity: opacity->Ok_0,
                            px_total_offset_x: px_total_offset_x->Ok_0,
                            px_total_offset_y: px_total_offset_y->Ok_0,
                            tileset_def_uid: tileset_def_uid->Ok_0,
                            tileset_rel_path: tileset_rel_path->Ok_0,
                            ty: ty->Ok_0,
                            auto_layer_tiles: auto_layer_tiles->Ok_0,
                            entity_instances: entity_instances->Ok_0,
                            grid_tiles: grid_tiles->Ok_0,
                            iid: iid->Ok_0,
                            int_grid_csv: int_grid_csv->Ok_0,
                            layer_def_uid: layer_def_uid->Ok_0,
                            level_id: level_id->Ok_0,
                            override_tileset_uid: override_tileset_uid->Ok_0,
                            px_offset_x: px_offset_x->Ok_0,
                            px_offset_y: px_offset_y->Ok_0,
                            visible: visible->Ok_0,
                        },
                    )
                }
            },
            _ => Err(ErrView::WrongShape(Seq::<char>::empty(), "layer instance"@, spec_shape_name(v))),
        }
    }

    fn decode(v: &JsonValue) -> (r: Result<LayerInstance, DecodeError>) {
        match v {
            JsonValue::Obj(entries) => {
                proof {
                    crate::json::lemma_obj_view(*v);
                }
                let c_hei = match decode_field::<i32>(entries, "__cHei") {
                    Ok(x) => x,
                    Err(e) => {
                        return Err(e);
                    },
                };
                let c_wid = match decode_field::<i32>(entries, "__cWid") {
                    Ok(x) => x,
                    Err(e) => {
                        return Err(e);
                    },
                };
                let grid_size = match decode_field::<i32>(entries, "__gridSize") {
                    Ok(x) => x,
                    Err(e) => {
                        return Err(e);
                    },
                };
                let identifier = match decode_field::<String>(entries, "__identifier") {
                    Ok(x) => x,
                    Err(e) => {
                        return Err(e);
                    },
                };
                let opacity = match decode_field::<FloatBits>(entries, "__opacity") {
                    Ok(x) => x,
                    Err(e) => {
                        return Err(e);
                    },
                };
                let px_total_offset_x = match decode_field::<i32>(entries, "__pxTotalOffsetX") {
                    Ok(x) => x,
                    Err(e) => {
                        return Err(e);
                    },
                };
                let px_total_offset_y = match decode_field::<i32>(entries, "__pxTotalOffsetY") {
                    Ok(x) => x,
                    Err(e) => {
                        return Err(e);
                    },
                };
                let tileset_def_uid = match decode_field::<Nullable<i32>>(entries, "__tilesetDefUid") {
                    Ok(x) => x,
                    Err(e) => {
                        return Err(e);
                    },
                };
                let tileset_rel_path = match decode_field::<Nullable<String>>(entries, "__tilesetRelPath") {
                    Ok(x) => x,
                    Err(e) => {
                        return Err(e);
                    },
                };
                let ty = match decode_field::<LayerType>(entries, "__type") {
                    Ok(x) => x,
                    Err(e) => {
                        return Err(e);
                    },
                };
                let auto_layer_tiles = match decode_field_vec::<TileInstance>(entries, "autoLayerTiles") {
                    Ok(x) => x,
                    Err(e) => {
                        return Err(e);
                    },
                };
                let entity_instances = match decode_field_vec::<EntityInstance>(entries, "entityInstances") {
                    Ok(x) => x,
                    Err(e) => {
                        return Err(e);
                    },
                };
                let grid_tiles = match decode_field_vec::<TileInstance>(entries, "gridTiles") {
                    Ok(x) => x,
                    Err(e) => {
                        return Err(e);
                    },
                };
                let iid = match decode_field::<String>(entries, "iid") {
                    Ok(x) => x,
                    Err(e) => {
                        return Err(e);
                    },
                };
                let int_grid_csv = match decode_field_vec::<i32>(entries, "intGridCsv") {
                    Ok(x) => x,
                    Err(e) => {
                        return Err(e);
                    },
                };
                let layer_def_uid = match decode_field::<i32>(entries, "layerDefUid") {
                    Ok(x) => x,
                    Err(e) => {
                        return Err(e);
                    },
                };
                let level_id = match decode_field::<i32>(entries, "levelId") {
                    Ok(x) => x,
                    Err(e) => {
                        return Err(e);
                    },
                };
                let override_tileset_uid = match decode_field::<Nullable<i32>>(entries, "overrideTilesetUid") {
                    Ok(x) => x,
                    Err(e) => {
                        return Err(e);
                    },
                };
                let px_offset_x = match decode_field::<i32>(entries, "pxOffsetX") {
                    Ok(x) => x,
                    Err(e) => {
                        return Err(e);
                    },
                };
                let px_offset_y = match decode_field::<i32>(entries, "pxOffsetY") {
                    Ok(x) => x,
                    Err(e) => {
                        return Err(e);
                    },
                };
                let visible = match decode_field::<bool>(entries, "visible") {
                    Ok(x) => x,
                    Err(e) => {
                        return Err(e);
                    },
                };
                Ok(
                    LayerInstance {
                        c_hei,
                        c_wid,
                        grid_size,
                        identifier,
                        opacity,
                        px_total_offset_x,
                        px_total_offset_y,
                        tileset_def_uid,
                        tileset_rel_path,
                        ty,
                        auto_layer_tiles,
                        entity_instances,
                        grid_tiles,
                        iid,
                        int_grid_csv,
                        layer_def_uid,
                        level_id,
                        override_tileset_uid,
                        px_offset_x,
                        px_offset_y,
                        visible,
                    },
                )
            },
            _ => Err(
                DecodeError::WrongShape(String::new(), String::from_str("layer instance"), shape_name(v)),
            ),
        }
    }
}

/// One level: identifier and ids, pixel dimensions, world position and
/// depth, background color and optional background image placement, its
/// neighbours by identifier, its layers in display order, and its top-level
/// custom fields.
#[derive(PartialEq, Eq, Debug)]
pub struct Level {
    pub bg_color: LdtkColor,
    pub bg_pos: Nullable<ImagePosition>,
    pub neighbours: Vec<Neighbour>,
    pub bg_rel_path: Nullable<String>,
    pub external_rel_path: Nullable<String>,
    pub field_instances: Vec<FieldInstance>,
    pub identifier: String,
    pub iid: String,
    pub layer_instances: Vec<LayerInstance>,
    pub px_hei: i32,
    pub px_wid: i32,
    pub uid: i32,
    pub world_depth: i32,
    pub world_x: i32,
    pub world_y: i32,
}

/// The model of a [`Level`].
pub struct LevelView {
    pub bg_color: LdtkColor,
    pub bg_pos: Nullable<ImagePosition>,
    pub neighbours: Seq<NeighbourView>,
    pub bg_rel_path: Nullable<Seq<char>>,
    pub external_rel_path: Nullable<Seq<char>>,
    pub field_instances: Seq<FieldInstanceView>,
    pub identifier: Seq<char>,
    pub iid: Seq<char>,
    pub layer_instances: Seq<LayerInstanceView>,
    pub px_hei: i32,
    pub px_wid: i32,
    pub uid: i32,
    pub world_depth: i32,
    pub world_x: i32,
    pub world_y: i32,
}

impl View for Level {
    type V = LevelView;

    open spec fn view(&self) -> LevelView {
        LevelView {
            bg_color: self.bg_color,
            bg_pos: self.bg_pos,
            neighbours: vec_view(self.neighbours),
            bg_rel_path: self.bg_rel_path@,
            external_rel_path: self.external_rel_path@,
            field_instances: vec_view(self.field_instances),
            identifier: self.identifier@,
            iid: self.iid@,
            layer_instances: vec_view(self.layer_instances),
            px_hei: self.px_hei,
            px_wid: self.px_wid,
            uid: self.uid,
            world_depth: self.world_depth,
            world_x: self.world_x,
            world_y: self.world_y,
        }
    }
}

impl Decode for Level {
    open spec fn spec_decode(v: JsonView) -> Result<LevelView, ErrView> {
        match v {
            JsonView::Obj(entries) => {
                let bg_color = spec_field::<LdtkColor>(entries, "__bgColor"@);
                let bg_pos = spec_field::<Nullable<ImagePosition>>(entries, "__bgPos"@);
                let neighbours = spec_field_vec::<Neighbour>(entries, "__neighbours"@);
                let bg_rel_path = spec_field::<Nullable<String>>(entries, "bgRelPath"@);
                let external_rel_path = spec_field::<Nullable<String>>(entries, "externalRelPath"@);
                let field_instances = spec_field_vec::<FieldInstance>(entries, "fieldInstances"@);
                let identifier = spec_field::<String>(entries, "identifier"@);
                let iid = spec_field::<String>(entries, "iid"@);
                let layer_instances = spec_field_vec::<LayerInstance>(entries, "layerInstances"@);
                let px_hei = spec_field::<i32>(entries, "pxHei"@);
                let px_wid = spec_field::<i32>(entries, "pxWid"@);
                let uid = spec_field::<i32>(entries, "uid"@);
                let world_depth = spec_field::<i32>(entries, "worldDepth"@);
                let world_x = spec_field::<i32>(entries, "worldX"@);
                let world_y = spec_field::<i32>(entries, "worldY"@);
                if bg_color is Err {
                    Err(bg_color->Err_0)
                } else if bg_pos is Err {
                    Err(bg_pos->Err_0)
                } else if neighbours is Err {
                    Err(neighbours->Err_0)
                } else if bg_rel_path is Err {
                    Err(bg_rel_path->Err_0)
                } else if external_rel_path is Err {
                    Err(external_rel_path->Err_0)
                } else if field_instances is Err {
                    Err(field_instances->Err_0)
                } else if identifier is Err {
                    Err(identifier->Err_0)
                } else if iid is Err {
                    Err(iid->Err_0)
                } else if layer_instances is Err {
                    Err(layer_instances->Err_0)
                } else if px_hei is Err {
                    Err(px_hei->Err_0)
                } else if px_wid is Err {
                    Err(px_wid->Err_0)
                } else if uid is Err {
                    Err(uid->Err_0)
                } else if world_depth is Err {
                    Err(world_depth->Err_0)
                } else if world_x is Err {
                    Err(world_x->Err_0)
                } else if world_y is Err {
                    Err(world_y->Err_0)
                } else {
                    Ok(
                        LevelView {
                            bg_color: bg_color->Ok_0,
                            bg_pos: bg_pos->Ok_0,
                            neighbours: neighbours->Ok_0,
                            bg_rel_path: bg_rel_path->Ok_0,
                            external_rel_path: external_rel_path->Ok_0,
                            field_instances: field_instances->Ok_0,
                            identifier: identifier->Ok_0,
                            iid: iid->Ok_0,
                            layer_instances: layer_instances->Ok_0,
                            px_hei: px_hei->Ok_0,
                            px_wid: px_wid->Ok_0,
                            uid: uid->Ok_0,
                            world_depth: world_depth->Ok_0,
                            world_x: world_x->Ok_0,
                            world_y: world_y->Ok_0,
                        },
                    )
                }
            },
            _ => Err(ErrView::WrongShape(Seq::<char>::empty(), "level"@, spec_shape_name(v))),
        }
    }

    fn decode(v: &JsonValue) -> (r: Result<Level, DecodeError>) {
        match v {
            JsonValue::Obj(entries) => {
                proof {
                    crate::json::lemma_obj_view(*v);
                }
                let bg_color = match decode_field::<LdtkColor>(entries, "__bgColor") {
                    Ok(x) => x,
                    Err(e) => {
                        return Err(e);
                    },
                };
                let bg_pos = match decode_field::<Nullable<ImagePosition>>(entries, "__bgPos") {
                    Ok(x) => x,
                    Err(e) => {
                        return Err(e);
                    },
                };
                let neighbours = match decode_field_vec::<Neighbour>(entries, "__neighbours") {
                    Ok(x) => x,
                    Err(e) => {
                        return Err(e);
                    },
                };
                let bg_rel_path = match decode_field::<Nullable<String>>(entries, "bgRelPath") {
                    Ok(x) => x,
                    Err(e) => {
                        return Err(e);
                    },
                };
                let external_rel_path = match decode_field::<Nullable<String>>(entries, "externalRelPath") {
                    Ok(x) => x,
                    Err(e) => {
                        return Err(e);
                    },
                };
                let field_instances = match decode_field_vec::<FieldInstance>(entries, "fieldInstances") {
                    Ok(x) => x,
                    Err(e) => {
                        return Err(e);
                    },
                };
                let identifier = match decode_field::<String>(entries, "identifier") {
                    Ok(x) => x,
                    Err(e) => {
                        return Err(e);
                    },
                };
                let iid = match decode_field::<String>(entries, "iid") {
                    Ok(x) => x,
                    Err(e) => {
                        return Err(e);
                    },
                };
                let layer_instances = match decode_field_vec::<LayerInstance>(entries, "layerInstances") {
                    Ok(x) => x,
                    Err(e) => {
                        return Err(e);
                    },
                };
                let px_hei = match decode_field::<i32>(entries, "pxHei") {
                    Ok(x) => x,
                    Err(e) => {
                        return Err(e);
                    },
                };
                let px_wid = match decode_field::<i32>(entries, "pxWid") {
                    Ok(x) => x,
                    Err(e) => {
                        return Err(e);
                    },
                };
                let uid = match decode_field::<i32>(entries, "uid") {
                    Ok(x) => x,
                    Err(e) => {
                        return Err(e);
                    },
                };
                let world_depth = match decode_field::<i32>(entries, "worldDepth") {
                    Ok(x) => x,
                    Err(e) => {
                        return Err(e);
                    },
                };
                let world_x = match decode_field::<i32>(entries, "worldX") {
                    Ok(x) => x,
                    Err(e) => {
                        return Err(e);
                    },
                };
                let world_y = match decode_field::<i32>(entries, "worldY") {
                    Ok(x) => x,
                    Err(e) => {
                        return Err(e);
                    },
                };
                Ok(
                    Level {
                        bg_color,
                        bg_pos,
                        neighbours,
                        bg_rel_path,
                        external_rel_path,
                        field_instances,
                        identifier,
                        iid,
                        layer_instances,
                        px_hei,
                        px_wid,
                        uid,
                        world_depth,
                        world_x,
                        world_y,
                    },
                )
            },
            _ => Err(
                DecodeError::WrongShape(String::new(), String::from_str("level"), shape_name(v)),
            ),
        }
    }
}


impl Encode for TileInstance {
    open spec fn spec_encode(v: TileInstance) -> JsonView {
        JsonView::Obj(
            seq![
                ("a"@, FloatBits::spec_encode(v.alpha)),
                ("f"@, i32::spec_encode(v.flip)),
                ("px"@, <(i32, i32)>::spec_encode(v.px)),
                ("src"@, <(i32, i32)>::spec_encode(v.src)),
                ("t"@, i32::spec_encode(v.tile_id)),
            ],
        )
    }

    fn encode(&self) -> (r: JsonValue) {
        let mut entries: Vec<(String, JsonValue)> = Vec::new();
        entries.push((String::from_str("a"), Encode::encode(&self.alpha)));
        entries.push((String::from_str("f"), Encode::encode(&self.flip)));
        entries.push((String::from_str("px"), Encode::encode(&self.px)));
        entries.push((String::from_str("src"), Encode::encode(&self.src)));
        entries.push((String::from_str("t"), Encode::encode(&self.tile_id)));
        let r = JsonValue::Obj(entries);
        proof {
            crate::json::lemma_obj_view(r);
            assert(entries_view(r->Obj_0@) =~= Self::spec_encode(self.view())->Obj_0);
        }
        r
    }
}
impl Encode for Neighbour {
    open spec fn spec_encode(v: NeighbourView) -> JsonView {
        JsonView::Obj(
            seq![
                ("dir"@, String::spec_encode(v.dir)),
                ("levelIid"@, String::spec_encode(v.level_iid)),
            ],
        )
    }

    fn encode(&self) -> (r: JsonValue) {
        let mut entries: Vec<(String, JsonValue)> = Vec::new();
        entries.push((String::from_str("dir"), Encode::encode(&self.dir)));
        entries.push((String::from_str("levelIid"), Encode::encode(&self.level_iid)));
        let r = JsonValue::Obj(entries);
        proof {
            crate::json::lemma_obj_view(r);
            assert(entries_view(r->Obj_0@) =~= Self::spec_encode(self.view())->Obj_0);
        }
        r
    }
}
impl Encode for ImagePosition {
    open spec fn spec_encode(v: ImagePosition) -> JsonView {
        JsonView::Obj(
            seq![
                ("cropRect"@, <(FloatBits, FloatBits, FloatBits, FloatBits)>::spec_encode(v.crop_rect)),
                ("scale"@, <(FloatBits, FloatBits)>::spec_encode(v.scale)),
                ("topLeftPx"@, <(i32, i32)>::spec_encode(v.top_left_px)),
            ],
        )
    }

    fn encode(&self) -> (r: JsonValue) {
        let mut entries: Vec<(String, JsonValue)> = Vec::new();
        entries.push((String::from_str("cropRect"), Encode::encode(&self.crop_rect)));
        entries.push((String::from_str("scale"), Encode::encode(&self.scale)));
        entries.push((String::from_str("topLeftPx"), Encode::encode(&self.top_left_px)));
        let r = JsonValue::Obj(entries);
        proof {
            crate::json::lemma_obj_view(r);
            assert(entries_view(r->Obj_0@) =~= Self::spec_encode(self.view())->Obj_0);
        }
        r
    }
}
impl Encode for EntityInstance {
    open spec fn spec_encode(v: EntityInstanceView) -> JsonView {
        JsonView::Obj(
            seq![
                ("__grid"@, <(i32, i32)>::spec_encode(v.grid)),
                ("__identifier"@, String::spec_encode(v.identifier)),
                ("__pivot"@, <(FloatBits, FloatBits)>::spec_encode(v.pivot)),
                ("__smartColor"@, String::spec_encode(v.smart_color)),
                ("__tags"@, spec_encode_seq::<String>(v.tags)),
                ("__tile"@, Nullable::<TilesetRect>::spec_encode(v.tile)),
                ("__worldX"@, i32::spec_encode(v.world_x)),
                ("__worldY"@, i32::spec_encode(v.world_y)),
                ("defUid"@, i32::spec_encode(v.def_uid)),
                ("fieldInstances"@, spec_encode_seq::<FieldInstance>(v.field_instances)),
                ("iid"@, String::spec_encode(v.iid)),
                ("px"@, <(i32, i32)>::spec_encode(v.local_pos)),
                ("width"@, i32::spec_encode(v.width)),
                ("height"@, i32::spec_encode(v.height)),
            ],
        )
    }

    fn encode(&self) -> (r: JsonValue) {
        let mut entries: Vec<(String, JsonValue)> = Vec::new();
        entries.push((String::from_str("__grid"), Encode::encode(&self.grid)));
        entries.push((String::from_str("__identifier"), Encode::encode(&self.identifier)));
        entries.push((String::from_str("__pivot"), Encode::encode(&self.pivot)));
        entries.push((String::from_str("__smartColor"), Encode::encode(&self.smart_color)));
        entries.push((String::from_str("__tags"), encode_vec::<String>(&self.tags)));
        entries.push((String::from_str("__tile"), Encode::encode(&self.tile)));
        entries.push((String::from_str("__worldX"), Encode::encode(&self.world_x)));
        entries.push((String::from_str("__worldY"), Encode::encode(&self.world_y)));
        entries.push((String::from_str("defUid"), Encode::encode(&self.def_uid)));
        entries.push((String::from_str("fieldInstances"), encode_vec::<FieldInstance>(&self.field_instances)));
        entries.push((String::from_str("iid"), Encode::encode(&self.iid)));
        entries.push((String::from_str("px"), Encode::encode(&self.local_pos)));
        entries.push((String::from_str("width"), Encode::encode(&self.width)));
        entries.push((String::from_str("height"), Encode::encode(&self.height)));
        let r = JsonValue::Obj(entries);
        proof {
            crate::json::lemma_obj_view(r);
            assert(entries_view(r->Obj_0@) =~= Self::spec_encode(self.view())->Obj_0);
        }
        r
    }
}
impl Encode for LayerInstance {
    open spec fn spec_encode(v: LayerInstanceView) -> JsonView {
        JsonView::Obj(
            seq![
                ("__cHei"@, i32::spec_encode(v.c_hei)),
                ("__cWid"@, i32::spec_encode(v.c_wid)),
                ("__gridSize"@, i32::spec_encode(v.grid_size)),
                ("__identifier"@, String::spec_encode(v.identifier)),
                ("__opacity"@, FloatBits::spec_encode(v.opacity)),
                ("__pxTotalOffsetX"@, i32::spec_encode(v.px_total_offset_x)),
                ("__pxTotalOffsetY"@, i32::spec_encode(v.px_total_offset_y)),
                ("__tilesetDefUid"@, Nullable::<i32>::spec_encode(v.tileset_def_uid)),
                ("__tilesetRelPath"@, Nullable::<String>::spec_encode(v.tileset_rel_path)),
                ("__type"@, LayerType::spec_encode(v.ty)),
                ("autoLayerTiles"@, spec_encode_seq::<TileInstance>(v.auto_layer_tiles)),
                ("entityInstances"@, spec_encode_seq::<EntityInstance>(v.entity_instances)),
                ("gridTiles"@, spec_encode_seq::<TileInstance>(v.grid_tiles)),
                ("iid"@, String::spec_encode(v.iid)),
                ("intGridCsv"@, spec_encode_seq::<i32>(v.int_grid_csv)),
                ("layerDefUid"@, i32::spec_encode(v.layer_def_uid)),
                ("levelId"@, i32::spec_encode(v.level_id)),
                ("overrideTilesetUid"@, Nullable::<i32>::spec_encode(v.override_tileset_uid)),
                ("pxOffsetX"@, i32::spec_encode(v.px_offset_x)),
                ("pxOffsetY"@, i32::spec_encode(v.px_offset_y)),
                ("visible"@, bool::spec_encode(v.visible)),
            ],
        )
    }

    fn encode(&self) -> (r: JsonValue) {
        let mut entries: Vec<(String, JsonValue)> = Vec::new();
        entries.push((String::from_str("__cHei"), Encode::encode(&self.c_hei)));
        entries.push((String::from_str("__cWid"), Encode::encode(&self.c_wid)));
        entries.push((String::from_str("__gridSize"), Encode::encode(&self.grid_size)));
        entries.push((String::from_str("__identifier"), Encode::encode(&self.identifier)));
        entries.push((String::from_str("__opacity"), Encode::encode(&self.opacity)));
        entries.push((String::from_str("__pxTotalOffsetX"), Encode::encode(&self.px_total_offset_x)));
        entries.push((String::from_str("__pxTotalOffsetY"), Encode::encode(&self.px_total_offset_y)));
        entries.push((String::from_str("__tilesetDefUid"), Encode::encode(&self.tileset_def_uid)));
        entries.push((String::from_str("__tilesetRelPath"), Encode::encode(&self.tileset_rel_path)));
        entries.push((String::from_str("__type"), Encode::encode(&self.ty)));
        entries.push((String::from_str("autoLayerTiles"), encode_vec::<TileInstance>(&self.auto_layer_tiles)));
        entries.push((String::from_str("entityInstances"), encode_vec::<EntityInstance>(&self.entity_instances)));
        entries.push((String::from_str("gridTiles"), encode_vec::<TileInstance>(&self.grid_tiles)));
        entries.push((String::from_str("iid"), Encode::encode(&self.iid)));
        entries.push((String::from_str("intGridCsv"), encode_vec::<i32>(&self.int_grid_csv)));
        entries.push((String::from_str("layerDefUid"), Encode::encode(&self.layer_def_uid)));
        entries.push((String::from_str("levelId"), Encode::encode(&self.level_id)));
        entries.push((String::from_str("overrideTilesetUid"), Encode::encode(&self.override_tileset_uid)));
        entries.push((String::from_str("pxOffsetX"), Encode::encode(&self.px_offset_x)));
        entries.push((String::from_str("pxOffsetY"), Encode::encode(&self.px_offset_y)));
        entries.push((String::from_str("visible"), Encode::encode(&self.visible)));
        let r = JsonValue::Obj(entries);
        proof {
            crate::json::lemma_obj_view(r);
            assert(entries_view(r->Obj_0@) =~= Self::spec_encode(self.view())->Obj_0);
        }
        r
    }
}
impl Encode for Level {
    open spec fn spec_encode(v: LevelView) -> JsonView {
        JsonView::Obj(
            seq![
                ("__bgColor"@, LdtkColor::spec_encode(v.bg_color)),
                ("__bgPos"@, Nullable::<ImagePosition>::spec_encode(v.bg_pos)),
                ("__neighbours"@, spec_encode_seq::<Neighbour>(v.neighbours)),
                ("bgRelPath"@, Nullable::<String>::spec_encode(v.bg_rel_path)),
                ("externalRelPath"@, Nullable::<String>::spec_encode(v.external_rel_path)),
                ("fieldInstances"@, spec_encode_seq::<FieldInstance>(v.field_instances)),
                ("identifier"@, String::spec_encode(v.identifier)),
                ("iid"@, String::spec_encode(v.iid)),
                ("layerInstances"@, spec_encode_seq::<LayerInstance>(v.layer_instances)),
                ("pxHei"@, i32::spec_encode(v.px_hei)),
                ("pxWid"@, i32::spec_encode(v.px_wid)),
                ("uid"@, i32::spec_encode(v.uid)),
                ("worldDepth"@, i32::spec_encode(v.world_depth)),
                ("worldX"@, i32::spec_encode(v.world_x)),
                ("worldY"@, i32::spec_encode(v.world_y)),
            ],
        )
    }

    fn encode(&self) -> (r: JsonValue) {
        let mut entries: Vec<(String, JsonValue)> = Vec::new();
        entries.push((String::from_str("__bgColor"), Encode::encode(&self.bg_color)));
        entries.push((String::from_str("__bgPos"), Encode::encode(&self.bg_pos)));
        entries.push((String::from_str("__neighbours"), encode_vec::<Neighbour>(&self.neighbours)));
        entries.push((String::from_str("bgRelPath"), Encode::encode(&self.bg_rel_path)));
        entries.push((String::from_str("externalRelPath"), Encode::encode(&self.external_rel_path)));
        entries.push((String::from_str("fieldInstances"), encode_vec::<FieldInstance>(&self.field_instances)));
        entries.push((String::from_str("identifier"), Encode::encode(&self.identifier)));
        entries.push((String::from_str("iid"), Encode::encode(&self.iid)));
        entries.push((String::from_str("layerInstances"), encode_vec::<LayerInstance>(&self.layer_instances)));
        entries.push((String::from_str("pxHei"), Encode::encode(&self.px_hei)));
        entries.push((String::from_str("pxWid"), Encode::encode(&self.px_wid)));
        entries.push((String::from_str("uid"), Encode::encode(&self.uid)));
        entries.push((String::from_str("worldDepth"), Encode::encode(&self.world_depth)));
        entries.push((String::from_str("worldX"), Encode::encode(&self.world_x)));
        entries.push((String::from_str("worldY"), Encode::encode(&self.world_y)));
        let r = JsonValue::Obj(entries);
        proof {
            crate::json::lemma_obj_view(r);
            assert(entries_view(r->Obj_0@) =~= Self::spec_encode(self.view())->Obj_0);
        }
        r
    }
}

} // verus!
