use vstd::prelude::*;
use crate::json::{JsonVal, as_obj, as_arr, obj_get, get_obj, get_field, get_arr};
use crate::api::{BoundedValue, Position, bounded_value_of, decode_bounded_value, req_u32, req_i32, field_u32, field_i32};
use crate::error::NanoLeafError;

verus! {

/// One physical panel: its id and shape type, and its position fields,
/// which sit flattened beside them on the wire.
#[derive(Debug, Clone, Copy, PartialEq, Eq, Structural)]
pub struct PanelPosition {
    pub panel_id: u32,
    pub shape_type: u32,
    pub pos: Position,
}

/// How the panels are arranged: their count, side length and per-panel
/// records, in the device's display order.
#[derive(Debug, Clone)]
pub struct Layout {
    pub num_panels: u32,
    pub side_length: u32,
    pub position_data: Vec<PanelPosition>,
}

/// The layout together with the device's global orientation.
#[derive(Debug, Clone)]
pub struct PanelLayout {
    pub layout: Layout,
    pub global_orientation: BoundedValue,
}

/// The `PanelPosition` that `v` decodes to: required `panelId` and
/// `shapeType`, and the three position fields `x`, `y`, `o` at the same
/// level (the wire flattens the position into the panel record).
pub open spec fn panel_position_of(v: JsonVal) -> Option<PanelPosition> {
    match as_obj(v) {
        Some(fs) => match (
            req_u32(fs, "panelId"@),
            req_u32(fs, "shapeType"@),
            req_i32(fs, "x"@),
            req_i32(fs, "y"@),
            req_i32(fs, "o"@),
        ) {
            (Some(panel_id), Some(shape_type), Some(x), Some(y), Some(o)) => Some(
                PanelPosition { panel_id, shape_type, pos: Position { x, y, o } },
            ),
            _ => None,
        },
        None => None,
    }
}

/// Decodes a `PanelPosition`, exactly as `panel_position_of` states.
pub fn decode_panel_position(v: &JsonVal) -> (r: Result<PanelPosition, NanoLeafError>)
    ensures
        match r {
            Ok(p) => panel_position_of(*v) == Some(p),
            Err(e) => panel_position_of(*v) is None && e == NanoLeafError::Decode,
        },
{
    let fields = match get_obj(v) {
        Some(f) => f,
        None => {
            return Err(NanoLeafError::Decode);
        },
    };
    let panel_id = match field_u32(fields, "panelId") {
        Some(n) => n,
        None => {
            return Err(NanoLeafError::Decode);
        },
    };
    let shape_type = match field_u32(fields, "shapeType") {
        Some(n) => n,
        None => {
            return Err(NanoLeafError::Decode);
        },
    };
    let x = match field_i32(fields, "x") {
        Some(n) => n,
        None => {
            return Err(NanoLeafError::Decode);
        },
    };
    let y = match field_i32(fields, "y") {
        Some(n) => n,
        None => {
            return Err(NanoLeafError::Decode);
        },
    };
    let o = match field_i32(fields, "o") {
        Some(n) => n,
        None => {
            return Err(NanoLeafError::Decode);
        },
    };
    Ok(PanelPosition { panel_id, shape_type, pos: Position { x, y, o } })
}

/// The shape a `Layout` document must have: two required numbers and a
/// `positionData` array whose every element is a decodable panel record.
pub open spec fn layout_shape(v: JsonVal) -> bool {
    match as_obj(v) {
        Some(fs) => req_u32(fs, "numPanels"@) is Some && req_u32(fs, "sideLength"@) is Some
            && (match obj_get(fs, "positionData"@) {
            Some(w) => match as_arr(w) {
                Some(items) => forall|i: int|
                    0 <= i < items.len() ==> #[trigger] panel_position_of(items[i]) is Some,
                None => false,
            },
            None => false,
        }),
        None => false,
    }
}

/// Ties a decoded `Layout` to its document: the numbers match and the
/// panel records match element by element, in wire order.
pub open spec fn is_layout(l: Layout, v: JsonVal) -> bool {
    layout_shape(v) && match as_obj(v) {
        Some(fs) => l.num_panels == req_u32(fs, "numPanels"@)->0 && l.side_length == req_u32(
            fs,
            "sideLength"@,
        )->0 && (match as_arr(obj_get(fs, "positionData"@)->0) {
            Some(items) => l.position_data@.len() == items.len() && forall|i: int|
                0 <= i < items.len() ==> #[trigger] panel_position_of(items[i]) == Some(
                    l.position_data@[i],
                ),
            None => false,
        }),
        None => false,
    }
}

/// Decodes a `Layout`: succeeds exactly on documents of the documented
/// shape, keeping the panel records in wire order.
#[verifier::loop_isolation(false)]
pub fn decode_layout(v: &JsonVal) -> (r: Result<Layout, NanoLeafError>)
    ensures
        match r {
            Ok(l) => layout_shape(*v) && is_layout(l, *v),
            Err(e) => e == NanoLeafError::Decode && !layout_shape(*v),
        },
{
    let fields = match get_obj(v) {
        Some(f) => f,
        None => {
            return Err(NanoLeafError::Decode);
        },
    };
    let num_panels = match field_u32(fields, "numPanels") {
        Some(n) => n,
        None => {
            return Err(NanoLeafError::Decode);
        },
    };
    let side_length = match field_u32(fields, "sideLength") {
        Some(n) => n,
        None => {
            return Err(NanoLeafError::Decode);
        },
    };
    let arr_val = match get_field(fields, "positionData") {
        Some(w) => w,
        None => {
            return Err(NanoLeafError::Decode);
        },
    };
    let items = match get_arr(arr_val) {
        Some(a) => a,
        None => {
            return Err(NanoLeafError::Decode);
        },
    };
    let mut position_data: Vec<PanelPosition> = Vec::new();
    let mut i: usize = 0;
    while i < items.len()
        invariant
            i <= items@.len(),
            position_data@.len() == i,
            forall|j: int|
                0 <= j < i ==> #[trigger] panel_position_of(items@[j]) == Some(position_data@[j]),
        decreases items@.len() - i,
    {
        let p = match decode_panel_position(&items[i]) {
            Ok(p) => p,
            Err(e) => {
                return Err(e);
            },
        };
        position_data.push(p);
        i = i + 1;
    }
    Ok(Layout { num_panels, side_length, position_data })
}

/// The shape a `PanelLayout` document must have: a well-shaped `layout`
/// and a decodable `globalOrientation`.
pub open spec fn panel_layout_shape(v: JsonVal) -> bool {
    match as_obj(v) {
        Some(fs) => (match obj_get(fs, "layout"@) {
            Some(w) => layout_shape(w),
            None => false,
        }) && (match obj_get(fs, "globalOrientation"@) {
            Some(w) => bounded_value_of(w) is Some,
            None => false,
        }),
        None => false,
    }
}

/// Ties a decoded `PanelLayout` to its document.
pub open spec fn is_panel_layout(p: PanelLayout, v: JsonVal) -> bool {
    panel_layout_shape(v) && match as_obj(v) {
        Some(fs) => is_layout(p.layout, obj_get(fs, "layout"@)->0) && bounded_value_of(
            obj_get(fs, "globalOrientation"@)->0,
        ) == Some(p.global_orientation),
        None => false,
    }
}

/// Decodes a `PanelLayout`, exactly as `is_panel_layout` states.
pub fn decode_panel_layout(v: &JsonVal) -> (r: Result<PanelLayout, NanoLeafError>)
    ensures
        match r {
            Ok(p) => panel_layout_shape(*v) && is_panel_layout(p, *v),
            Err(e) => e == NanoLeafError::Decode && !panel_layout_shape(*v),
        },
{
    let fields = match get_obj(v) {
        Some(f) => f,
        None => {
            return Err(NanoLeafError::Decode);
        },
    };
    let layout = match get_field(fields, "layout") {
        Some(w) => match decode_layout(w) {
            Ok(l) => l,
            Err(e) => {
                return Err(e);
            },
        },
        None => {
            return Err(NanoLeafError::Decode);
        },
    };
    let global_orientation = match get_field(fields, "globalOrientation") {
        Some(w) => match decode_bounded_value(w) {
            Ok(b) => b,
            Err(e) => {
                return Err(e);
            },
        },
        None => {
            return Err(NanoLeafError::Decode);
        },
    };
    Ok(PanelLayout { layout, global_orientation })
}

} // verus!
