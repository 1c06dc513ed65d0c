//! The latest cursor shape the page asked for.
//!
//! The host owns the pointer, so the browser can only ask for a shape. A host
//! that ignores it shows a page that looks inert: no I-beam over text, no hand
//! over links.
use vstd::prelude::*;
use vstd::string::*;
use crate::surface::CursorShape;

verus! {

/// The shape the page asked for since the host last looked.
#[derive(Debug)]
pub struct LatestCursor(Option<CursorShape>);

impl View for LatestCursor {
    type V = Option<CursorShape>;

    closed spec fn view(&self) -> Option<CursorShape> {
        self.0
    }
}

impl Default for LatestCursor {
    fn default() -> (cursor: Self)
        ensures
            cursor@ is None,
    {
        LatestCursor(None)
    }
}

impl LatestCursor {
    /// The page asks for `shape`. Only the last shape counts.
    pub fn set(&mut self, shape: CursorShape)
        ensures
            final(self)@ == Some(shape),
    {
        self.0 = Some(shape);
    }

    /// Take the shape, if the page asked for one since the last call.
    pub fn take(&mut self) -> (shape: Option<CursorShape>)
        ensures
            shape == old(self)@,
            final(self)@ is None,
    {
        self.0.take()
    }
}

// The values of `cef_cursor_type_t` that have a shape.

pub const CT_POINTER: i32 = 0;

pub const CT_CROSS: i32 = 1;

pub const CT_HAND: i32 = 2;

pub const CT_IBEAM: i32 = 3;

pub const CT_WAIT: i32 = 4;

pub const CT_HELP: i32 = 5;

pub const CT_EASTRESIZE: i32 = 6;

pub const CT_NORTHRESIZE: i32 = 7;

pub const CT_NORTHEASTRESIZE: i32 = 8;

pub const CT_NORTHWESTRESIZE: i32 = 9;

pub const CT_SOUTHRESIZE: i32 = 10;

pub const CT_SOUTHEASTRESIZE: i32 = 11;

pub const CT_SOUTHWESTRESIZE: i32 = 12;

pub const CT_WESTRESIZE: i32 = 13;

pub const CT_NORTHSOUTHRESIZE: i32 = 14;

pub const CT_EASTWESTRESIZE: i32 = 15;

pub const CT_NORTHEASTSOUTHWESTRESIZE: i32 = 16;

pub const CT_NORTHWESTSOUTHEASTRESIZE: i32 = 17;

pub const CT_COLUMNRESIZE: i32 = 18;

pub const CT_ROWRESIZE: i32 = 19;

pub const CT_MIDDLEPANNING: i32 = 20;

pub const CT_MOVE: i32 = 29;

pub const CT_VERTICALTEXT: i32 = 30;

pub const CT_CELL: i32 = 31;

pub const CT_PROGRESS: i32 = 34;

pub const CT_NODROP: i32 = 35;

pub const CT_NONE: i32 = 37;

pub const CT_NOTALLOWED: i32 = 38;

pub const CT_ZOOMIN: i32 = 39;

pub const CT_ZOOMOUT: i32 = 40;

pub const CT_GRAB: i32 = 41;

pub const CT_GRABBING: i32 = 42;

pub const CT_DND_NONE: i32 = 46;

/// The types that share a shape.
pub open spec fn has_shape(type_: i32, shape: CursorShape) -> bool {
    match shape {
        CursorShape::Default => type_ == CT_POINTER,
        CursorShape::Pointer => type_ == CT_HAND,
        CursorShape::Text => type_ == CT_IBEAM || type_ == CT_VERTICALTEXT,
        CursorShape::Crosshair => type_ == CT_CROSS || type_ == CT_CELL,
        CursorShape::Wait => type_ == CT_WAIT,
        CursorShape::Progress => type_ == CT_PROGRESS,
        CursorShape::Help => type_ == CT_HELP,
        CursorShape::Move => type_ == CT_MOVE || type_ == CT_MIDDLEPANNING,
        CursorShape::NotAllowed => type_ == CT_NOTALLOWED || type_ == CT_NODROP || type_
            == CT_DND_NONE,
        CursorShape::ZoomIn => type_ == CT_ZOOMIN,
        CursorShape::ZoomOut => type_ == CT_ZOOMOUT,
        CursorShape::Grab => type_ == CT_GRAB,
        CursorShape::Grabbing => type_ == CT_GRABBING,
        CursorShape::ResizeNs => type_ == CT_NORTHSOUTHRESIZE || type_ == CT_NORTHRESIZE || type_
            == CT_SOUTHRESIZE || type_ == CT_ROWRESIZE,
        CursorShape::ResizeEw => type_ == CT_EASTWESTRESIZE || type_ == CT_EASTRESIZE || type_
            == CT_WESTRESIZE || type_ == CT_COLUMNRESIZE,
        CursorShape::ResizeNeSw => type_ == CT_NORTHEASTSOUTHWESTRESIZE || type_
            == CT_NORTHEASTRESIZE || type_ == CT_SOUTHWESTRESIZE,
        CursorShape::ResizeNwSe => type_ == CT_NORTHWESTSOUTHEASTRESIZE || type_
            == CT_NORTHWESTRESIZE || type_ == CT_SOUTHEASTRESIZE,
        CursorShape::ResizeAll => false,
        CursorShape::Custom(name) => if type_ == CT_NONE {
            name@ == "none"@
        } else {
            is_unnamed(type_) && name@ == "cef-other"@
        },
    }
}

/// The types without a shape of their own. Most pan, and some belong to menus
/// and to drag and drop.
pub open spec fn is_unnamed(type_: i32) -> bool {
    type_ < 0 || 21 <= type_ <= 28 || type_ == 32 || type_ == 33 || type_ == 36 || 43 <= type_ <= 45
        || type_ >= 47
}

/// The shape of a cursor type.
///
/// Two names are crossed: the type `POINTER` is the ordinary arrow, while the
/// shape `Pointer` is the link hand, whose type is `HAND`. A type without a shape
/// of its own is named rather than shown as the arrow, and so is the type that
/// hides the cursor.
pub fn from_cef(type_: i32) -> (shape: CursorShape)
    ensures
        has_shape(type_, shape),
{
    if type_ == CT_POINTER {
        CursorShape::Default
    } else if type_ == CT_HAND {
        CursorShape::Pointer
    } else if type_ == CT_IBEAM || type_ == CT_VERTICALTEXT {
        CursorShape::Text
    } else if type_ == CT_CROSS || type_ == CT_CELL {
        CursorShape::Crosshair
    } else if type_ == CT_WAIT {
        CursorShape::Wait
    } else if type_ == CT_PROGRESS {
        CursorShape::Progress
    } else if type_ == CT_HELP {
        CursorShape::Help
    } else if type_ == CT_MOVE || type_ == CT_MIDDLEPANNING {
        CursorShape::Move
    } else if type_ == CT_NOTALLOWED || type_ == CT_NODROP || type_ == CT_DND_NONE {
        CursorShape::NotAllowed
    } else if type_ == CT_ZOOMIN {
        CursorShape::ZoomIn
    } else if type_ == CT_ZOOMOUT {
        CursorShape::ZoomOut
    } else if type_ == CT_GRAB {
        CursorShape::Grab
    } else if type_ == CT_GRABBING {
        CursorShape::Grabbing
    } else if type_ == CT_NORTHSOUTHRESIZE || type_ == CT_NORTHRESIZE || type_ == CT_SOUTHRESIZE
        || type_ == CT_ROWRESIZE {
        CursorShape::ResizeNs
    } else if type_ == CT_EASTWESTRESIZE || type_ == CT_EASTRESIZE || type_ == CT_WESTRESIZE
        || type_ == CT_COLUMNRESIZE {
        CursorShape::ResizeEw
    } else if type_ == CT_NORTHEASTSOUTHWESTRESIZE || type_ == CT_NORTHEASTRESIZE || type_
        == CT_SOUTHWESTRESIZE {
        CursorShape::ResizeNeSw
    } else if type_ == CT_NORTHWESTSOUTHEASTRESIZE || type_ == CT_NORTHWESTRESIZE || type_
        == CT_SOUTHEASTRESIZE {
        CursorShape::ResizeNwSe
    } else if type_ == CT_NONE {
        CursorShape::Custom("none".to_owned())
    } else {
        CursorShape::Custom("cef-other".to_owned())
    }
}

/// A cursor type has one shape: two shapes of it agree, down to the name of a
/// custom one.
pub proof fn law_a_cursor_type_has_one_shape(type_: i32, left: CursorShape, right: CursorShape)
    requires
        has_shape(type_, left),
        has_shape(type_, right),
    ensures
        match (left, right) {
            (CursorShape::Custom(a), CursorShape::Custom(b)) => a@ == b@,
            _ => left == right,
        },
{
}

/// Each shape is shown for the cursor types that ask for it, and for no other.
pub proof fn law_cursor_types_ask_for_their_shape(type_: i32, shape: CursorShape)
    requires
        call_ensures(from_cef, (type_,), shape),
    ensures
        shape is Default <==> type_ == 0,
        shape is Pointer <==> type_ == 2,
        shape is Text <==> type_ == 3 || type_ == 30,
        shape is Crosshair <==> type_ == 1 || type_ == 31,
        shape is Wait <==> type_ == 4,
        shape is Progress <==> type_ == 34,
        shape is Help <==> type_ == 5,
        shape is Move <==> type_ == 29 || type_ == 20,
        shape is NotAllowed <==> type_ == 38 || type_ == 35 || type_ == 46,
        shape is ZoomIn <==> type_ == 39,
        shape is ZoomOut <==> type_ == 40,
        shape is Grab <==> type_ == 41,
        shape is Grabbing <==> type_ == 42,
        shape is ResizeNs <==> type_ == 14 || type_ == 7 || type_ == 10 || type_ == 19,
        shape is ResizeEw <==> type_ == 15 || type_ == 6 || type_ == 13 || type_ == 18,
        shape is ResizeNeSw <==> type_ == 16 || type_ == 8 || type_ == 12,
        shape is ResizeNwSe <==> type_ == 17 || type_ == 9 || type_ == 11,
        !(shape is ResizeAll),
        shape matches CursorShape::Custom(name) ==> name@ == (if type_ == 37 {
            "none"@
        } else {
            "cef-other"@
        }),
{
}

/// The shape that was set last is taken once, and none is there after that.
pub proof fn law_the_latest_shape_is_taken_once(
    before: LatestCursor,
    set: LatestCursor,
    after: LatestCursor,
    shape: CursorShape,
    taken: Option<CursorShape>,
)
    requires
        exists|cursor: &mut LatestCursor|
            *cursor == before && *final(cursor) == set && #[trigger] call_ensures(
                LatestCursor::set,
                (cursor, shape),
                (),
            ),
        exists|cursor: &mut LatestCursor|
            *cursor == set && *final(cursor) == after && #[trigger] call_ensures(
                LatestCursor::take,
                (cursor,),
                taken,
            ),
    ensures
        taken == Some(shape),
        after@ is None,
{
}

} // verus!
