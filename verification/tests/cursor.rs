//! Cursor shapes.
use welding::cursor::{
    from_cef, LatestCursor, CT_CELL, CT_COLUMNRESIZE, CT_DND_NONE, CT_GRABBING, CT_HAND, CT_IBEAM,
    CT_MIDDLEPANNING, CT_NONE, CT_NORTHEASTRESIZE, CT_POINTER, CT_ROWRESIZE, CT_SOUTHEASTRESIZE,
};
use welding::CursorShape;

#[test]
fn latest_cursor_yields_once_per_change() {
    let mut c = LatestCursor::default();
    assert_eq!(c.take(), None);
    c.set(CursorShape::Text);
    assert_eq!(c.take(), Some(CursorShape::Text));
    assert_eq!(c.take(), None, "a shape should only be reported once");
}

#[test]
fn the_crossed_pointer_names_map_the_right_way_round() {
    // POINTER is the arrow; the CSS pointer is the link hand.
    assert_eq!(from_cef(CT_POINTER), CursorShape::Default);
    assert_eq!(from_cef(CT_HAND), CursorShape::Pointer);
    assert_eq!(from_cef(CT_IBEAM), CursorShape::Text);
}

#[test]
fn types_share_shapes() {
    assert_eq!(from_cef(CT_CELL), CursorShape::Crosshair);
    assert_eq!(from_cef(CT_MIDDLEPANNING), CursorShape::Move);
    assert_eq!(from_cef(CT_DND_NONE), CursorShape::NotAllowed);
    assert_eq!(from_cef(CT_GRABBING), CursorShape::Grabbing);
    assert_eq!(from_cef(CT_ROWRESIZE), CursorShape::ResizeNs);
    assert_eq!(from_cef(CT_COLUMNRESIZE), CursorShape::ResizeEw);
    assert_eq!(from_cef(CT_NORTHEASTRESIZE), CursorShape::ResizeNeSw);
    assert_eq!(from_cef(CT_SOUTHEASTRESIZE), CursorShape::ResizeNwSe);
}

#[test]
fn what_has_no_shape_is_named() {
    assert_eq!(from_cef(CT_NONE), CursorShape::Custom("none".to_owned()));
    for unnamed in [-1, 21, 33, 45, 50, 1000] {
        assert_eq!(from_cef(unnamed), CursorShape::Custom("cef-other".to_owned()));
    }
}
