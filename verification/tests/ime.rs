//! Where composed text sits.
use welding::ime::{bounds_union, composition_bounds, CharacterBounds, LatestComposition};
use welding::{ImeComposition, PopupRect};

fn r(x: i32, y: i32, w: u32, h: u32) -> PopupRect {
    PopupRect { x, y, width: w, height: h }
}

#[test]
fn union_spans_every_character() {
    let got = bounds_union(&vec![r(10, 20, 8, 16), r(18, 20, 8, 16), r(26, 20, 8, 16)]);
    assert_eq!(got, Some(r(10, 20, 24, 16)));
}

#[test]
fn empty_rects_are_ignored_not_counted() {
    // Padding with zero-size rects would drag the union to the origin.
    assert_eq!(
        bounds_union(&vec![r(0, 0, 0, 0), r(40, 60, 10, 12)]),
        Some(r(40, 60, 10, 12))
    );
    assert_eq!(bounds_union(&vec![]), None);
    assert_eq!(bounds_union(&vec![r(0, 0, 0, 0)]), None);
}

#[test]
fn the_union_takes_the_outermost_edges() {
    assert_eq!(
        bounds_union(&vec![r(-5, 7, 3, 2), r(1, -9, 4, 1), r(2, 2, 0, 90)]),
        Some(r(-5, -9, 10, 18))
    );
}

#[test]
fn negative_sides_count_as_none() {
    let c = |x: i32, y: i32, width: i32, height: i32| CharacterBounds { x, y, width, height };
    assert_eq!(
        composition_bounds(&vec![c(0, 0, -4, 9), c(40, 60, 10, 12)]),
        Some(r(40, 60, 10, 12))
    );
    assert_eq!(composition_bounds(&vec![c(3, 3, 5, -1)]), None);
}

#[test]
fn a_composition_is_reported_once_per_move() {
    let mut latest = LatestComposition::default();
    assert_eq!(latest.take(), None);
    let at = |x: i32| ImeComposition { bounds: r(x, 0, 1, 1), selection_start: 0, selection_end: 1 };
    latest.set(at(1));
    latest.set(at(2));
    assert_eq!(latest.take(), Some(at(2)));
    assert_eq!(latest.take(), None);
}
