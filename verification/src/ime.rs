//! Where composed text sits.
//!
//! The host owns the input method, so it needs to know where the text being
//! composed is on screen: that is where the candidate window goes.
use vstd::prelude::*;
use crate::popup::{length, to_length};
use crate::surface::{ImeComposition, PopupRect};

verus! {

/// The composition that changed since the host last looked.
#[derive(Debug)]
pub struct LatestComposition(Option<ImeComposition>);

impl View for LatestComposition {
    type V = Option<ImeComposition>;

    closed spec fn view(&self) -> Option<ImeComposition> {
        self.0
    }
}

impl Default for LatestComposition {
    fn default() -> (latest: Self)
        ensures
            latest@ is None,
    {
        LatestComposition(None)
    }
}

impl LatestComposition {
    /// The composition moved. Only the last place counts.
    pub fn set(&mut self, composition: ImeComposition)
        ensures
            final(self)@ == Some(composition),
    {
        self.0 = Some(composition);
    }

    /// Take the composition, if it moved since the last call.
    pub fn take(&mut self) -> (composition: Option<ImeComposition>)
        ensures
            composition == old(self)@,
            final(self)@ is None,
    {
        self.0.take()
    }
}

/// Whether a rectangle covers any pixel.
pub open spec fn has_area(rect: PopupRect) -> bool {
    rect.width > 0 && rect.height > 0
}

/// The edges of a rectangle.
pub struct Edges {
    pub left: int,
    pub top: int,
    pub right: int,
    pub bottom: int,
}

/// The edges of one rectangle.
pub open spec fn edges(rect: PopupRect) -> Edges {
    Edges {
        left: rect.x as int,
        top: rect.y as int,
        right: rect.x + rect.width,
        bottom: rect.y + rect.height,
    }
}

/// The smaller of two numbers.
pub open spec fn lesser(a: int, b: int) -> int {
    if a < b {
        a
    } else {
        b
    }
}

/// The greater of two numbers.
pub open spec fn greater(a: int, b: int) -> int {
    if a < b {
        b
    } else {
        a
    }
}

/// The edges around both.
pub open spec fn around(a: Edges, b: Edges) -> Edges {
    Edges {
        left: lesser(a.left, b.left),
        top: lesser(a.top, b.top),
        right: greater(a.right, b.right),
        bottom: greater(a.bottom, b.bottom),
    }
}

/// The edges around every rectangle that covers a pixel.
pub open spec fn hull(rects: Seq<PopupRect>) -> Option<Edges>
    decreases rects.len(),
{
    if rects.len() == 0 {
        None
    } else if !has_area(rects.last()) {
        hull(rects.drop_last())
    } else {
        match hull(rects.drop_last()) {
            Some(others) => Some(around(others, edges(rects.last()))),
            None => Some(edges(rects.last())),
        }
    }
}

/// Whether the sides and edges of every rectangle, and the extent of all of them,
/// are coordinates.
pub open spec fn measurable(rects: Seq<PopupRect>) -> bool {
    &&& forall|i: int|
        0 <= i < rects.len() && has_area(#[trigger] rects[i]) ==> {
            &&& rects[i].width <= i32::MAX
            &&& rects[i].height <= i32::MAX
            &&& edges(rects[i]).right <= i32::MAX
            &&& edges(rects[i]).bottom <= i32::MAX
        }
    &&& hull(rects) matches Some(all) ==> {
        &&& all.right - all.left <= i32::MAX
        &&& all.bottom - all.top <= i32::MAX
    }
}

/// The rectangle around every rectangle that covers a pixel.
pub open spec fn union_of(rects: Seq<PopupRect>) -> Option<PopupRect> {
    match hull(rects) {
        Some(all) => Some(
            PopupRect {
                x: all.left as i32,
                y: all.top as i32,
                width: (all.right - all.left) as u32,
                height: (all.bottom - all.top) as u32,
            },
        ),
        None => None,
    }
}

/// The rectangle around the characters of a composition, under which a host puts
/// its candidate window. Rectangles without area are padding and do not count:
/// one at the origin would drag the window into the corner.
pub fn bounds_union(rects: &Vec<PopupRect>) -> (bounds: Option<PopupRect>)
    requires
        measurable(rects@),
    ensures
        bounds == union_of(rects@),
{
    let mut found = false;
    let mut left: i64 = 0;
    let mut top: i64 = 0;
    let mut right: i64 = 0;
    let mut bottom: i64 = 0;
    let mut i: usize = 0;
    while i < rects.len()
        invariant
            i <= rects.len(),
            measurable(rects@),
            found == (hull(rects@.take(i as int)) is Some),
            found ==> hull(rects@.take(i as int)) == Some(
                Edges {
                    left: left as int,
                    top: top as int,
                    right: right as int,
                    bottom: bottom as int,
                },
            ),
            found ==> left < right && top < bottom,
            i32::MIN <= left <= i32::MAX,
            i32::MIN <= top <= i32::MAX,
            i32::MIN <= right <= i32::MAX,
            i32::MIN <= bottom <= i32::MAX,
        decreases rects.len() - i,
    {
        let rect: PopupRect = rects[i];
        assert(rects@.take(i + 1).drop_last() == rects@.take(i as int));
        assert(rects@.take(i + 1).last() == rect);
        if rect.width > 0 && rect.height > 0 {
            assert(has_area(rects@[i as int]));
            let l: i64 = rect.x as i64;
            let t: i64 = rect.y as i64;
            let r: i64 = l + rect.width as i64;
            let b: i64 = t + rect.height as i64;
            if !found {
                found = true;
                left = l;
                top = t;
                right = r;
                bottom = b;
            } else {
                if l <= left {
                    left = l;
                }
                if t <= top {
                    top = t;
                }
                if r > right {
                    right = r;
                }
                if b > bottom {
                    bottom = b;
                }
            }
        }
        i += 1;
    }
    assert(rects@.take(i as int) == rects@);
    if !found {
        return None;
    }
    Some(
        PopupRect {
            x: left as i32,
            y: top as i32,
            width: (right - left) as u32,
            height: (bottom - top) as u32,
        },
    )
}

/// Whether `edges` enclose a rectangle.
pub open spec fn encloses(outer: Edges, rect: PopupRect) -> bool {
    &&& outer.left <= edges(rect).left
    &&& outer.top <= edges(rect).top
    &&& edges(rect).right <= outer.right
    &&& edges(rect).bottom <= outer.bottom
}

/// The union encloses every rectangle that covers a pixel, and so does nothing
/// smaller. Without such a rectangle there is no union.
pub proof fn law_the_union_is_the_smallest_enclosure(rects: Seq<PopupRect>, other: Edges)
    ensures
        hull(rects) is None <==> forall|i: int|
            0 <= i < rects.len() ==> !has_area(#[trigger] rects[i]),
        hull(rects) matches Some(all) ==> {
            &&& forall|i: int|
                0 <= i < rects.len() && has_area(#[trigger] rects[i]) ==> encloses(all, rects[i])
            &&& (forall|i: int|
                0 <= i < rects.len() && has_area(#[trigger] rects[i]) ==> encloses(other, rects[i]))
                ==> other.left <= all.left && other.top <= all.top && all.right <= other.right
                && all.bottom <= other.bottom
        },
    decreases rects.len(),
{
    if rects.len() > 0 {
        let rest = rects.drop_last();
        let last = rects.last();
        law_the_union_is_the_smallest_enclosure(rest, other);
        assert(rects[rects.len() - 1] == last);
        assert forall|i: int| 0 <= i < rest.len() implies #[trigger] rest[i] == rects[i] by {
        }
        if hull(rects) is None {
            assert forall|i: int| 0 <= i < rects.len() implies !has_area(#[trigger] rects[i]) by {
                if i < rest.len() {
                    assert(rest[i] == rects[i]);
                }
            }
        } else {
            let all = hull(rects)->0;
            if hull(rest) is Some {
                let most = hull(rest)->0;
                assert forall|i: int|
                    0 <= i < rects.len() && has_area(#[trigger] rects[i]) implies encloses(
                    all,
                    rects[i],
                ) by {
                    if i < rest.len() {
                        assert(encloses(most, rest[i]));
                    }
                }
                let i = choose|i: int| 0 <= i < rest.len() && has_area(#[trigger] rest[i]);
                assert(has_area(rects[i]));
            } else {
                assert forall|i: int|
                    0 <= i < rects.len() && has_area(#[trigger] rects[i]) implies encloses(
                    all,
                    rects[i],
                ) by {
                    if i < rest.len() {
                        assert(!has_area(rest[i]));
                    }
                }
            }
            if forall|i: int|
                0 <= i < rects.len() && has_area(#[trigger] rects[i]) ==> encloses(
                    other,
                    rects[i],
                ) {
                assert forall|i: int|
                    0 <= i < rest.len() && has_area(#[trigger] rest[i]) implies encloses(
                    other,
                    rest[i],
                ) by {
                    assert(has_area(rects[i]));
                }
                if has_area(last) {
                    assert(encloses(other, rects[rects.len() - 1]));
                }
            }
        }
    }
}

/// A rectangle as the browser reports it, with sides that may be negative.
#[derive(Clone, Copy, Debug, PartialEq, Eq, Structural)]
pub struct CharacterBounds {
    pub x: i32,
    pub y: i32,
    pub width: i32,
    pub height: i32,
}

/// The rectangles that the browser reported. A negative side counts as none.
pub open spec fn bounded(characters: Seq<CharacterBounds>) -> Seq<PopupRect> {
    characters.map_values(
        |c: CharacterBounds|
            PopupRect { x: c.x, y: c.y, width: length(c.width), height: length(c.height) },
    )
}

/// The rectangle around the characters that the browser reported.
pub fn composition_bounds(characters: &Vec<CharacterBounds>) -> (bounds: Option<PopupRect>)
    requires
        measurable(bounded(characters@)),
    ensures
        bounds == union_of(bounded(characters@)),
{
    let mut rects: Vec<PopupRect> = Vec::new();
    let mut i: usize = 0;
    while i < characters.len()
        invariant
            i <= characters.len(),
            rects@ == bounded(characters@).take(i as int),
        decreases characters.len() - i,
    {
        let c: CharacterBounds = characters[i];
        rects.push(
            PopupRect { x: c.x, y: c.y, width: to_length(c.width), height: to_length(c.height) },
        );
        i += 1;
        assert(rects@ =~= bounded(characters@).take(i as int));
    }
    assert(rects@ =~= bounded(characters@));
    bounds_union(&rects)
}

/// The bounds of several rectangles hold each of them that covers something, and
/// touch one of them on every side. Without such a rectangle there are none.
pub proof fn law_bounds_hold_every_rectangle(rects: Vec<PopupRect>, bounds: Option<PopupRect>)
    requires
        measurable(rects@),
        call_ensures(bounds_union, (&rects,), bounds),
    ensures
        bounds is None <==> forall|i: int|
            0 <= i < rects@.len() ==> (#[trigger] rects@[i]).width == 0 || rects@[i].height == 0,
        bounds matches Some(all) ==> forall|i: int|
            0 <= i < rects@.len() && (#[trigger] rects@[i]).width > 0 && rects@[i].height > 0 ==> {
                &&& all.x <= rects@[i].x
                &&& all.y <= rects@[i].y
                &&& rects@[i].x + rects@[i].width <= all.x + all.width
                &&& rects@[i].y + rects@[i].height <= all.y + all.height
            },
        bounds matches Some(all) ==> exists|l: int, t: int, r: int, b: int|
            touches(rects@, all, l, t, r, b),
{
    let all = hull(rects@);
    law_the_union_is_the_smallest_enclosure(
        rects@,
        match all {
            Some(all) => all,
            None => Edges { left: 0, top: 0, right: 0, bottom: 0 },
        },
    );
    if bounds is None {
        assert forall|i: int| 0 <= i < rects@.len() implies (#[trigger] rects@[i]).width == 0
            || rects@[i].height == 0 by {
            assert(!has_area(rects@[i]));
        }
    } else {
        let all = all->0;
        lemma_hull_touches(rects@);
        let (l, t, r, b) = choose|l: int, t: int, r: int, b: int|
            edges_touch(rects@, all, l, t, r, b);
        assert(edges_touch(rects@, all, l, t, r, b));
        assert(encloses(all, rects@[l]));
        assert(encloses(all, rects@[t]));
        assert(has_area(rects@[l]));
        assert(touches(rects@, bounds->0, l, t, r, b));
        assert forall|i: int|
            0 <= i < rects@.len() && (#[trigger] rects@[i]).width > 0 && rects@[i].height
                > 0 implies {
            &&& bounds->0.x <= rects@[i].x
            &&& bounds->0.y <= rects@[i].y
            &&& rects@[i].x + rects@[i].width <= bounds->0.x + bounds->0.width
            &&& rects@[i].y + rects@[i].height <= bounds->0.y + bounds->0.height
        } by {
            assert(has_area(rects@[i]));
            assert(encloses(all, rects@[i]));
        }
    }
}

/// Whether `l`, `t`, `r` and `b` are rectangles that reach the sides of `all`.
pub open spec fn touches(
    rects: Seq<PopupRect>,
    all: PopupRect,
    l: int,
    t: int,
    r: int,
    b: int,
) -> bool {
    &&& 0 <= l < rects.len() && rects[l].x == all.x
    &&& 0 <= t < rects.len() && rects[t].y == all.y
    &&& 0 <= r < rects.len() && rects[r].x + rects[r].width == all.x + all.width
    &&& 0 <= b < rects.len() && rects[b].y + rects[b].height == all.y + all.height
}

spec fn edges_touch(rects: Seq<PopupRect>, all: Edges, l: int, t: int, r: int, b: int) -> bool {
    &&& 0 <= l < rects.len() && has_area(rects[l]) && rects[l].x == all.left
    &&& 0 <= t < rects.len() && has_area(rects[t]) && rects[t].y == all.top
    &&& 0 <= r < rects.len() && has_area(rects[r]) && rects[r].x + rects[r].width == all.right
    &&& 0 <= b < rects.len() && has_area(rects[b]) && rects[b].y + rects[b].height == all.bottom
}

proof fn lemma_hull_touches(rects: Seq<PopupRect>)
    ensures
        hull(rects) matches Some(all) ==> exists|l: int, t: int, r: int, b: int|
            edges_touch(rects, all, l, t, r, b),
    decreases rects.len(),
{
    if rects.len() > 0 {
        let rest = rects.drop_last();
        let n = rects.len() - 1;
        lemma_hull_touches(rest);
        if hull(rest) is Some {
            let most = hull(rest)->0;
            let (l, t, r, b) = choose|l: int, t: int, r: int, b: int|
                edges_touch(rest, most, l, t, r, b);
            assert(edges_touch(rest, most, l, t, r, b));
            assert(rest[l] == rects[l] && rest[t] == rects[t] && rest[r] == rects[r] && rest[b]
                == rects[b]);
            let all = hull(rects)->0;
            if has_area(rects.last()) {
                let e = edges(rects.last());
                assert(edges_touch(
                    rects,
                    all,
                    if most.left < e.left { l } else { n },
                    if most.top < e.top { t } else { n },
                    if most.right < e.right { n } else { r },
                    if most.bottom < e.bottom { n } else { b },
                ));
            } else {
                assert(edges_touch(rects, all, l, t, r, b));
            }
        } else if has_area(rects.last()) {
            assert(edges_touch(rects, hull(rects)->0, n, n, n, n));
        }
    }
}

/// The bounds of composed characters are those of their rectangles; a character
/// with a negative side covers nothing.
pub proof fn law_composed_characters_are_bounded(
    characters: Vec<CharacterBounds>,
    rects: Vec<PopupRect>,
    bounds: Option<PopupRect>,
    union: Option<PopupRect>,
)
    requires
        measurable(rects@),
        rects@.len() == characters@.len(),
        forall|i: int|
            0 <= i < rects@.len() ==> {
                let (rect, c) = (#[trigger] rects@[i], characters@[i]);
                &&& rect.x == c.x
                &&& rect.y == c.y
                &&& rect.width == (if c.width < 0 { 0 } else { c.width as int })
                &&& rect.height == (if c.height < 0 { 0 } else { c.height as int })
            },
        call_ensures(composition_bounds, (&characters,), bounds),
        call_ensures(bounds_union, (&rects,), union),
    ensures
        bounds == union,
{
    assert(bounded(characters@) =~= rects@);
}

} // verus!
