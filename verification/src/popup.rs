//! The popup widget: where it is shown, and whether.
//!
//! Size and visibility arrive independently of painting. A popup is hidden
//! without painting anything, so a host that waits for frames alone would leave
//! a stale dropdown on screen.
use vstd::prelude::*;
use crate::native_frame::PendingFrameSlot;
use crate::surface::PopupRect;

verus! {

/// Where the popup widget is, and whether it shows.
#[derive(Debug)]
pub struct PopupState {
    visible: bool,
    rect: PopupRect,
}

impl Default for PopupState {
    fn default() -> (state: Self)
        ensures
            !state.shown(),
            state.rect() == (PopupRect { x: 0, y: 0, width: 0, height: 0 }),
    {
        PopupState { visible: false, rect: PopupRect::default() }
    }
}

/// `side` as a length, which is not negative.
pub open spec fn length(side: i32) -> u32 {
    if side < 0 {
        0
    } else {
        side as u32
    }
}

/// `side` as a length, which is not negative.
pub fn to_length(side: i32) -> (converted: u32)
    ensures
        converted == length(side),
{
    if side < 0 {
        0
    } else {
        side as u32
    }
}

impl PopupState {
    /// Whether the popup shows.
    pub closed spec fn shown(&self) -> bool {
        self.visible
    }

    /// Where the popup was last placed.
    pub closed spec fn rect(&self) -> PopupRect {
        self.rect
    }

    /// Where a host should draw the popup: nowhere while it is hidden, and
    /// nowhere while it covers no pixel.
    pub open spec fn placement(&self) -> Option<PopupRect> {
        if self.shown() && self.rect().width > 0 && self.rect().height > 0 {
            Some(self.rect())
        } else {
            None
        }
    }

    pub fn set_visible(&mut self, visible: bool)
        ensures
            final(self).shown() == visible,
            final(self).rect() == old(self).rect(),
    {
        self.visible = visible;
    }

    pub fn set_rect(&mut self, rect: PopupRect)
        ensures
            final(self).rect() == rect,
            final(self).shown() == old(self).shown(),
    {
        self.rect = rect;
    }

    pub fn is_visible(&self) -> (visible: bool)
        ensures
            visible == self.shown(),
    {
        self.visible
    }

    /// The placement a host should draw at, or `None` when nothing is open.
    ///
    /// A popup may be shown before it is sized, and a rectangle without area is
    /// not something a host can draw.
    pub fn rect_if_visible(&self) -> (rect: Option<PopupRect>)
        ensures
            rect == self.placement(),
    {
        if !self.is_visible() {
            return None;
        }
        if self.rect.width > 0 && self.rect.height > 0 {
            Some(self.rect)
        } else {
            None
        }
    }

    /// The popup is shown or hidden. A hidden popup never paints again, so its
    /// last frame is dropped with it.
    pub fn on_popup_show<H>(&mut self, slot: &mut PendingFrameSlot<H>, show: bool)
        ensures
            final(self).shown() == show,
            final(self).rect() == old(self).rect(),
            final(slot).frame() == (if show {
                old(slot).frame()
            } else {
                None
            }),
            final(slot).last_generation() == old(slot).last_generation(),
    {
        self.set_visible(show);
        if !show {
            let _ = slot.take();
        }
    }

    /// The popup is placed. A negative side counts as none.
    pub fn on_popup_size(&mut self, x: i32, y: i32, width: i32, height: i32)
        ensures
            final(self).rect() == (PopupRect {
                x,
                y,
                width: length(width),
                height: length(height),
            }),
            final(self).shown() == old(self).shown(),
    {
        self.set_rect(PopupRect { x, y, width: to_length(width), height: to_length(height) });
    }
}

/// A popup has a place exactly where it is shown and covers something, and the
/// place is the one the browser gave.
pub proof fn law_a_popup_is_placed_while_it_is_shown(
    state: PopupState,
    rect: Option<PopupRect>,
)
    requires
        call_ensures(PopupState::rect_if_visible, (&state,), rect),
    ensures
        rect is Some <==> state.shown() && state.rect().width > 0 && state.rect().height > 0,
        rect matches Some(rect) ==> rect == state.rect(),
{
}

/// A popup is as large as the browser says, and a negative side is no side. It is
/// where the browser says, and as visible as before.
pub proof fn law_a_popup_is_as_large_as_it_says(
    before: PopupState,
    after: PopupState,
    x: i32,
    y: i32,
    width: i32,
    height: i32,
)
    requires
        exists|state: &mut PopupState|
            *state == before && *final(state) == after && #[trigger] call_ensures(
                PopupState::on_popup_size,
                (state, x, y, width, height),
                (),
            ),
    ensures
        after.rect().x == x,
        after.rect().y == y,
        width >= 0 ==> after.rect().width == width,
        width < 0 ==> after.rect().width == 0,
        height >= 0 ==> after.rect().height == height,
        height < 0 ==> after.rect().height == 0,
        after.shown() == before.shown(),
{
}

/// Hiding a popup drops the frame that waits for it; showing one keeps it.
pub proof fn law_a_hidden_popup_keeps_no_frame<H>(
    before: PopupState,
    after: PopupState,
    slot_before: PendingFrameSlot<H>,
    slot: PendingFrameSlot<H>,
    show: bool,
)
    requires
        exists|state: &mut PopupState, pending: &mut PendingFrameSlot<H>|
            *state == before && *final(state) == after && *pending == slot_before && *final(pending)
                == slot && #[trigger] call_ensures(
                PopupState::on_popup_show::<H>,
                (state, pending, show),
                (),
            ),
    ensures
        after.shown() <==> show,
        after.rect() == before.rect(),
        show ==> slot.frame() == slot_before.frame(),
        !show ==> slot.frame() is None,
{
}

} // verus!
