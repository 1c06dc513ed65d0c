//! The popup widget's placement.
use welding::native_frame::{CpuBitmap, NativeFrame, PendingFrameSlot, TextureFormat};
use welding::popup::PopupState;
use welding::{PhysicalSize, PopupRect};

#[test]
fn hidden_popup_has_no_placement() {
    let mut state = PopupState::default();
    state.set_rect(PopupRect { x: 10, y: 20, width: 100, height: 50 });
    assert_eq!(state.rect_if_visible(), None);

    state.set_visible(true);
    assert_eq!(
        state.rect_if_visible(),
        Some(PopupRect { x: 10, y: 20, width: 100, height: 50 })
    );

    state.set_visible(false);
    assert_eq!(state.rect_if_visible(), None);
}

#[test]
fn visible_but_unsized_popup_has_no_placement() {
    let mut state = PopupState::default();
    state.set_visible(true);
    assert_eq!(state.rect_if_visible(), None);
}

#[test]
fn a_hidden_popup_loses_its_frame() {
    let mut state = PopupState::default();
    let mut slot: PendingFrameSlot<i32> = PendingFrameSlot::default();
    slot.store(NativeFrame::CpuBitmap(CpuBitmap {
        data: vec![],
        size: PhysicalSize::new(1, 1),
        format: TextureFormat::Bgra8Unorm,
        generation: 1,
    }));
    state.on_popup_show(&mut slot, true);
    assert!(slot.has_frame());
    state.on_popup_show(&mut slot, false);
    assert!(!slot.has_frame());
    assert!(!state.is_visible());
}

#[test]
fn a_negative_side_is_no_side() {
    let mut state = PopupState::default();
    state.set_visible(true);
    state.on_popup_size(1, 2, -3, 4);
    assert_eq!(state.rect_if_visible(), None);
    state.on_popup_size(1, 2, 3, 4);
    assert_eq!(state.rect_if_visible(), Some(PopupRect { x: 1, y: 2, width: 3, height: 4 }));
}
