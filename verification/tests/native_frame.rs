//! Native frames, the descriptors behind them, and how they are imported.
use std::cell::Cell;
use std::rc::Rc;
use welding::dmabuf::{
    deduplicated_raw_planes, DmaBufImage, DmaBufPlane, FdIdentity, DRM_FORMAT_MOD_INVALID,
    DRM_FORMAT_MOD_LINEAR,
};
use welding::import::{
    check_copier, copy_progress, copy_settled, graft_planes_from_weld, ImportPlane, ImportRoute,
    MetalPixelFormat, WgpuTextureImporter, COPY_TIMEOUT,
};
use welding::native_frame::{
    ColorType, CpuBitmap, Dx12SharedTexture, ImportError, InteropBackend, MetalTextureRef,
    NativeFrame, NativeFrameKind, NativeFramePixelFormat, PendingFrameSlot, TextureFormat,
};
use welding::{PhysicalSize, Platform};

/// A descriptor that says when it is closed.
#[derive(Debug)]
struct Fd(Rc<Cell<bool>>);

impl Fd {
    fn open() -> (Fd, Rc<Cell<bool>>) {
        let closed = Rc::new(Cell::new(false));
        (Fd(closed.clone()), closed)
    }
}

impl Drop for Fd {
    fn drop(&mut self) {
        self.0.set(true);
    }
}

fn object(inode: u64) -> Option<FdIdentity> {
    Some(FdIdentity { device: 1, inode })
}

fn image(size: PhysicalSize, modifier: u64, generation: u64) -> DmaBufImage<i32> {
    DmaBufImage::from_owned_buffers(
        vec![3],
        vec![DmaBufPlane::new(0, 0, 16, 8)],
        size,
        TextureFormat::Bgra8Unorm,
        0,
        modifier,
        generation,
    )
    .unwrap()
}

#[test]
fn neutral_format_names_every_cef_frame_format() {
    assert_eq!(
        NativeFramePixelFormat::from_wgpu(TextureFormat::Rgba8Unorm),
        NativeFramePixelFormat::Rgba8Unorm
    );
    assert_eq!(
        NativeFramePixelFormat::from_wgpu(TextureFormat::Rgba8UnormSrgb),
        NativeFramePixelFormat::Rgba8UnormSrgb
    );
    assert_eq!(
        NativeFramePixelFormat::from_wgpu(TextureFormat::Bgra8Unorm),
        NativeFramePixelFormat::Bgra8Unorm
    );
    assert_eq!(
        NativeFramePixelFormat::from_wgpu(TextureFormat::Bgra8UnormSrgb),
        NativeFramePixelFormat::Bgra8UnormSrgb
    );
    assert_eq!(
        NativeFramePixelFormat::from_wgpu(TextureFormat::Other("Depth32Float")),
        NativeFramePixelFormat::Unsupported
    );
}

#[test]
fn pending_frame_slot_keeps_latest_frame() {
    let mut slot = PendingFrameSlot::default();
    let first = slot.next_generation();
    slot.store(NativeFrame::DmaBufImage(image(PhysicalSize::new(10, 10), 0, first)));
    let second = slot.next_generation();
    slot.store(NativeFrame::DmaBufImage(image(PhysicalSize::new(20, 10), 0, second)));

    let frame = slot.take().expect("latest frame should be present");
    assert_eq!(frame.generation(), second);
    assert_eq!(frame.size(), PhysicalSize::new(20, 10));
    assert!(!slot.has_frame());
}

#[test]
fn dx12_frame_into_owned_handle_keeps_one_raii_owner() {
    let (fd, closed) = Fd::open();
    let frame = Dx12SharedTexture::from_owned_handle(
        Some(fd),
        PhysicalSize::new(10, 10),
        TextureFormat::Bgra8Unorm,
        1,
    )
    .expect("duplicated handle should become a frame");
    let owned = frame.into_owned_handle();
    assert!(!closed.get(), "owned handle should remain live");
    drop(owned);
    assert!(
        closed.get(),
        "dropping the OwnedHandle should close exactly one transferred handle"
    );
}

#[test]
fn standalone_plane_metadata_does_not_own_fd() {
    let (fd, closed) = Fd::open();
    let plane = DmaBufPlane::new(0, 0, 16, 8);
    let copy = plane;
    assert_eq!(copy, plane);
    assert!(!closed.get(), "dropping plane metadata must not close the descriptor");
    drop(fd);
    assert!(closed.get());
}

#[test]
fn invalid_safe_plane_index_closes_owned_buffers() {
    let (fd, closed) = Fd::open();
    let result = DmaBufImage::from_owned_buffers(
        vec![fd],
        vec![DmaBufPlane::new(1, 0, 16, 8)],
        PhysicalSize::new(2, 2),
        TextureFormat::Bgra8UnormSrgb,
        0,
        DRM_FORMAT_MOD_LINEAR,
        1,
    );
    assert!(matches!(
        result,
        Err(ImportError::InvalidFrame("DMABUF plane buffer index is out of range"))
    ));
    assert!(closed.get());
}

#[test]
fn repeated_raw_fd_planes_keep_one_owner_until_image_drop() {
    let raw = 5;
    let got = DmaBufImage::from_owned_raw_planes(
        &vec![(raw, 0, 16, 8), (raw, 4, 12, 8)],
        &vec![object(1), object(1)],
        PhysicalSize::new(2, 2),
        TextureFormat::Bgra8UnormSrgb,
        0,
        DRM_FORMAT_MOD_LINEAR,
        1,
    )
    .expect("repeated raw fd should create one image owner");
    assert_eq!(got.image.buffer_count(), 1);
    assert_eq!(got.image.planes()[0].buffer_index(), 0);
    assert_eq!(got.image.planes()[1].buffer_index(), 0);
    assert!(
        got.closed.is_empty(),
        "repeating a raw fd must not create and drop a second owner"
    );
    // The owner of the one descriptor goes with the image, not before.
    let (_, planes) = got.image.into_owned_parts();
    let (fd, closed) = Fd::open();
    let owning = DmaBufImage::from_owned_buffers(
        vec![fd],
        planes,
        PhysicalSize::new(2, 2),
        TextureFormat::Bgra8UnormSrgb,
        0,
        DRM_FORMAT_MOD_LINEAR,
        1,
    )
    .unwrap();
    assert!(!closed.get());
    drop(owning);
    assert!(closed.get());
}

#[test]
fn shared_kernel_object_planes_use_one_graft_buffer() {
    let (first_raw, second_raw) = (5, 6);
    let got = DmaBufImage::from_owned_raw_planes(
        &vec![(first_raw, 0, 16, 8), (second_raw, 4, 12, 8)],
        &vec![object(1), object(1)],
        PhysicalSize::new(2, 2),
        TextureFormat::Bgra8UnormSrgb,
        0,
        DRM_FORMAT_MOD_LINEAR,
        1,
    )
    .expect("dup fds for one kernel object should create one image owner");
    assert_eq!(got.image.buffer_count(), 1);
    assert_eq!(got.image.planes()[0].buffer_index(), 0);
    assert_eq!(got.image.planes()[1].buffer_index(), 0);
    assert_eq!(got.image.planes()[1].offset(), 4);
    assert_eq!(got.image.planes()[1].stride(), 8);
    assert_eq!(
        got.closed,
        vec![second_raw],
        "the duplicate plane fd should close before Graft handoff"
    );
    assert_eq!(got.image.into_owned_parts().0, vec![first_raw]);
}

#[test]
fn raw_constructor_failure_closes_accepted_buffers() {
    let first_raw = 5;
    let fault = DmaBufImage::from_owned_raw_planes(
        &vec![(first_raw, 0, 16, 8), (-1, 0, 16, 8)],
        &vec![object(1), None],
        PhysicalSize::new(2, 2),
        TextureFormat::Bgra8UnormSrgb,
        0,
        DRM_FORMAT_MOD_LINEAR,
        1,
    )
    .unwrap_err();
    assert!(matches!(
        fault.error,
        ImportError::InvalidFrame("DMABUF plane fd is negative")
    ));
    assert_eq!(fault.closed, vec![first_raw]);
}

#[test]
fn raw_constructor_error_closes_later_unprocessed_fds() {
    let (first_raw, second_raw) = (5, 6);
    let fault = DmaBufImage::from_owned_raw_planes(
        &vec![(first_raw, 0, 16, 8), (-1, 0, 16, 8), (second_raw, 4, 12, 8)],
        &vec![object(1), None, object(2)],
        PhysicalSize::new(2, 2),
        TextureFormat::Bgra8UnormSrgb,
        0,
        DRM_FORMAT_MOD_LINEAR,
        1,
    )
    .unwrap_err();
    assert_eq!(
        fault.closed,
        vec![first_raw, second_raw],
        "error cleanup must close valid raw fds that appear after the failing entry"
    );
}

#[test]
fn an_unknown_descriptor_is_refused_and_no_plane_makes_no_image() {
    let fault = deduplicated_raw_planes(
        &vec![(5, 0, 1, 1), (5, 0, 1, 1), (7, 0, 1, 1)],
        &vec![object(1), None, None],
    )
    .unwrap_err();
    assert!(matches!(fault.error, ImportError::InvalidFrame("DMABUF plane fd is invalid")));
    assert_eq!(fault.closed, vec![5, 7]);
    let empty = DmaBufImage::from_owned_raw_planes(
        &vec![],
        &vec![],
        PhysicalSize::new(2, 2),
        TextureFormat::Bgra8UnormSrgb,
        0,
        0,
        1,
    )
    .unwrap_err();
    assert!(matches!(empty.error, ImportError::InvalidFrame("DMABUF image has no planes")));
    assert!(empty.closed.is_empty());
}

#[test]
fn every_descriptor_is_kept_or_closed_once() {
    let table = deduplicated_raw_planes(
        &vec![(9, 0, 1, 1), (4, 1, 1, 1), (9, 2, 1, 1), (8, 3, 1, 1), (2, 4, 1, 1)],
        &vec![object(1), object(2), None, object(1), object(2)],
    )
    .unwrap();
    assert_eq!(table.kept, vec![9, 4]);
    assert_eq!(table.closed, vec![8, 2]);
    let indices: Vec<usize> = table.planes.iter().map(DmaBufPlane::buffer_index).collect();
    assert_eq!(indices, vec![0, 1, 0, 0, 1]);
}

fn route(
    frame: &NativeFrame<i32>,
    platform: Platform,
    backend: InteropBackend,
    implicit: bool,
) -> Result<ImportRoute, String> {
    WgpuTextureImporter::route(frame, platform, backend, implicit).map_err(|e| e.message())
}

#[test]
fn a_dmabuf_image_is_imported_by_vulkan_on_linux() {
    let vulkan = InteropBackend::Vulkan;
    let explicit = NativeFrame::DmaBufImage(image(PhysicalSize::new(2, 2), 77, 1));
    assert_eq!(
        route(&explicit, Platform::Linux, vulkan, false),
        Ok(ImportRoute::ImportDmaBuf { modifier: 77 })
    );
    let implicit =
        NativeFrame::DmaBufImage(image(PhysicalSize::new(2, 2), DRM_FORMAT_MOD_INVALID, 1));
    assert_eq!(
        route(&implicit, Platform::Linux, vulkan, true),
        Ok(ImportRoute::ImportDmaBuf { modifier: DRM_FORMAT_MOD_LINEAR })
    );
    assert_eq!(
        route(&implicit, Platform::Linux, vulkan, false).unwrap_err(),
        "Vulkan external memory import failed: CEF supplied DRM_FORMAT_MOD_INVALID (implicit modifier). Importing it needs VK_EXT_image_drm_format_modifier and Features::VULKAN_EXTERNAL_MEMORY_DMA_BUF. This host device lacks that capability, and wgpu 28/29 cannot register the resulting foreign image state."
    );
    assert_eq!(
        route(&explicit, Platform::Linux, InteropBackend::Metal, true).unwrap_err(),
        "backend mismatch: frame is DmaBufImage but wgpu reports Metal"
    );
    assert_eq!(
        route(&explicit, Platform::Windows, vulkan, true).unwrap_err(),
        "native import is not implemented for DmaBufImage"
    );
    let flat = NativeFrame::DmaBufImage(image(PhysicalSize::new(0, 2), 77, 1));
    assert_eq!(
        route(&flat, Platform::Linux, vulkan, true).unwrap_err(),
        "invalid native frame: DMABUF image has zero size"
    );
}

#[test]
fn a_metal_frame_is_imported_by_metal_on_macos() {
    let frame = |format: TextureFormat, side: u32| {
        NativeFrame::MetalTextureRef(
            MetalTextureRef::from_retained_io_surface(Some(1), PhysicalSize::new(side, side), format, 1)
                .unwrap(),
        )
    };
    let metal = InteropBackend::Metal;
    assert_eq!(
        route(&frame(TextureFormat::Bgra8Unorm, 2), Platform::Macos, metal, false),
        Ok(ImportRoute::WrapIoSurface { format: MetalPixelFormat::Bgra8Unorm })
    );
    assert_eq!(
        route(&frame(TextureFormat::Rgba8UnormSrgb, 2), Platform::Macos, metal, false).unwrap_err(),
        "Metal IOSurface import failed: unsupported wgpu format for Metal IOSurface import: Rgba8UnormSrgb"
    );
    assert_eq!(
        route(&frame(TextureFormat::Bgra8Unorm, 0), Platform::Macos, metal, false).unwrap_err(),
        "invalid native frame: Metal IOSurface has zero size"
    );
    assert_eq!(
        route(&frame(TextureFormat::Bgra8Unorm, 2), Platform::Macos, InteropBackend::Vulkan, false)
            .unwrap_err(),
        "backend mismatch: frame is MetalTextureRef but wgpu reports Vulkan"
    );
    assert_eq!(
        route(&frame(TextureFormat::Bgra8Unorm, 2), Platform::Linux, metal, false).unwrap_err(),
        "backend mismatch: frame is MetalTextureRef but wgpu reports Unknown"
    );
    let null =
        MetalTextureRef::<i32>::from_retained_io_surface(None, PhysicalSize::new(1, 1), TextureFormat::Bgra8Unorm, 1);
    assert!(matches!(null, Err(ImportError::InvalidFrame("IOSurface handle is null"))));
}

#[test]
fn a_shared_texture_is_opened_by_dx12_on_windows() {
    let frame = |side: u32| {
        NativeFrame::Dx12SharedTexture(
            Dx12SharedTexture::from_owned_handle(
                Some(1),
                PhysicalSize::new(side, side),
                TextureFormat::Bgra8Unorm,
                1,
            )
            .unwrap(),
        )
    };
    let dx12 = InteropBackend::Dx12;
    assert_eq!(route(&frame(2), Platform::Windows, dx12, false), Ok(ImportRoute::OpenSharedHandle));
    assert_eq!(
        route(&frame(0), Platform::Windows, InteropBackend::Vulkan, false).unwrap_err(),
        "invalid native frame: D3D shared texture has zero size"
    );
    assert_eq!(
        route(&frame(2), Platform::Windows, InteropBackend::Vulkan, false).unwrap_err(),
        "backend mismatch: frame is Dx12SharedTexture but wgpu reports Vulkan"
    );
    assert_eq!(
        route(&frame(2), Platform::Linux, dx12, false).unwrap_err(),
        "backend mismatch: frame is Dx12SharedTexture but wgpu reports Unknown"
    );
    let invalid =
        Dx12SharedTexture::<i32>::from_owned_handle(None, PhysicalSize::new(1, 1), TextureFormat::Bgra8Unorm, 1);
    assert!(matches!(invalid, Err(ImportError::InvalidFrame("D3D shared handle is invalid"))));
}

#[test]
fn a_bitmap_is_uploaded_anywhere() {
    let bitmap: NativeFrame<i32> = NativeFrame::CpuBitmap(CpuBitmap {
        data: vec![0; 24],
        size: PhysicalSize::new(3, 2),
        format: TextureFormat::Bgra8Unorm,
        generation: 4,
    });
    assert_eq!(
        route(&bitmap, Platform::Other, InteropBackend::Unknown, false),
        Ok(ImportRoute::UploadBitmap { bytes_per_row: 12 })
    );
    assert_eq!(bitmap.kind(), NativeFrameKind::CpuBitmap);
    assert_eq!(bitmap.pixel_format(), NativeFramePixelFormat::Bgra8Unorm);
    assert_eq!(bitmap.generation(), 4);
}

#[test]
fn each_platform_looks_at_its_own_interfaces() {
    let detect = InteropBackend::detect;
    assert_eq!(detect(Platform::Linux, true, true, true), InteropBackend::Vulkan);
    assert_eq!(detect(Platform::Linux, false, true, true), InteropBackend::Unknown);
    assert_eq!(detect(Platform::Windows, true, false, true), InteropBackend::Vulkan);
    assert_eq!(detect(Platform::Windows, false, false, true), InteropBackend::Dx12);
    assert_eq!(detect(Platform::Macos, true, true, false), InteropBackend::Metal);
    assert_eq!(detect(Platform::Android, true, true, true), InteropBackend::Vulkan);
    assert_eq!(detect(Platform::Ios, true, true, true), InteropBackend::Metal);
    assert_eq!(detect(Platform::Other, true, true, true), InteropBackend::Unknown);
}

#[test]
fn linux_decodes_srgb() {
    let name = |color: ColorType, platform: Platform| color.texture_format(platform).name();
    assert_eq!(name(ColorType::Rgba8888, Platform::Linux), "Rgba8UnormSrgb");
    assert_eq!(name(ColorType::Other, Platform::Linux), "Bgra8UnormSrgb");
    assert_eq!(name(ColorType::Rgba8888, Platform::Windows), "Rgba8Unorm");
    assert_eq!(name(ColorType::Bgra8888, Platform::Windows), "Bgra8Unorm");
}

#[test]
fn planes_lose_their_size_on_the_way_to_an_importer() {
    assert_eq!(
        graft_planes_from_weld(&vec![DmaBufPlane::new(1, 2, 3, 4)]),
        vec![ImportPlane { buffer_index: 1, offset: 2, stride: 4 }]
    );
}

#[test]
fn a_copy_is_waited_for_and_given_up() {
    assert!(check_copier(InteropBackend::Dx12).is_ok());
    assert!(matches!(
        check_copier(InteropBackend::Vulkan),
        Err(ImportError::BackendMismatch {
            frame: NativeFrameKind::Dx12SharedTexture,
            wgpu: InteropBackend::Vulkan
        })
    ));
    assert!(matches!(copy_progress(true, 0, COPY_TIMEOUT * 9), Some(Ok(()))));
    assert!(copy_progress(false, 7, 7 + COPY_TIMEOUT).is_none());
    assert!(matches!(
        copy_progress(false, 7, 8 + COPY_TIMEOUT),
        Some(Err(ImportError::Hal(text))) if text == "D3D11 GPU copy timed out after 2 seconds"
    ));
    let hal = |text: &str| Err(ImportError::Hal(text.to_owned()));
    assert!(matches!(
        copy_settled(hal("copy"), hal("release")),
        Err(ImportError::Hal(text)) if text == "copy"
    ));
    assert!(matches!(
        copy_settled(Ok(()), hal("release")),
        Err(ImportError::Hal(text)) if text == "release"
    ));
}
