//! Deciding how a host imports a native frame.
//!
//! Importing itself is work for the graphics driver. What comes before it is
//! decided here: whether the frame's kind suits the host's backend, whether the
//! frame is one that can be imported at all, and with which parameters.
use vstd::prelude::*;
use vstd::string::*;
use crate::dmabuf::{
    is_invalid_frame, layout_fault, validate_image_layout, DmaBufImage, DmaBufPlane,
    DRM_FORMAT_MOD_INVALID, DRM_FORMAT_MOD_LINEAR,
};
use crate::native_frame::{
    CpuBitmap, Dx12SharedTexture, ImportError, InteropBackend, MetalTextureRef, NativeFrame,
    NativeFrameKind, TextureFormat,
};
use crate::platform::Platform;
use crate::text::joined;

verus! {

/// The pixel formats in which Metal can wrap an `IOSurface` frame.
#[derive(Clone, Copy, Debug, PartialEq, Eq, Structural)]
pub enum MetalPixelFormat {
    Bgra8Unorm,
    Rgba8Unorm,
}

/// How a frame that passed the checks is imported.
#[derive(Clone, Copy, Debug, PartialEq, Eq, Structural)]
pub enum ImportRoute {
    /// Open the frame's shared handle on the D3D12 device.
    OpenSharedHandle,
    /// Wrap the frame's `IOSurface` in a Metal texture of this format.
    WrapIoSurface { format: MetalPixelFormat },
    /// Import the frame's descriptors into Vulkan with this DRM modifier.
    ImportDmaBuf { modifier: u64 },
    /// Upload the frame's pixels, this many bytes a row.
    UploadBitmap { bytes_per_row: u32 },
}

/// One plane as an importer wants it: without its size, and with a wide stride.
#[derive(Clone, Copy, Debug, PartialEq, Eq, Structural)]
pub struct ImportPlane {
    pub buffer_index: usize,
    pub offset: u64,
    pub stride: u64,
}

/// Why a buffer without an explicit modifier is refused.
pub open spec fn implicit_modifier_refusal() -> Seq<char> {
    "CEF supplied DRM_FORMAT_MOD_INVALID (implicit modifier). Importing it needs VK_EXT_image_drm_format_modifier and Features::VULKAN_EXTERNAL_MEMORY_DMA_BUF. This host device lacks that capability, and wgpu 28/29 cannot register the resulting foreign image state."@
}

/// Whether an error says that a frame of this kind does not suit the backend.
pub open spec fn is_mismatch(
    error: ImportError,
    kind: NativeFrameKind,
    backend: InteropBackend,
) -> bool {
    error == (ImportError::BackendMismatch { frame: kind, wgpu: backend })
}

/// What checking a D3D shared texture comes to.
pub open spec fn dx12_checked<H>(
    frame: Dx12SharedTexture<H>,
    backend: InteropBackend,
    checked: Result<ImportRoute, ImportError>,
) -> bool {
    if frame.info().size.spec_is_empty() {
        checked matches Err(error) && is_invalid_frame(error, "D3D shared texture has zero size"@)
    } else if backend != InteropBackend::Dx12 {
        checked matches Err(error) && is_mismatch(
            error,
            NativeFrameKind::Dx12SharedTexture,
            backend,
        )
    } else {
        checked == Ok::<ImportRoute, ImportError>(ImportRoute::OpenSharedHandle)
    }
}

/// The Metal format of a texture format, where there is one.
pub open spec fn metal_format(format: TextureFormat) -> Option<MetalPixelFormat> {
    match format {
        TextureFormat::Bgra8Unorm => Some(MetalPixelFormat::Bgra8Unorm),
        TextureFormat::Rgba8Unorm => Some(MetalPixelFormat::Rgba8Unorm),
        _ => None,
    }
}

/// What checking an `IOSurface` comes to.
pub open spec fn metal_checked<H>(
    frame: MetalTextureRef<H>,
    backend: InteropBackend,
    checked: Result<ImportRoute, ImportError>,
) -> bool {
    if frame.info().size.spec_is_empty() {
        checked matches Err(error) && is_invalid_frame(error, "Metal IOSurface has zero size"@)
    } else if backend != InteropBackend::Metal {
        checked matches Err(error) && is_mismatch(error, NativeFrameKind::MetalTextureRef, backend)
    } else {
        match metal_format(frame.info().format) {
            Some(format) => checked == Ok::<ImportRoute, ImportError>(
                ImportRoute::WrapIoSurface { format },
            ),
            None => checked matches Err(ImportError::MetalImport(text)) && text@
                == "unsupported wgpu format for Metal IOSurface import: "@
                + frame.info().format.spec_name(),
        }
    }
}

/// What checking a DMABUF image comes to.
pub open spec fn vulkan_checked<H>(
    frame: DmaBufImage<H>,
    backend: InteropBackend,
    implicit_modifier: bool,
    checked: Result<ImportRoute, ImportError>,
) -> bool {
    let fault = layout_fault(frame.spec_buffers().len(), frame.spec_planes());
    if backend != InteropBackend::Vulkan {
        checked matches Err(error) && is_mismatch(error, NativeFrameKind::DmaBufImage, backend)
    } else if frame.info().size.spec_is_empty() {
        checked matches Err(error) && is_invalid_frame(error, "DMABUF image has zero size"@)
    } else if fault is Some {
        checked matches Err(error) && is_invalid_frame(error, fault->0)
    } else if frame.spec_modifier() != DRM_FORMAT_MOD_INVALID {
        checked == Ok::<ImportRoute, ImportError>(
            ImportRoute::ImportDmaBuf { modifier: frame.spec_modifier() },
        )
    } else if implicit_modifier {
        checked == Ok::<ImportRoute, ImportError>(
            ImportRoute::ImportDmaBuf { modifier: DRM_FORMAT_MOD_LINEAR },
        )
    } else {
        checked matches Err(ImportError::VulkanImport(text)) && text@
            == implicit_modifier_refusal()
    }
}

/// Decides how a [`NativeFrame`] becomes a texture of the host's device, by the
/// kind of the frame and the backend of the device.
pub struct WgpuTextureImporter;

impl WgpuTextureImporter {
    /// How `frame` is imported on `platform` by a device of `backend`.
    ///
    /// `implicit_modifier` says whether the device can import a buffer whose
    /// modifier was left implicit. A kind of frame that belongs to another
    /// platform is refused whatever the backend.
    pub fn route<H>(
        frame: &NativeFrame<H>,
        platform: Platform,
        backend: InteropBackend,
        implicit_modifier: bool,
    ) -> (route: Result<ImportRoute, ImportError>)
        requires
            frame matches NativeFrame::CpuBitmap(bitmap) ==> bitmap.size.width * 4 <= u32::MAX,
        ensures
            match frame {
                NativeFrame::Dx12SharedTexture(texture) => if platform == Platform::Windows {
                    dx12_checked(*texture, backend, route)
                } else {
                    route matches Err(error) && is_mismatch(
                        error,
                        NativeFrameKind::Dx12SharedTexture,
                        InteropBackend::Unknown,
                    )
                },
                NativeFrame::MetalTextureRef(surface) => if platform.spec_is_apple() {
                    metal_checked(*surface, backend, route)
                } else {
                    route matches Err(error) && is_mismatch(
                        error,
                        NativeFrameKind::MetalTextureRef,
                        InteropBackend::Unknown,
                    )
                },
                NativeFrame::DmaBufImage(image) => if platform == Platform::Linux {
                    vulkan_checked(*image, backend, implicit_modifier, route)
                } else {
                    route == Err::<ImportRoute, ImportError>(
                        ImportError::Unsupported(NativeFrameKind::DmaBufImage),
                    )
                },
                NativeFrame::CpuBitmap(bitmap) => route == Ok::<ImportRoute, ImportError>(
                    ImportRoute::UploadBitmap { bytes_per_row: (bitmap.size.width * 4) as u32 },
                ),
            },
    {
        match frame {
            NativeFrame::Dx12SharedTexture(texture) => if platform == Platform::Windows {
                Self::check_dx12(texture, backend)
            } else {
                Err(
                    ImportError::BackendMismatch {
                        frame: NativeFrameKind::Dx12SharedTexture,
                        wgpu: InteropBackend::Unknown,
                    },
                )
            },
            NativeFrame::MetalTextureRef(surface) => if platform.is_apple() {
                Self::check_metal(surface, backend)
            } else {
                Err(
                    ImportError::BackendMismatch {
                        frame: NativeFrameKind::MetalTextureRef,
                        wgpu: InteropBackend::Unknown,
                    },
                )
            },
            NativeFrame::DmaBufImage(image) => if platform == Platform::Linux {
                Self::check_vulkan(image, backend, implicit_modifier)
            } else {
                Err(ImportError::Unsupported(NativeFrameKind::DmaBufImage))
            },
            NativeFrame::CpuBitmap(bitmap) => Ok(
                ImportRoute::UploadBitmap { bytes_per_row: bitmap.size.width * 4 },
            ),
        }
    }

    /// Checks a D3D shared texture: its size, then the backend.
    pub fn check_dx12<H>(frame: &Dx12SharedTexture<H>, backend: InteropBackend) -> (checked: Result<
        ImportRoute,
        ImportError,
    >)
        ensures
            dx12_checked(*frame, backend, checked),
    {
        if frame.size().is_empty() {
            return Err(ImportError::InvalidFrame("D3D shared texture has zero size"));
        }
        if backend != InteropBackend::Dx12 {
            return Err(
                ImportError::BackendMismatch {
                    frame: NativeFrameKind::Dx12SharedTexture,
                    wgpu: backend,
                },
            );
        }
        Ok(ImportRoute::OpenSharedHandle)
    }

    /// Checks an `IOSurface`: its size, then the backend, then its format.
    pub fn check_metal<H>(frame: &MetalTextureRef<H>, backend: InteropBackend) -> (checked: Result<
        ImportRoute,
        ImportError,
    >)
        ensures
            metal_checked(*frame, backend, checked),
    {
        if frame.size().is_empty() {
            return Err(ImportError::InvalidFrame("Metal IOSurface has zero size"));
        }
        if backend != InteropBackend::Metal {
            return Err(
                ImportError::BackendMismatch {
                    frame: NativeFrameKind::MetalTextureRef,
                    wgpu: backend,
                },
            );
        }
        match wgpu_format_to_mtl(frame.format()) {
            Some(format) => Ok(ImportRoute::WrapIoSurface { format }),
            None => Err(
                ImportError::MetalImport(
                    joined(
                        "unsupported wgpu format for Metal IOSurface import: ",
                        frame.format().name(),
                    ),
                ),
            ),
        }
    }

    /// Checks a DMABUF image: the backend, its size, its layout, then its
    /// modifier. An implicit modifier is read as linear where the device can
    /// import one, and refused otherwise rather than guessed.
    pub fn check_vulkan<H>(
        frame: &DmaBufImage<H>,
        backend: InteropBackend,
        implicit_modifier: bool,
    ) -> (checked: Result<ImportRoute, ImportError>)
        ensures
            vulkan_checked(*frame, backend, implicit_modifier, checked),
            checked is Ok && frame.spec_modifier() != DRM_FORMAT_MOD_INVALID ==> checked == Ok::<
                ImportRoute,
                ImportError,
            >(ImportRoute::ImportDmaBuf { modifier: frame.spec_modifier() }),
    {
        if backend != InteropBackend::Vulkan {
            return Err(
                ImportError::BackendMismatch { frame: NativeFrameKind::DmaBufImage, wgpu: backend },
            );
        }
        if frame.size().is_empty() {
            return Err(ImportError::InvalidFrame("DMABUF image has zero size"));
        }
        match validate_image_layout(frame.buffer_count(), frame.planes()) {
            Ok(()) => {},
            Err(error) => {
                return Err(error);
            },
        }
        if frame.modifier() != DRM_FORMAT_MOD_INVALID {
            return Ok(ImportRoute::ImportDmaBuf { modifier: frame.modifier() });
        }
        if implicit_modifier {
            Ok(ImportRoute::ImportDmaBuf { modifier: DRM_FORMAT_MOD_LINEAR })
        } else {
            Err(
                ImportError::VulkanImport(
                    "CEF supplied DRM_FORMAT_MOD_INVALID (implicit modifier). Importing it needs VK_EXT_image_drm_format_modifier and Features::VULKAN_EXTERNAL_MEMORY_DMA_BUF. This host device lacks that capability, and wgpu 28/29 cannot register the resulting foreign image state.".to_owned(),
                ),
            )
        }
    }
}

/// The Metal format of a texture format, where there is one.
pub fn wgpu_format_to_mtl(format: TextureFormat) -> (metal: Option<MetalPixelFormat>)
    ensures
        metal == metal_format(format),
{
    match format {
        TextureFormat::Bgra8Unorm => Some(MetalPixelFormat::Bgra8Unorm),
        TextureFormat::Rgba8Unorm => Some(MetalPixelFormat::Rgba8Unorm),
        _ => None,
    }
}

/// The planes as an importer wants them.
pub fn graft_planes_from_weld(planes: &Vec<DmaBufPlane>) -> (converted: Vec<ImportPlane>)
    ensures
        converted@.len() == planes@.len(),
        forall|i: int|
            0 <= i < planes@.len() ==> #[trigger] converted@[i] == (ImportPlane {
                buffer_index: planes@[i]@.buffer_index,
                offset: planes@[i]@.offset,
                stride: planes@[i]@.stride as u64,
            }),
{
    let mut converted: Vec<ImportPlane> = Vec::new();
    let mut i: usize = 0;
    while i < planes.len()
        invariant
            i <= planes.len(),
            converted@.len() == i,
            forall|k: int|
                0 <= k < i ==> #[trigger] converted@[k] == (ImportPlane {
                    buffer_index: planes@[k]@.buffer_index,
                    offset: planes@[k]@.offset,
                    stride: planes@[k]@.stride as u64,
                }),
        decreases planes.len() - i,
    {
        let plane = &planes[i];
        converted.push(
            ImportPlane {
                buffer_index: plane.buffer_index(),
                offset: plane.offset(),
                stride: plane.stride() as u64,
            },
        );
        i += 1;
    }
    converted
}

/// A GPU frame passes its checks only where it covers a pixel and the device
/// runs on the backend of its kind, and no import asks for the invalid modifier.
pub proof fn law_only_the_matching_backend_imports<H>(
    frame: NativeFrame<H>,
    backend: InteropBackend,
    implicit_modifier: bool,
    route: Result<ImportRoute, ImportError>,
)
    requires
        match frame {
            NativeFrame::Dx12SharedTexture(texture) => dx12_checked(texture, backend, route),
            NativeFrame::MetalTextureRef(surface) => metal_checked(surface, backend, route),
            NativeFrame::DmaBufImage(image) => vulkan_checked(
                image,
                backend,
                implicit_modifier,
                route,
            ),
            NativeFrame::CpuBitmap(_) => false,
        },
        route is Ok,
    ensures
        !frame.info().size.spec_is_empty(),
        frame.spec_kind() == NativeFrameKind::Dx12SharedTexture ==> backend
            == InteropBackend::Dx12,
        frame.spec_kind() == NativeFrameKind::MetalTextureRef ==> backend
            == InteropBackend::Metal,
        frame.spec_kind() == NativeFrameKind::DmaBufImage ==> backend == InteropBackend::Vulkan,
        route->Ok_0 matches ImportRoute::ImportDmaBuf { modifier } ==> modifier
            != DRM_FORMAT_MOD_INVALID,
{
}

// ── Copying a pooled D3D11 texture ────────────────────────────────────────────

/// How long a copy may take before it is given up, in nanoseconds.
pub const COPY_TIMEOUT: u64 = 2_000_000_000;

/// Whether frames can be copied for a device of `backend`: the copies are opened
/// on D3D12.
pub fn check_copier(backend: InteropBackend) -> (checked: Result<(), ImportError>)
    ensures
        match checked {
            Ok(()) => backend == InteropBackend::Dx12,
            Err(error) => backend != InteropBackend::Dx12 && is_mismatch(
                error,
                NativeFrameKind::Dx12SharedTexture,
                backend,
            ),
        },
{
    if backend != InteropBackend::Dx12 {
        return Err(
            ImportError::BackendMismatch {
                frame: NativeFrameKind::Dx12SharedTexture,
                wgpu: backend,
            },
        );
    }
    Ok(())
}

/// One look at a copy that started at `started`: `None` to look again.
pub fn copy_progress(done: bool, started: u64, now: u64) -> (settled: Option<
    Result<(), ImportError>,
>)
    ensures
        match settled {
            Some(Ok(())) => done,
            Some(Err(error)) => {
                &&& !done
                &&& now - started > COPY_TIMEOUT
                &&& error matches ImportError::Hal(text) && text@
                    == "D3D11 GPU copy timed out after 2 seconds"@
            },
            None => !done && now - started <= COPY_TIMEOUT,
        },
{
    if done {
        return Some(Ok(()));
    }
    if now > started && now - started > COPY_TIMEOUT {
        return Some(
            Err(ImportError::Hal("D3D11 GPU copy timed out after 2 seconds".to_owned())),
        );
    }
    None
}

/// What a copy comes to, once its target was released again: the copy's own
/// error counts before that of the release.
pub fn copy_settled(copied: Result<(), ImportError>, released: Result<(), ImportError>) -> (outcome:
    Result<(), ImportError>)
    ensures
        outcome == (if copied is Err {
            copied
        } else {
            released
        }),
{
    match copied {
        Err(error) => Err(error),
        Ok(()) => released,
    }
}

/// A DMABUF image that is all right is imported by a Vulkan device with the
/// modifier it came with, whatever that is and whatever else the device can do.
/// Only one that came without is imported as linear, where the device can do
/// that, and refused where it cannot.
pub proof fn law_an_explicit_modifier_is_kept<H>(
    frame: DmaBufImage<H>,
    implicit_modifier: bool,
    route: Result<ImportRoute, ImportError>,
)
    requires
        call_ensures(
            WgpuTextureImporter::check_vulkan::<H>,
            (&frame, InteropBackend::Vulkan, implicit_modifier),
            route,
        ),
        frame.info().size.width > 0,
        frame.info().size.height > 0,
        frame.spec_planes().len() > 0,
        frame.spec_buffers().len() > 0,
        forall|i: int|
            0 <= i < frame.spec_planes().len() ==> (#[trigger] frame.spec_planes()[i])@.buffer_index
                < frame.spec_buffers().len(),
    ensures
        frame.spec_modifier() != 0x00ff_ffff_ffff_ffffu64 ==> route == Ok::<
            ImportRoute,
            ImportError,
        >(ImportRoute::ImportDmaBuf { modifier: frame.spec_modifier() }),
        frame.spec_modifier() == 0x00ff_ffff_ffff_ffffu64 && implicit_modifier ==> route == Ok::<
            ImportRoute,
            ImportError,
        >(ImportRoute::ImportDmaBuf { modifier: 0 }),
        frame.spec_modifier() == 0x00ff_ffff_ffff_ffffu64 && !implicit_modifier ==> route matches Err(
            ImportError::VulkanImport(_),
        ),
{
}

/// A DMABUF image that has no pixel, no plane, or a plane without a buffer is
/// refused as invalid, and any is refused by a device that does not run on Vulkan.
pub proof fn law_a_broken_image_is_refused<H>(
    frame: DmaBufImage<H>,
    backend: InteropBackend,
    implicit_modifier: bool,
    route: Result<ImportRoute, ImportError>,
)
    requires
        call_ensures(
            WgpuTextureImporter::check_vulkan::<H>,
            (&frame, backend, implicit_modifier),
            route,
        ),
    ensures
        backend != InteropBackend::Vulkan ==> route == Err::<ImportRoute, ImportError>(
            ImportError::BackendMismatch { frame: NativeFrameKind::DmaBufImage, wgpu: backend },
        ),
        backend == InteropBackend::Vulkan && (frame.info().size.width == 0
            || frame.info().size.height == 0 || frame.spec_planes().len() == 0 || exists|i: int|
            0 <= i < frame.spec_planes().len() && (
            #[trigger] frame.spec_planes()[i])@.buffer_index >= frame.spec_buffers().len())
            ==> route matches Err(ImportError::InvalidFrame(_)),
        route matches Ok(route) ==> route is ImportDmaBuf,
{
}

/// A shared D3D texture with a pixel is opened by a D3D12 device, and only by one.
pub proof fn law_a_shared_texture_is_opened_on_dx12<H>(
    frame: Dx12SharedTexture<H>,
    backend: InteropBackend,
    route: Result<ImportRoute, ImportError>,
)
    requires
        call_ensures(WgpuTextureImporter::check_dx12::<H>, (&frame, backend), route),
    ensures
        route is Ok <==> frame.info().size.width > 0 && frame.info().size.height > 0 && backend
            == InteropBackend::Dx12,
        route matches Ok(route) ==> route == ImportRoute::OpenSharedHandle,
        route matches Err(ImportError::InvalidFrame(_)) <==> frame.info().size.width == 0
            || frame.info().size.height == 0,
        route matches Err(ImportError::BackendMismatch { frame: kind, wgpu }) ==> kind
            == NativeFrameKind::Dx12SharedTexture && wgpu == backend,
{
}

/// An `IOSurface` with a pixel is wrapped by a Metal device in the format that has
/// its channels in the same order, where there is one, and by no other device.
pub proof fn law_an_io_surface_keeps_its_channels<H>(
    frame: MetalTextureRef<H>,
    backend: InteropBackend,
    route: Result<ImportRoute, ImportError>,
)
    requires
        call_ensures(WgpuTextureImporter::check_metal::<H>, (&frame, backend), route),
    ensures
        route is Ok <==> frame.info().size.width > 0 && frame.info().size.height > 0 && backend
            == InteropBackend::Metal && (frame.info().format is Bgra8Unorm
            || frame.info().format is Rgba8Unorm),
        route matches Ok(route) ==> (route matches ImportRoute::WrapIoSurface { format } && (format
            == MetalPixelFormat::Bgra8Unorm <==> frame.info().format is Bgra8Unorm) && (format
            == MetalPixelFormat::Rgba8Unorm <==> frame.info().format is Rgba8Unorm)),
        route matches Err(ImportError::InvalidFrame(_)) <==> frame.info().size.width == 0
            || frame.info().size.height == 0,
        route matches Err(ImportError::BackendMismatch { frame: kind, wgpu }) ==> kind
            == NativeFrameKind::MetalTextureRef && wgpu == backend,
{
}

/// Each platform imports the kinds of frame that exist there, and no other GPU
/// frame whatever the device. A bitmap is uploaded everywhere, four bytes a pixel.
pub proof fn law_frames_are_imported_where_they_exist<H>(
    frame: NativeFrame<H>,
    platform: Platform,
    backend: InteropBackend,
    implicit_modifier: bool,
    route: Result<ImportRoute, ImportError>,
)
    requires
        call_ensures(
            WgpuTextureImporter::route::<H>,
            (&frame, platform, backend, implicit_modifier),
            route,
        ),
        frame matches NativeFrame::CpuBitmap(bitmap) ==> bitmap.size.width * 4 <= u32::MAX,
    ensures
        frame matches NativeFrame::CpuBitmap(bitmap) ==> (route matches Ok(
            ImportRoute::UploadBitmap { bytes_per_row },
        ) && bytes_per_row == 4 * bitmap.size.width),
        route is Ok && frame is Dx12SharedTexture ==> platform == Platform::Windows && backend
            == InteropBackend::Dx12 && route->Ok_0 == ImportRoute::OpenSharedHandle,
        route is Ok && frame is MetalTextureRef ==> (platform == Platform::Macos || platform
            == Platform::Ios) && backend == InteropBackend::Metal && route->Ok_0 is WrapIoSurface,
        route is Ok && frame is DmaBufImage ==> platform == Platform::Linux && backend
            == InteropBackend::Vulkan && route->Ok_0 is ImportDmaBuf,
        frame matches NativeFrame::DmaBufImage(image) ==> (route matches Ok(
            ImportRoute::ImportDmaBuf { modifier },
        ) ==> (image.spec_modifier() != 0x00ff_ffff_ffff_ffffu64 ==> modifier
            == image.spec_modifier())),
{
}

/// Planes reach the importer in order, each with the buffer, the offset and the
/// stride it had.
pub proof fn law_planes_reach_the_importer_unchanged(
    planes: Vec<DmaBufPlane>,
    converted: Vec<ImportPlane>,
    i: int,
)
    requires
        call_ensures(graft_planes_from_weld, (&planes,), converted),
        0 <= i < planes@.len(),
    ensures
        converted@.len() == planes@.len(),
        converted@[i].buffer_index == planes@[i]@.buffer_index,
        converted@[i].offset == planes@[i]@.offset,
        converted@[i].stride == planes@[i]@.stride,
{
}

/// A copy is over once the device says so, however long that took, and given up
/// two seconds after it started otherwise. Until then it goes on.
pub proof fn law_a_copy_ends_or_is_given_up(
    done: bool,
    started: u64,
    now: u64,
    settled: Option<Result<(), ImportError>>,
)
    requires
        call_ensures(copy_progress, (done, started, now), settled),
    ensures
        done <==> settled is Some && settled->0 is Ok,
        (settled matches Some(Err(ImportError::Hal(_)))) <==> !done && now - started
            > 2_000_000_000,
        settled is None <==> !done && now - started <= 2_000_000_000,
{
}

/// A copy succeeded only where both it and the release of its target did, and the
/// copy's own failure is the one that is told.
pub proof fn law_the_first_failure_of_a_copy_counts(
    copied: Result<(), ImportError>,
    released: Result<(), ImportError>,
    outcome: Result<(), ImportError>,
)
    requires
        call_ensures(copy_settled, (copied, released), outcome),
    ensures
        outcome is Ok <==> copied is Ok && released is Ok,
        copied is Err ==> outcome == copied,
        copied is Ok && released is Err ==> outcome == released,
{
}

/// A texture format has a Metal format where the two have the same channels in the
/// same order, and frames are copied only for D3D12.
pub proof fn law_formats_and_copies_fit_the_device(
    format: TextureFormat,
    metal: Option<MetalPixelFormat>,
    backend: InteropBackend,
    checked: Result<(), ImportError>,
)
    requires
        call_ensures(wgpu_format_to_mtl, (format,), metal),
        call_ensures(check_copier, (backend,), checked),
    ensures
        metal == Some(MetalPixelFormat::Bgra8Unorm) <==> format is Bgra8Unorm,
        metal == Some(MetalPixelFormat::Rgba8Unorm) <==> format is Rgba8Unorm,
        metal is None <==> !(format is Bgra8Unorm) && !(format is Rgba8Unorm),
        checked is Ok <==> backend == InteropBackend::Dx12,
        checked matches Err(error) ==> (error matches ImportError::BackendMismatch { wgpu, .. }
            && wgpu == backend),
{
}

/// A frame with a pixel is imported on its own platform by its own kind of device, and
/// away from that platform it is refused: a shared texture and an `IOSurface` as
/// mismatched, a DMABUF image as unsupported.
pub proof fn law_a_frame_is_at_home_on_one_platform<H>(
    frame: NativeFrame<H>,
    platform: Platform,
    backend: InteropBackend,
    implicit_modifier: bool,
    route: Result<ImportRoute, ImportError>,
)
    requires
        frame matches NativeFrame::CpuBitmap(bitmap) ==> bitmap.size.width * 4 <= u32::MAX,
        call_ensures(
            WgpuTextureImporter::route::<H>,
            (&frame, platform, backend, implicit_modifier),
            route,
        ),
    ensures
        frame matches NativeFrame::Dx12SharedTexture(texture) ==> (route is Ok <==> platform
            == Platform::Windows && backend == InteropBackend::Dx12 && texture.info().size.width > 0
            && texture.info().size.height > 0),
        frame matches NativeFrame::MetalTextureRef(surface) ==> (route is Ok <==> (platform
            == Platform::Macos || platform == Platform::Ios) && backend == InteropBackend::Metal
            && surface.info().size.width > 0 && surface.info().size.height > 0 && (
        surface.info().format is Bgra8Unorm || surface.info().format is Rgba8Unorm)),
        frame matches NativeFrame::DmaBufImage(image) ==> (platform == Platform::Linux && backend
            == InteropBackend::Vulkan && image.well_formed() && image.info().size.width > 0
            && image.info().size.height > 0 && image.spec_modifier() != 0x00ff_ffff_ffff_ffffu64
            ==> route is Ok),
        frame is Dx12SharedTexture && platform != Platform::Windows ==> (route matches Err(
            ImportError::BackendMismatch { wgpu, .. },
        ) && wgpu == InteropBackend::Unknown),
        frame is MetalTextureRef && platform != Platform::Macos && platform != Platform::Ios ==> (
        route matches Err(ImportError::BackendMismatch { wgpu, .. }) && wgpu
            == InteropBackend::Unknown),
        frame is DmaBufImage && platform != Platform::Linux ==> (route matches Err(
            ImportError::Unsupported(kind),
        ) && kind == NativeFrameKind::DmaBufImage),
{
}

} // verus!
