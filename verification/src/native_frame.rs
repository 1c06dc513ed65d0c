//! Native GPU frames handed out by accelerated painting, and the checks that
//! decide whether and how a host may import one.
//!
//! A frame owns an operating-system handle: a shared texture, an `IOSurface` or
//! a set of DMABUF descriptors. The handle's type is a parameter, so that what
//! releases it stays with the platform code.
use vstd::prelude::*;
use vstd::string::*;
use crate::dmabuf::DmaBufImage;
use crate::platform::{PhysicalSize, Platform};
use crate::text::{joined, joined3};

verus! {

// ── Backend detection ─────────────────────────────────────────────────────────

/// The graphics interface a host device runs on.
#[derive(Clone, Copy, Debug, PartialEq, Eq, Structural)]
#[non_exhaustive]
pub enum InteropBackend {
    Vulkan,
    Metal,
    Dx12,
    Unknown,
}

impl InteropBackend {
    /// The backend's name.
    pub open spec fn spec_name(self) -> Seq<char> {
        match self {
            InteropBackend::Vulkan => "Vulkan"@,
            InteropBackend::Metal => "Metal"@,
            InteropBackend::Dx12 => "Dx12"@,
            InteropBackend::Unknown => "Unknown"@,
        }
    }

    /// The backend's name.
    pub fn name(self) -> (name: &'static str)
        ensures
            name@ == self.spec_name(),
    {
        match self {
            InteropBackend::Vulkan => "Vulkan",
            InteropBackend::Metal => "Metal",
            InteropBackend::Dx12 => "Dx12",
            InteropBackend::Unknown => "Unknown",
        }
    }

    /// The backend to use on `platform`, given which interfaces the host device
    /// answered to.
    ///
    /// Each platform looks only at the interfaces that exist there. Windows has
    /// two, and prefers Vulkan.
    pub fn detect(platform: Platform, vulkan: bool, metal: bool, dx12: bool) -> (backend: Self)
        ensures
            backend == InteropBackend::Vulkan <==> vulkan && (platform == Platform::Linux
                || platform == Platform::Android || platform == Platform::Windows),
            backend == InteropBackend::Metal <==> metal && platform.spec_is_apple(),
            backend == InteropBackend::Dx12 <==> dx12 && !vulkan && platform == Platform::Windows,
    {
        match platform {
            Platform::Linux | Platform::Android => if vulkan {
                InteropBackend::Vulkan
            } else {
                InteropBackend::Unknown
            },
            Platform::Windows => if vulkan {
                InteropBackend::Vulkan
            } else if dx12 {
                InteropBackend::Dx12
            } else {
                InteropBackend::Unknown
            },
            Platform::Macos | Platform::Ios => if metal {
                InteropBackend::Metal
            } else {
                InteropBackend::Unknown
            },
            Platform::Other => InteropBackend::Unknown,
        }
    }
}

// ── Pixel formats ─────────────────────────────────────────────────────────────

/// The texture format a frame was painted in.
#[derive(Clone, Copy, Debug)]
pub enum TextureFormat {
    Rgba8Unorm,
    Rgba8UnormSrgb,
    Bgra8Unorm,
    Bgra8UnormSrgb,
    /// A format that accelerated painting does not produce, by its name.
    Other(&'static str),
}

impl TextureFormat {
    /// The format's name.
    pub open spec fn spec_name(self) -> Seq<char> {
        match self {
            TextureFormat::Rgba8Unorm => "Rgba8Unorm"@,
            TextureFormat::Rgba8UnormSrgb => "Rgba8UnormSrgb"@,
            TextureFormat::Bgra8Unorm => "Bgra8Unorm"@,
            TextureFormat::Bgra8UnormSrgb => "Bgra8UnormSrgb"@,
            TextureFormat::Other(name) => name@,
        }
    }

    /// The format's name.
    pub fn name(self) -> (name: &'static str)
        ensures
            name@ == self.spec_name(),
    {
        match self {
            TextureFormat::Rgba8Unorm => "Rgba8Unorm",
            TextureFormat::Rgba8UnormSrgb => "Rgba8UnormSrgb",
            TextureFormat::Bgra8Unorm => "Bgra8Unorm",
            TextureFormat::Bgra8UnormSrgb => "Bgra8UnormSrgb",
            TextureFormat::Other(name) => name,
        }
    }
}

/// Pixel format metadata that does not name a graphics library's own type.
#[derive(Clone, Copy, Debug, PartialEq, Eq, Structural)]
#[non_exhaustive]
pub enum NativeFramePixelFormat {
    Rgba8Unorm,
    Rgba8UnormSrgb,
    Bgra8Unorm,
    Bgra8UnormSrgb,
    /// The frame uses a format this neutral metadata vocabulary cannot name.
    Unsupported,
}

impl NativeFramePixelFormat {
    /// The neutral name of a texture format.
    pub open spec fn of(format: TextureFormat) -> NativeFramePixelFormat {
        match format {
            TextureFormat::Rgba8Unorm => NativeFramePixelFormat::Rgba8Unorm,
            TextureFormat::Rgba8UnormSrgb => NativeFramePixelFormat::Rgba8UnormSrgb,
            TextureFormat::Bgra8Unorm => NativeFramePixelFormat::Bgra8Unorm,
            TextureFormat::Bgra8UnormSrgb => NativeFramePixelFormat::Bgra8UnormSrgb,
            TextureFormat::Other(_) => NativeFramePixelFormat::Unsupported,
        }
    }

    /// The neutral name of a texture format.
    pub fn from_wgpu(format: TextureFormat) -> (neutral: Self)
        ensures
            neutral == NativeFramePixelFormat::of(format),
    {
        match format {
            TextureFormat::Rgba8Unorm => NativeFramePixelFormat::Rgba8Unorm,
            TextureFormat::Rgba8UnormSrgb => NativeFramePixelFormat::Rgba8UnormSrgb,
            TextureFormat::Bgra8Unorm => NativeFramePixelFormat::Bgra8Unorm,
            TextureFormat::Bgra8UnormSrgb => NativeFramePixelFormat::Bgra8UnormSrgb,
            TextureFormat::Other(_) => NativeFramePixelFormat::Unsupported,
        }
    }
}

/// The color layouts in which painting reports a shared frame.
#[derive(Clone, Copy, Debug, PartialEq, Eq, Structural)]
pub enum ColorType {
    Rgba8888,
    Bgra8888,
    Other,
}

impl ColorType {
    /// The texture format of a frame painted on `platform` in this layout.
    ///
    /// Anything that is not RGBA is taken as BGRA. Linux imports through
    /// formats that decode sRGB; the other platforms do not.
    pub fn texture_format(self, platform: Platform) -> (format: TextureFormat)
        ensures
            format == match (platform == Platform::Linux, self == ColorType::Rgba8888) {
                (true, true) => TextureFormat::Rgba8UnormSrgb,
                (true, false) => TextureFormat::Bgra8UnormSrgb,
                (false, true) => TextureFormat::Rgba8Unorm,
                (false, false) => TextureFormat::Bgra8Unorm,
            },
    {
        if platform == Platform::Linux {
            if self == ColorType::Rgba8888 {
                TextureFormat::Rgba8UnormSrgb
            } else {
                TextureFormat::Bgra8UnormSrgb
            }
        } else if self == ColorType::Rgba8888 {
            TextureFormat::Rgba8Unorm
        } else {
            TextureFormat::Bgra8Unorm
        }
    }
}

// ── Native frame types ────────────────────────────────────────────────────────

/// A GPU surface resource painted by the browser, ready to be imported into the
/// host's pipeline.
#[derive(Debug)]
#[non_exhaustive]
pub enum NativeFrame<H> {
    /// Windows: a shared handle to an owned copy of the pooled texture.
    Dx12SharedTexture(Dx12SharedTexture<H>),
    /// macOS: a retained `IOSurface`.
    MetalTextureRef(MetalTextureRef<H>),
    /// Linux: DMABUF planes over a table of owned descriptors.
    DmaBufImage(DmaBufImage<H>),
    /// A bitmap in main memory.
    CpuBitmap(CpuBitmap),
}

/// Which of the kinds of frame a [`NativeFrame`] is.
#[derive(Clone, Copy, Debug, PartialEq, Eq, Structural)]
#[non_exhaustive]
pub enum NativeFrameKind {
    Dx12SharedTexture,
    MetalTextureRef,
    DmaBufImage,
    CpuBitmap,
}

impl NativeFrameKind {
    /// The kind's name.
    pub open spec fn spec_name(self) -> Seq<char> {
        match self {
            NativeFrameKind::Dx12SharedTexture => "Dx12SharedTexture"@,
            NativeFrameKind::MetalTextureRef => "MetalTextureRef"@,
            NativeFrameKind::DmaBufImage => "DmaBufImage"@,
            NativeFrameKind::CpuBitmap => "CpuBitmap"@,
        }
    }

    /// The kind's name.
    pub fn name(self) -> (name: &'static str)
        ensures
            name@ == self.spec_name(),
    {
        match self {
            NativeFrameKind::Dx12SharedTexture => "Dx12SharedTexture",
            NativeFrameKind::MetalTextureRef => "MetalTextureRef",
            NativeFrameKind::DmaBufImage => "DmaBufImage",
            NativeFrameKind::CpuBitmap => "CpuBitmap",
        }
    }
}

/// What every frame says of itself: its size, its format and its place in the
/// order in which the browser painted.
pub struct FrameInfo {
    pub size: PhysicalSize,
    pub format: TextureFormat,
    pub generation: u64,
}

impl<H> NativeFrame<H> {
    /// The kind of the frame.
    pub open spec fn spec_kind(&self) -> NativeFrameKind {
        match self {
            NativeFrame::Dx12SharedTexture(_) => NativeFrameKind::Dx12SharedTexture,
            NativeFrame::MetalTextureRef(_) => NativeFrameKind::MetalTextureRef,
            NativeFrame::DmaBufImage(_) => NativeFrameKind::DmaBufImage,
            NativeFrame::CpuBitmap(_) => NativeFrameKind::CpuBitmap,
        }
    }

    /// What the frame says of itself.
    pub open spec fn info(&self) -> FrameInfo {
        match self {
            NativeFrame::Dx12SharedTexture(frame) => frame.info(),
            NativeFrame::MetalTextureRef(frame) => frame.info(),
            NativeFrame::DmaBufImage(frame) => frame.info(),
            NativeFrame::CpuBitmap(frame) => frame.info(),
        }
    }

    pub fn kind(&self) -> (kind: NativeFrameKind)
        ensures
            kind == self.spec_kind(),
    {
        match self {
            NativeFrame::Dx12SharedTexture(_) => NativeFrameKind::Dx12SharedTexture,
            NativeFrame::MetalTextureRef(_) => NativeFrameKind::MetalTextureRef,
            NativeFrame::DmaBufImage(_) => NativeFrameKind::DmaBufImage,
            NativeFrame::CpuBitmap(_) => NativeFrameKind::CpuBitmap,
        }
    }

    pub fn size(&self) -> (size: PhysicalSize)
        ensures
            size == self.info().size,
    {
        match self {
            NativeFrame::Dx12SharedTexture(frame) => frame.size(),
            NativeFrame::MetalTextureRef(frame) => frame.size(),
            NativeFrame::DmaBufImage(frame) => frame.size(),
            NativeFrame::CpuBitmap(frame) => frame.size,
        }
    }

    pub fn format(&self) -> (format: TextureFormat)
        ensures
            format == self.info().format,
    {
        match self {
            NativeFrame::Dx12SharedTexture(frame) => frame.format(),
            NativeFrame::MetalTextureRef(frame) => frame.format(),
            NativeFrame::DmaBufImage(frame) => frame.format(),
            NativeFrame::CpuBitmap(frame) => frame.format,
        }
    }

    /// The frame's format in the neutral vocabulary.
    pub fn pixel_format(&self) -> (format: NativeFramePixelFormat)
        ensures
            format == NativeFramePixelFormat::of(self.info().format),
    {
        NativeFramePixelFormat::from_wgpu(self.format())
    }

    pub fn generation(&self) -> (generation: u64)
        ensures
            generation == self.info().generation,
    {
        match self {
            NativeFrame::Dx12SharedTexture(frame) => frame.generation(),
            NativeFrame::MetalTextureRef(frame) => frame.generation(),
            NativeFrame::DmaBufImage(frame) => frame.generation(),
            NativeFrame::CpuBitmap(frame) => frame.generation,
        }
    }
}

/// A shared D3D texture, owned through its handle.
#[derive(Debug)]
pub struct Dx12SharedTexture<H> {
    handle: H,
    size: PhysicalSize,
    format: TextureFormat,
    generation: u64,
}

impl<H> Dx12SharedTexture<H> {
    /// The handle the frame owns.
    pub closed spec fn owned(&self) -> H {
        self.handle
    }

    /// What the frame says of itself.
    pub closed spec fn info(&self) -> FrameInfo {
        FrameInfo { size: self.size, format: self.format, generation: self.generation }
    }

    /// Build a frame from an owned handle. `None` stands for the invalid handle.
    pub fn from_owned_handle(
        handle: Option<H>,
        size: PhysicalSize,
        format: TextureFormat,
        generation: u64,
    ) -> (frame: Result<Self, ImportError>)
        ensures
            frame is Ok <==> handle is Some,
            match frame {
                Ok(frame) => frame.owned() == handle->0 && frame.info() == (FrameInfo {
                    size,
                    format,
                    generation,
                }),
                Err(error) => error matches ImportError::InvalidFrame(reason) && reason@
                    == "D3D shared handle is invalid"@,
            },
    {
        match handle {
            Some(handle) => Ok(Dx12SharedTexture { handle, size, format, generation }),
            None => Err(ImportError::InvalidFrame("D3D shared handle is invalid")),
        }
    }

    pub fn size(&self) -> (size: PhysicalSize)
        ensures
            size == self.info().size,
    {
        self.size
    }

    pub fn format(&self) -> (format: TextureFormat)
        ensures
            format == self.info().format,
    {
        self.format
    }

    /// The frame's format in the neutral vocabulary.
    pub fn pixel_format(&self) -> (format: NativeFramePixelFormat)
        ensures
            format == NativeFramePixelFormat::of(self.info().format),
    {
        NativeFramePixelFormat::from_wgpu(self.format())
    }

    pub fn generation(&self) -> (generation: u64)
        ensures
            generation == self.info().generation,
    {
        self.generation
    }

    /// Give up the frame's handle to the caller, who owns it from here on.
    pub fn into_owned_handle(self) -> (handle: H)
        ensures
            handle == self.owned(),
    {
        self.handle
    }
}

/// A retained `IOSurface`.
#[derive(Debug)]
pub struct MetalTextureRef<H> {
    io_surface: H,
    size: PhysicalSize,
    format: TextureFormat,
    generation: u64,
}

impl<H> MetalTextureRef<H> {
    /// The surface the frame owns.
    pub closed spec fn owned(&self) -> H {
        self.io_surface
    }

    /// What the frame says of itself.
    pub closed spec fn info(&self) -> FrameInfo {
        FrameInfo { size: self.size, format: self.format, generation: self.generation }
    }

    /// Build a frame from a retained surface. `None` stands for the null reference.
    pub fn from_retained_io_surface(
        io_surface: Option<H>,
        size: PhysicalSize,
        format: TextureFormat,
        generation: u64,
    ) -> (frame: Result<Self, ImportError>)
        ensures
            frame is Ok <==> io_surface is Some,
            match frame {
                Ok(frame) => frame.owned() == io_surface->0 && frame.info() == (FrameInfo {
                    size,
                    format,
                    generation,
                }),
                Err(error) => error matches ImportError::InvalidFrame(reason) && reason@
                    == "IOSurface handle is null"@,
            },
    {
        match io_surface {
            Some(io_surface) => Ok(MetalTextureRef { io_surface, size, format, generation }),
            None => Err(ImportError::InvalidFrame("IOSurface handle is null")),
        }
    }

    pub fn size(&self) -> (size: PhysicalSize)
        ensures
            size == self.info().size,
    {
        self.size
    }

    pub fn format(&self) -> (format: TextureFormat)
        ensures
            format == self.info().format,
    {
        self.format
    }

    pub fn generation(&self) -> (generation: u64)
        ensures
            generation == self.info().generation,
    {
        self.generation
    }

    /// Give up the frame's surface to the caller, who owns it from here on.
    pub fn into_io_surface(self) -> (io_surface: H)
        ensures
            io_surface == self.owned(),
    {
        self.io_surface
    }
}

/// A bitmap painted into main memory, four bytes a pixel.
#[derive(Clone, Debug)]
pub struct CpuBitmap {
    pub data: Vec<u8>,
    pub size: PhysicalSize,
    pub format: TextureFormat,
    pub generation: u64,
}

impl CpuBitmap {
    /// What the frame says of itself.
    pub open spec fn info(&self) -> FrameInfo {
        FrameInfo { size: self.size, format: self.format, generation: self.generation }
    }
}

/// Single-slot latest-frame mailbox between the paint callback and the host.
/// New paints replace old paints; a host normally only wants the newest frame
/// available at render time.
#[derive(Debug)]
pub struct PendingFrameSlot<H> {
    frame: Option<NativeFrame<H>>,
    next_generation: u64,
}

impl<H> Default for PendingFrameSlot<H> {
    fn default() -> (slot: Self)
        ensures
            slot.frame() is None,
            slot.last_generation() == 0,
    {
        PendingFrameSlot { frame: None, next_generation: 0 }
    }
}

impl<H> PendingFrameSlot<H> {
    /// The frame that waits to be taken.
    pub closed spec fn frame(&self) -> Option<NativeFrame<H>> {
        self.frame
    }

    /// The last generation that was handed out.
    pub closed spec fn last_generation(&self) -> u64 {
        self.next_generation
    }

    /// The last generation that was handed out.
    pub fn generation(&self) -> (generation: u64)
        ensures
            generation == self.last_generation(),
    {
        self.next_generation
    }

    /// A generation above every one handed out before.
    pub fn next_generation(&mut self) -> (generation: u64)
        requires
            old(self).last_generation() < u64::MAX,
        ensures
            generation == old(self).last_generation() + 1,
            final(self).last_generation() == generation,
            final(self).frame() == old(self).frame(),
    {
        self.next_generation = self.next_generation + 1;
        self.next_generation
    }

    /// Replace whatever frame is waiting.
    pub fn store(&mut self, frame: NativeFrame<H>)
        ensures
            final(self).frame() == Some(frame),
            final(self).last_generation() == old(self).last_generation(),
    {
        self.frame = Some(frame);
    }

    /// Take the waiting frame, leaving none.
    pub fn take(&mut self) -> (frame: Option<NativeFrame<H>>)
        ensures
            frame == old(self).frame(),
            final(self).frame() is None,
            final(self).last_generation() == old(self).last_generation(),
    {
        self.frame.take()
    }

    pub fn has_frame(&self) -> (has: bool)
        ensures
            has == (self.frame() is Some),
    {
        self.frame.is_some()
    }
}

// ── Importing ─────────────────────────────────────────────────────────────────

/// Why a frame could not be imported.
#[derive(Debug)]
#[non_exhaustive]
pub enum ImportError {
    BackendMismatch { frame: NativeFrameKind, wgpu: InteropBackend },
    InvalidFrame(&'static str),
    Unsupported(NativeFrameKind),
    D3d11OpenShared(String),
    D3d12OpenShared(String),
    MetalImport(String),
    VulkanImport(String),
    Hal(String),
}

impl ImportError {
    /// The error in words.
    pub open spec fn text(&self) -> Seq<char> {
        match self {
            ImportError::BackendMismatch { frame, wgpu } => "backend mismatch: frame is "@
                + frame.spec_name() + " but wgpu reports "@ + wgpu.spec_name(),
            ImportError::InvalidFrame(reason) => "invalid native frame: "@ + reason@,
            ImportError::Unsupported(kind) => "native import is not implemented for "@
                + kind.spec_name(),
            ImportError::D3d11OpenShared(reason) => "D3D11 open-shared-resource failed: "@
                + reason@,
            ImportError::D3d12OpenShared(reason) => "D3D12 open-shared-handle failed: "@ + reason@,
            ImportError::MetalImport(reason) => "Metal IOSurface import failed: "@ + reason@,
            ImportError::VulkanImport(reason) => "Vulkan external memory import failed: "@
                + reason@,
            ImportError::Hal(reason) => "wgpu-hal error: "@ + reason@,
        }
    }

    /// The error in words.
    pub fn message(&self) -> (message: String)
        ensures
            message@ == self.text(),
    {
        match self {
            ImportError::BackendMismatch { frame, wgpu } => {
                let mut message = joined3(
                    "backend mismatch: frame is ",
                    frame.name(),
                    " but wgpu reports ",
                );
                message.append(wgpu.name());
                message
            },
            ImportError::InvalidFrame(reason) => joined("invalid native frame: ", reason),
            ImportError::Unsupported(kind) => joined(
                "native import is not implemented for ",
                kind.name(),
            ),
            ImportError::D3d11OpenShared(reason) => joined(
                "D3D11 open-shared-resource failed: ",
                reason.as_str(),
            ),
            ImportError::D3d12OpenShared(reason) => joined(
                "D3D12 open-shared-handle failed: ",
                reason.as_str(),
            ),
            ImportError::MetalImport(reason) => joined(
                "Metal IOSurface import failed: ",
                reason.as_str(),
            ),
            ImportError::VulkanImport(reason) => joined(
                "Vulkan external memory import failed: ",
                reason.as_str(),
            ),
            ImportError::Hal(reason) => joined("wgpu-hal error: ", reason.as_str()),
        }
    }
}

/// A frame is of the kind it was made as, and has the pixel format of its texture.
pub proof fn law_a_frame_is_of_its_kind<H>(
    frame: NativeFrame<H>,
    kind: NativeFrameKind,
    format: NativeFramePixelFormat,
)
    requires
        call_ensures(NativeFrame::<H>::kind, (&frame,), kind),
        call_ensures(NativeFrame::<H>::pixel_format, (&frame,), format),
    ensures
        kind == NativeFrameKind::Dx12SharedTexture <==> frame is Dx12SharedTexture,
        kind == NativeFrameKind::MetalTextureRef <==> frame is MetalTextureRef,
        kind == NativeFrameKind::DmaBufImage <==> frame is DmaBufImage,
        kind == NativeFrameKind::CpuBitmap <==> frame is CpuBitmap,
        format == NativeFramePixelFormat::Rgba8Unorm <==> frame.info().format is Rgba8Unorm,
        format == NativeFramePixelFormat::Rgba8UnormSrgb <==> frame.info().format is Rgba8UnormSrgb,
        format == NativeFramePixelFormat::Bgra8Unorm <==> frame.info().format is Bgra8Unorm,
        format == NativeFramePixelFormat::Bgra8UnormSrgb <==> frame.info().format is Bgra8UnormSrgb,
        format == NativeFramePixelFormat::Unsupported <==> frame.info().format is Other,
{
}

/// A frame says of itself what it was made with.
pub proof fn law_a_frame_keeps_what_it_was_made_with<H>(
    frame: NativeFrame<H>,
    size: PhysicalSize,
    format: TextureFormat,
    generation: u64,
)
    requires
        call_ensures(NativeFrame::<H>::size, (&frame,), size),
        call_ensures(NativeFrame::<H>::format, (&frame,), format),
        call_ensures(NativeFrame::<H>::generation, (&frame,), generation),
    ensures
        frame matches NativeFrame::CpuBitmap(bitmap) ==> size == bitmap.size && format
            == bitmap.format && generation == bitmap.generation,
        frame matches NativeFrame::Dx12SharedTexture(texture) ==> texture.info() == (FrameInfo {
            size,
            format,
            generation,
        }),
        frame matches NativeFrame::MetalTextureRef(texture) ==> texture.info() == (FrameInfo {
            size,
            format,
            generation,
        }),
        frame matches NativeFrame::DmaBufImage(image) ==> image.info() == (FrameInfo {
            size,
            format,
            generation,
        }),
{
}

/// A texture is made exactly where there is a handle, and gives that handle back,
/// with the size, the format and the generation that it was made with.
pub proof fn law_a_handle_comes_back<H>(
    handle: Option<H>,
    size: PhysicalSize,
    format: TextureFormat,
    generation: u64,
    shared: Result<Dx12SharedTexture<H>, ImportError>,
    surface: Result<MetalTextureRef<H>, ImportError>,
)
    requires
        call_ensures(
            Dx12SharedTexture::<H>::from_owned_handle,
            (handle, size, format, generation),
            shared,
        ),
        call_ensures(
            MetalTextureRef::<H>::from_retained_io_surface,
            (handle, size, format, generation),
            surface,
        ),
    ensures
        shared is Ok <==> handle is Some,
        surface is Ok <==> handle is Some,
        shared matches Err(error) ==> error is InvalidFrame,
        surface matches Err(error) ==> error is InvalidFrame,
        shared matches Ok(texture) ==> {
            &&& forall|back: H| #[trigger]
                call_ensures(Dx12SharedTexture::<H>::into_owned_handle, (texture,), back) ==> Some(
                    back,
                ) == handle
            &&& forall|made: PhysicalSize| #[trigger]
                call_ensures(Dx12SharedTexture::<H>::size, (&texture,), made) ==> made == size
            &&& forall|made: TextureFormat| #[trigger]
                call_ensures(Dx12SharedTexture::<H>::format, (&texture,), made) ==> made == format
            &&& forall|made: u64| #[trigger]
                call_ensures(Dx12SharedTexture::<H>::generation, (&texture,), made) ==> made
                    == generation
        },
        surface matches Ok(texture) ==> {
            &&& forall|back: H| #[trigger]
                call_ensures(MetalTextureRef::<H>::into_io_surface, (texture,), back) ==> Some(back)
                    == handle
            &&& forall|made: PhysicalSize| #[trigger]
                call_ensures(MetalTextureRef::<H>::size, (&texture,), made) ==> made == size
            &&& forall|made: TextureFormat| #[trigger]
                call_ensures(MetalTextureRef::<H>::format, (&texture,), made) ==> made == format
            &&& forall|made: u64| #[trigger]
                call_ensures(MetalTextureRef::<H>::generation, (&texture,), made) ==> made
                    == generation
        },
{
}

/// Channels keep their order: red first where the browser paints red first, blue
/// first otherwise. On Linux they are sRGB, elsewhere they are not.
pub proof fn law_channels_keep_their_order(
    color: ColorType,
    platform: Platform,
    format: TextureFormat,
)
    requires
        call_ensures(ColorType::texture_format, (color, platform), format),
    ensures
        color == ColorType::Rgba8888 <==> format is Rgba8Unorm || format is Rgba8UnormSrgb,
        color != ColorType::Rgba8888 <==> format is Bgra8Unorm || format is Bgra8UnormSrgb,
        platform == Platform::Linux <==> format is Rgba8UnormSrgb || format is Bgra8UnormSrgb,
{
}

/// A device is told by the first API of its platform that it answers to.
pub proof fn law_a_device_is_told_by_its_platform(
    platform: Platform,
    vulkan: bool,
    metal: bool,
    dx12: bool,
    backend: InteropBackend,
)
    requires
        call_ensures(InteropBackend::detect, (platform, vulkan, metal, dx12), backend),
    ensures
        backend == InteropBackend::Metal <==> metal && (platform == Platform::Macos || platform
            == Platform::Ios),
        backend == InteropBackend::Dx12 <==> dx12 && !vulkan && platform == Platform::Windows,
        backend == InteropBackend::Vulkan <==> vulkan && (platform == Platform::Windows || platform
            == Platform::Linux || platform == Platform::Android),
        platform == Platform::Other ==> backend == InteropBackend::Unknown,
{
}

/// Kinds, backends and formats are called by their names.
pub proof fn law_things_are_called_by_their_names(
    kind: NativeFrameKind,
    backend: InteropBackend,
    format: TextureFormat,
    kind_name: &'static str,
    backend_name: &'static str,
    format_name: &'static str,
)
    requires
        call_ensures(NativeFrameKind::name, (kind,), kind_name),
        call_ensures(InteropBackend::name, (backend,), backend_name),
        call_ensures(TextureFormat::name, (format,), format_name),
    ensures
        kind == NativeFrameKind::Dx12SharedTexture ==> kind_name@ == "Dx12SharedTexture"@,
        kind == NativeFrameKind::MetalTextureRef ==> kind_name@ == "MetalTextureRef"@,
        kind == NativeFrameKind::DmaBufImage ==> kind_name@ == "DmaBufImage"@,
        kind == NativeFrameKind::CpuBitmap ==> kind_name@ == "CpuBitmap"@,
        backend == InteropBackend::Vulkan ==> backend_name@ == "Vulkan"@,
        backend == InteropBackend::Metal ==> backend_name@ == "Metal"@,
        backend == InteropBackend::Dx12 ==> backend_name@ == "Dx12"@,
        backend == InteropBackend::Unknown ==> backend_name@ == "Unknown"@,
        format is Rgba8Unorm ==> format_name@ == "Rgba8Unorm"@,
        format is Rgba8UnormSrgb ==> format_name@ == "Rgba8UnormSrgb"@,
        format is Bgra8Unorm ==> format_name@ == "Bgra8Unorm"@,
        format is Bgra8UnormSrgb ==> format_name@ == "Bgra8UnormSrgb"@,
        format matches TextureFormat::Other(name) ==> format_name@ == name@,
{
}

/// An import that failed says where, and why in full.
pub proof fn law_a_failed_import_says_why(error: ImportError, message: String)
    requires
        call_ensures(ImportError::message, (&error,), message),
    ensures
        error matches ImportError::BackendMismatch { frame, wgpu } ==> message@
            == "backend mismatch: frame is "@ + frame.spec_name() + " but wgpu reports "@
            + wgpu.spec_name(),
        error matches ImportError::InvalidFrame(reason) ==> message@ == "invalid native frame: "@
            + reason@,
        error matches ImportError::Unsupported(kind) ==> message@
            == "native import is not implemented for "@ + kind.spec_name(),
        error matches ImportError::D3d11OpenShared(reason) ==> message@
            == "D3D11 open-shared-resource failed: "@ + reason@,
        error matches ImportError::D3d12OpenShared(reason) ==> message@
            == "D3D12 open-shared-handle failed: "@ + reason@,
        error matches ImportError::MetalImport(reason) ==> message@
            == "Metal IOSurface import failed: "@ + reason@,
        error matches ImportError::VulkanImport(reason) ==> message@
            == "Vulkan external memory import failed: "@ + reason@,
        error matches ImportError::Hal(reason) ==> message@ == "wgpu-hal error: "@ + reason@,
{
}

/// The latest frame is taken once, and an older one that was not taken is gone.
pub proof fn law_the_latest_frame_is_taken_once<H>(
    before: PendingFrameSlot<H>,
    stored: PendingFrameSlot<H>,
    after: PendingFrameSlot<H>,
    frame: NativeFrame<H>,
    taken: Option<NativeFrame<H>>,
)
    requires
        exists|slot: &mut PendingFrameSlot<H>|
            *slot == before && *final(slot) == stored && #[trigger] call_ensures(
                PendingFrameSlot::<H>::store,
                (slot, frame),
                (),
            ),
        exists|slot: &mut PendingFrameSlot<H>|
            *slot == stored && *final(slot) == after && #[trigger] call_ensures(
                PendingFrameSlot::<H>::take,
                (slot,),
                taken,
            ),
    ensures
        taken == Some(frame),
        after.frame() is None,
        after.last_generation() == before.last_generation(),
{
}

/// Generations count up by one.
pub proof fn law_generations_count_up<H>(
    before: PendingFrameSlot<H>,
    after: PendingFrameSlot<H>,
    generation: u64,
)
    requires
        before.last_generation() < u64::MAX,
        exists|slot: &mut PendingFrameSlot<H>|
            *slot == before && *final(slot) == after && #[trigger] call_ensures(
                PendingFrameSlot::<H>::next_generation,
                (slot,),
                generation,
            ),
    ensures
        generation == before.last_generation() + 1,
        after.last_generation() == generation,
        after.frame() == before.frame(),
{
}

} // verus!
