//! The platforms a surface can run on, and sizes in physical pixels.
use vstd::prelude::*;

verus! {

/// The operating system a surface runs on.
#[derive(Clone, Copy, Debug, PartialEq, Eq, Structural)]
pub enum Platform {
    Windows,
    Macos,
    Linux,
    Android,
    /// An Apple system other than macOS.
    Ios,
    /// Anything else.
    Other,
}

impl Platform {
    /// Whether a browser paints accelerated surfaces there.
    pub open spec fn spec_is_accelerated(self) -> bool {
        self == Platform::Windows || self == Platform::Linux || self == Platform::Macos
    }

    /// Whether a browser paints accelerated surfaces there.
    pub fn is_accelerated(self) -> (accelerated: bool)
        ensures
            accelerated == self.spec_is_accelerated(),
    {
        matches!(self, Platform::Windows | Platform::Linux | Platform::Macos)
    }

    /// Whether the platform is one of Apple's.
    pub open spec fn spec_is_apple(self) -> bool {
        self == Platform::Macos || self == Platform::Ios
    }

    /// Whether the platform is one of Apple's.
    pub fn is_apple(self) -> (apple: bool)
        ensures
            apple == self.spec_is_apple(),
    {
        matches!(self, Platform::Macos | Platform::Ios)
    }
}

/// A size in physical pixels.
#[derive(Clone, Copy, Debug, PartialEq, Eq, Structural)]
pub struct PhysicalSize {
    pub width: u32,
    pub height: u32,
}

impl PhysicalSize {
    pub fn new(width: u32, height: u32) -> (size: PhysicalSize)
        ensures
            size == (PhysicalSize { width, height }),
    {
        PhysicalSize { width, height }
    }

    /// Whether the size covers no pixel.
    pub open spec fn spec_is_empty(self) -> bool {
        self.width == 0 || self.height == 0
    }

    /// Whether the size covers no pixel.
    pub fn is_empty(self) -> (empty: bool)
        ensures
            empty == self.spec_is_empty(),
    {
        self.width == 0 || self.height == 0
    }
}

/// Browsers paint accelerated surfaces on the three desktop systems, two systems are
/// Apple's, and a size covers a pixel exactly where both its sides do.
pub proof fn law_platforms_are_told_apart(
    platform: Platform,
    size: PhysicalSize,
    accelerated: bool,
    apple: bool,
    empty: bool,
)
    requires
        call_ensures(Platform::is_accelerated, (platform,), accelerated),
        call_ensures(Platform::is_apple, (platform,), apple),
        call_ensures(PhysicalSize::is_empty, (size,), empty),
    ensures
        accelerated <==> platform == Platform::Windows || platform == Platform::Macos || platform
            == Platform::Linux,
        apple <==> platform == Platform::Macos || platform == Platform::Ios,
        !empty <==> size.width > 0 && size.height > 0,
{
}

} // verus!
