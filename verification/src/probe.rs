//! Reading a small block of an imported texture back.
//!
//! A window that nobody watches proves nothing. Sampling real pixels does: where
//! the browser painted, they are not all zero.
use vstd::prelude::*;
use vstd::string::*;
use crate::native_frame::TextureFormat;
use crate::platform::Platform;

verus! {

/// The side of the block. 64 pixels of 4 bytes are 256 bytes, which is the
/// alignment that rows of a copy need.
pub const SIDE: u32 = 64;

/// The bytes in a row of the copy, whatever the width of the block.
pub const BYTES_PER_ROW: usize = 256;

/// How far a colour channel may be off.
pub const PIXEL_TOLERANCE: u8 = 8;

/// The block to read back.
#[derive(Clone, Copy, Debug, PartialEq, Eq, Structural)]
pub struct ProbeRegion {
    pub x: u32,
    pub y: u32,
    pub width: u32,
    pub height: u32,
}

/// The smaller of a side and [`SIDE`].
pub open spec fn block_side(side: u32) -> u32 {
    if side < SIDE {
        side
    } else {
        SIDE
    }
}

/// The block of a texture of this size: in its middle, or on macOS in its top
/// left corner.
pub open spec fn block(width: u32, height: u32, platform: Platform) -> ProbeRegion {
    let corner = platform == Platform::Macos;
    ProbeRegion {
        x: if corner {
            0
        } else {
            ((width - block_side(width)) / 2) as u32
        },
        y: if corner {
            0
        } else {
            ((height - block_side(height)) / 2) as u32
        },
        width: block_side(width),
        height: block_side(height),
    }
}

/// The block to read back from a texture of this size.
pub fn probe_region(width: u32, height: u32, platform: Platform) -> (region: Result<
    ProbeRegion,
    String,
>)
    ensures
        match region {
            Ok(region) => width > 0 && height > 0 && region == block(width, height, platform),
            Err(reason) => (width == 0 || height == 0) && reason@
                == "imported texture has a zero dimension"@,
        },
{
    let w: u32 = if width < SIDE {
        width
    } else {
        SIDE
    };
    let h: u32 = if height < SIDE {
        height
    } else {
        SIDE
    };
    if w == 0 || h == 0 {
        return Err("imported texture has a zero dimension".to_owned());
    }
    if platform == Platform::Macos {
        return Ok(ProbeRegion { x: 0, y: 0, width: w, height: h });
    }
    Ok(ProbeRegion { x: (width - w) / 2, y: (height - h) / 2, width: w, height: h })
}

/// The block lies inside the texture.
pub proof fn law_the_block_lies_inside(width: u32, height: u32, platform: Platform)
    ensures
        block(width, height, platform).x + block(width, height, platform).width <= width,
        block(width, height, platform).y + block(width, height, platform).height <= height,
        block(width, height, platform).width * 4 <= BYTES_PER_ROW,
{
}

/// What a block holds.
#[derive(Debug)]
pub struct Readback {
    pub non_zero_bytes: usize,
    pub total_bytes: usize,
    pub first_pixels: Vec<[u8; 4]>,
    /// The pixels of the block, row by row.
    pub pixels: Vec<[u8; 4]>,
    pub origin: (u32, u32),
}

/// How many bytes of `data` are not zero.
pub open spec fn non_zero(data: Seq<u8>) -> nat
    decreases data.len(),
{
    if data.len() == 0 {
        0
    } else {
        non_zero(data.drop_last()) + if data.last() != 0 {
            1nat
        } else {
            0nat
        }
    }
}

/// Whether two channels are at most `tolerance` apart.
pub open spec fn close_to(actual: u8, wanted: u8, tolerance: u8) -> bool {
    -(tolerance as int) <= actual - wanted <= tolerance
}

/// Whether all four channels of a pixel are at most `tolerance` off.
pub open spec fn matches_pixel(pixel: [u8; 4], expected: [u8; 4], tolerance: u8) -> bool {
    &&& close_to(pixel@[0], expected@[0], tolerance)
    &&& close_to(pixel@[1], expected@[1], tolerance)
    &&& close_to(pixel@[2], expected@[2], tolerance)
    &&& close_to(pixel@[3], expected@[3], tolerance)
}

/// How many pixels are at most `tolerance` off.
pub open spec fn matching(pixels: Seq<[u8; 4]>, expected: [u8; 4], tolerance: u8) -> nat
    decreases pixels.len(),
{
    if pixels.len() == 0 {
        0
    } else {
        matching(pixels.drop_last(), expected, tolerance) + if matches_pixel(
            pixels.last(),
            expected,
            tolerance,
        ) {
            1nat
        } else {
            0nat
        }
    }
}

/// Whether two channels are at most `tolerance` apart.
fn is_close(actual: u8, wanted: u8, tolerance: u8) -> (close: bool)
    ensures
        close == close_to(actual, wanted, tolerance),
{
    let difference: u8 = if actual < wanted {
        wanted - actual
    } else {
        actual - wanted
    };
    difference <= tolerance
}

/// Whether the pixel at column `x` of row `y` of the copy is `pixel`.
pub open spec fn pixel_at(data: Seq<u8>, x: int, y: int, pixel: [u8; 4]) -> bool {
    pixel@ == data.subrange(y * BYTES_PER_ROW + x * 4, y * BYTES_PER_ROW + x * 4 + 4)
}

/// Whether `pixels` are the first four pixels of the copy, or as many as it has,
/// with no regard to where the rows of the block end.
pub open spec fn leads_copy(data: Seq<u8>, pixels: Seq<[u8; 4]>) -> bool {
    &&& pixels.len() == (if data.len() < 16 {
        data.len() as int / 4
    } else {
        4
    })
    &&& forall|k: int|
        0 <= k < pixels.len() ==> (#[trigger] pixels[k])@ == data.subrange(4 * k, 4 * k + 4)
}

/// The first four pixels of the copy.
fn copy_start(data: &[u8]) -> (pixels: Vec<[u8; 4]>)
    ensures
        leads_copy(data@, pixels@),
{
    let mut pixels: Vec<[u8; 4]> = Vec::new();
    let mut i: usize = 0;
    while i < 4 && data.len() - 4 * i >= 4
        invariant
            i <= 4,
            4 * i <= data@.len(),
            pixels@.len() == i,
            forall|k: int|
                0 <= k < i ==> (#[trigger] pixels@[k])@ == data@.subrange(4 * k, 4 * k + 4),
        decreases 4 - i,
    {
        let pixel: [u8; 4] = [data[4 * i], data[4 * i + 1], data[4 * i + 2], data[4 * i + 3]];
        assert(pixel@ =~= data@.subrange(4 * i, 4 * i + 4));
        pixels.push(pixel);
        i += 1;
    }
    pixels
}

impl Readback {
    /// What the bytes of a copied block hold. `data` has a row of the block at
    /// the start of every row of the copy.
    ///
    /// The first pixels are those of the block on Windows and those of the copy
    /// elsewhere, where a narrow block leaves room for padding among them.
    pub fn from_bytes(data: &[u8], region: ProbeRegion, platform: Platform) -> (readback: Self)
        requires
            region.width <= SIDE,
            region.height <= SIDE,
            data@.len() >= region.height * BYTES_PER_ROW,
        ensures
            readback.total_bytes == data@.len(),
            readback.non_zero_bytes == non_zero(data@),
            readback.origin == (region.x, region.y),
            readback.pixels@.len() == region.width * region.height,
            forall|x: int, y: int|
                0 <= x < region.width && 0 <= y < region.height ==> pixel_at(
                    data@,
                    x,
                    y,
                    #[trigger] readback.pixels@[y * region.width + x],
                ),
            if platform == Platform::Windows {
                readback.first_pixels@ == readback.pixels@.take(
                    if readback.pixels@.len() < 4 {
                        readback.pixels@.len() as int
                    } else {
                        4
                    },
                )
            } else {
                leads_copy(data@, readback.first_pixels@)
            },
    {
        let mut non_zero_bytes: usize = 0;
        let mut i: usize = 0;
        while i < data.len()
            invariant
                i <= data@.len(),
                non_zero_bytes <= i,
                non_zero_bytes == non_zero(data@.take(i as int)),
            decreases data@.len() - i,
        {
            assert(data@.take(i + 1).drop_last() =~= data@.take(i as int));
            if data[i] != 0 {
                non_zero_bytes = non_zero_bytes + 1;
            }
            i += 1;
        }
        assert(data@.take(i as int) =~= data@);
        let width: usize = region.width as usize;
        let height: usize = region.height as usize;
        let mut pixels: Vec<[u8; 4]> = Vec::new();
        let mut first_pixels: Vec<[u8; 4]> = Vec::new();
        let mut y: usize = 0;
        while y < height
            invariant
                y <= height <= 64,
                width <= 64,
                width == region.width,
                height == region.height,
                data@.len() >= height * BYTES_PER_ROW,
                pixels@.len() == y * width,
                first_pixels@.len() == (if pixels@.len() < 4 {
                    pixels@.len()
                } else {
                    4
                }),
                first_pixels@ =~= pixels@.take(first_pixels@.len() as int),
                forall|a: int, b: int|
                    0 <= a < width && 0 <= b < y ==> pixel_at(
                        data@,
                        a,
                        b,
                        #[trigger] pixels@[b * width + a],
                    ),
            decreases height - y,
        {
            let mut x: usize = 0;
            while x < width
                invariant
                    x <= width <= 64,
                    y < height <= 64,
                    width == region.width,
                    data@.len() >= height * BYTES_PER_ROW,
                    pixels@.len() == y * width + x,
                    first_pixels@.len() == (if pixels@.len() < 4 {
                        pixels@.len()
                    } else {
                        4
                    }),
                    first_pixels@ =~= pixels@.take(first_pixels@.len() as int),
                    forall|a: int, b: int|
                        0 <= a < width && 0 <= b < y ==> pixel_at(
                            data@,
                            a,
                            b,
                            #[trigger] pixels@[b * width + a],
                        ),
                    forall|a: int|
                        0 <= a < x ==> pixel_at(
                            data@,
                            a,
                            y as int,
                            #[trigger] pixels@[y * width + a],
                        ),
                decreases width - x,
            {
                assert(y * BYTES_PER_ROW + x * 4 + 4 <= height * BYTES_PER_ROW)
                    by (nonlinear_arith)
                    requires
                        y < height,
                        x < 64,
                        BYTES_PER_ROW == 256,
                ;
                let start: usize = y * BYTES_PER_ROW + x * 4;
                let pixel: [u8; 4] = [
                    data[start],
                    data[start + 1],
                    data[start + 2],
                    data[start + 3],
                ];
                assert(pixel@ =~= data@.subrange(start as int, start + 4));
                let ghost before = pixels@;
                if first_pixels.len() < 4 {
                    first_pixels.push(pixel);
                }
                pixels.push(pixel);
                proof {
                    assert forall|a: int, b: int| 0 <= a < width && 0 <= b < y implies pixel_at(
                        data@,
                        a,
                        b,
                        #[trigger] pixels@[b * width + a],
                    ) by {
                        assert(0 <= b * width + a < y * width) by (nonlinear_arith)
                            requires
                                0 <= a < width,
                                0 <= b < y,
                        ;
                        assert(pixels@[b * width + a] == before[b * width + a]);
                    }
                    assert forall|a: int| 0 <= a < x + 1 implies pixel_at(
                        data@,
                        a,
                        y as int,
                        #[trigger] pixels@[y * width + a],
                    ) by {
                        if a < x {
                            assert(0 <= y * width + a < before.len()) by (nonlinear_arith)
                                requires
                                    0 <= a < x,
                                    before.len() == y * width + x,
                                    0 <= y,
                                    0 <= width,
                            ;
                            assert(pixels@[y * width + a] == before[y * width + a]);
                        }
                    }
                }
                x += 1;
            }
            assert((y + 1) * width == y * width + width) by (nonlinear_arith);
            proof {
                assert forall|a: int, b: int| 0 <= a < width && 0 <= b < y + 1 implies pixel_at(
                    data@,
                    a,
                    b,
                    #[trigger] pixels@[b * width + a],
                ) by {
                    if b == y {
                        assert(pixels@[b * width + a] == pixels@[y * width + a]);
                    }
                }
            }
            y += 1;
        }
        assert(region.width * region.height == height * width) by (nonlinear_arith)
            requires
                width == region.width,
                height == region.height,
        ;
        if platform != Platform::Windows {
            first_pixels = copy_start(data);
        }
        Readback {
            non_zero_bytes,
            total_bytes: data.len(),
            first_pixels,
            pixels,
            origin: (region.x, region.y),
        }
    }

    /// Whether anything was painted at all.
    pub fn looks_painted(&self) -> (painted: bool)
        ensures
            painted == (self.non_zero_bytes > 0),
    {
        self.non_zero_bytes > 0
    }

    /// How many pixels have every channel within `tolerance` of `expected`.
    pub fn matching_pixels(&self, expected: [u8; 4], tolerance: u8) -> (count: usize)
        ensures
            count == matching(self.pixels@, expected, tolerance),
            count <= self.pixels@.len(),
    {
        let mut count: usize = 0;
        let mut i: usize = 0;
        while i < self.pixels.len()
            invariant
                i <= self.pixels@.len(),
                count <= i,
                count == matching(self.pixels@.take(i as int), expected, tolerance),
            decreases self.pixels@.len() - i,
        {
            let pixel: [u8; 4] = self.pixels[i];
            assert(self.pixels@.take(i + 1).drop_last() =~= self.pixels@.take(i as int));
            assert(self.pixels@.take(i + 1).last() == pixel);
            if is_close(pixel[0], expected[0], tolerance) && is_close(
                pixel[1],
                expected[1],
                tolerance,
            ) && is_close(pixel[2], expected[2], tolerance) && is_close(
                pixel[3],
                expected[3],
                tolerance,
            ) {
                count = count + 1;
            }
            i += 1;
        }
        assert(self.pixels@.take(i as int) =~= self.pixels@);
        count
    }

    pub fn total_pixels(&self) -> (count: usize)
        ensures
            count == self.pixels@.len(),
    {
        self.pixels.len()
    }
}

/// The colour of the pixel fixture in the bytes of a format.
pub open spec fn fixture_pixel(format: TextureFormat) -> Option<Seq<u8>> {
    match format {
        TextureFormat::Bgra8Unorm | TextureFormat::Bgra8UnormSrgb => Some(
            seq![255u8, 144u8, 30u8, 255u8],
        ),
        TextureFormat::Rgba8Unorm | TextureFormat::Rgba8UnormSrgb => Some(
            seq![30u8, 144u8, 255u8, 255u8],
        ),
        TextureFormat::Other(_) => None,
    }
}

/// The colour of the pixel fixture in the bytes of a format.
pub fn pixel_fixture_expected(format: TextureFormat) -> (pixel: Option<[u8; 4]>)
    ensures
        match pixel {
            Some(pixel) => fixture_pixel(format) == Some(pixel@),
            None => fixture_pixel(format) is None,
        },
{
    let bgra: [u8; 4] = [255, 144, 30, 255];
    let rgba: [u8; 4] = [30, 144, 255, 255];
    assert(bgra@ =~= seq![255u8, 144u8, 30u8, 255u8]);
    assert(rgba@ =~= seq![30u8, 144u8, 255u8, 255u8]);
    match format {
        TextureFormat::Bgra8Unorm | TextureFormat::Bgra8UnormSrgb => Some(bgra),
        TextureFormat::Rgba8Unorm | TextureFormat::Rgba8UnormSrgb => Some(rgba),
        TextureFormat::Other(_) => None,
    }
}

/// What the last imported frame says of a run.
#[derive(Clone, Copy, Debug, PartialEq, Eq, Structural)]
pub enum Verdict {
    /// No frame was ever imported.
    NoFrame,
    /// The frame could not be read back.
    ReadbackFailed,
    /// Pixels are to be checked, and the format is none whose bytes are known.
    UnsupportedFormat,
    /// Pixels were checked against the fixture.
    Fixture { matched: usize, total: usize },
    /// Something was painted.
    Painted,
    /// Nothing was painted.
    AllZero,
}

impl Verdict {
    /// Whether the run passed.
    pub open spec fn spec_passed(self) -> bool {
        match self {
            Verdict::Fixture { matched, total } => matched == total,
            Verdict::Painted => true,
            _ => false,
        }
    }

    /// Whether the run passed.
    pub fn passed(self) -> (passed: bool)
        ensures
            passed == self.spec_passed(),
    {
        match self {
            Verdict::Fixture { matched, total } => matched == total,
            Verdict::Painted => true,
            _ => false,
        }
    }
}

/// What the last imported frame, with its format and what was read back of it,
/// says of a run. With the fixture every pixel has to match; without it, it is
/// enough that something was painted.
pub fn report(frame: Option<(TextureFormat, Option<&Readback>)>, fixture: bool) -> (verdict:
    Verdict)
    ensures
        match frame {
            None => verdict == Verdict::NoFrame,
            Some((_, None)) => verdict == Verdict::ReadbackFailed,
            Some((format, Some(readback))) => if !fixture {
                verdict == (if readback.non_zero_bytes > 0 {
                    Verdict::Painted
                } else {
                    Verdict::AllZero
                })
            } else {
                match fixture_pixel(format) {
                    None => verdict == Verdict::UnsupportedFormat,
                    Some(expected) => exists|pixel: [u8; 4]| #[trigger]
                        pixel@ == expected && verdict == (Verdict::Fixture {
                            matched: matching(
                                readback.pixels@,
                                pixel,
                                PIXEL_TOLERANCE,
                            ) as usize,
                            total: readback.pixels@.len() as usize,
                        }),
                }
            },
        },
{
    match frame {
        None => Verdict::NoFrame,
        Some((format, readback)) => match readback {
            None => Verdict::ReadbackFailed,
            Some(readback) => {
                if !fixture {
                    return if readback.looks_painted() {
                        Verdict::Painted
                    } else {
                        Verdict::AllZero
                    };
                }
                match pixel_fixture_expected(format) {
                    None => Verdict::UnsupportedFormat,
                    Some(expected) => Verdict::Fixture {
                        matched: readback.matching_pixels(expected, PIXEL_TOLERANCE),
                        total: readback.total_pixels(),
                    },
                }
            },
        },
    }
}

/// What the popup surface says of a run, where a popup was imported at all: it
/// has to be there still, and painted.
pub fn popup_report(imported: u32, popup: Option<Option<&Readback>>) -> (verdict: Option<Verdict>)
    ensures
        match popup {
            _ if imported == 0 => verdict is None,
            None => verdict == Some(Verdict::NoFrame),
            Some(None) => verdict == Some(Verdict::ReadbackFailed),
            Some(Some(readback)) => verdict == Some(
                if readback.non_zero_bytes > 0 {
                    Verdict::Painted
                } else {
                    Verdict::AllZero
                },
            ),
        },
{
    if imported == 0 {
        return None;
    }
    match popup {
        None => Some(Verdict::NoFrame),
        Some(None) => Some(Verdict::ReadbackFailed),
        Some(Some(readback)) => if readback.looks_painted() {
            Some(Verdict::Painted)
        } else {
            Some(Verdict::AllZero)
        },
    }
}

/// Every pixel of a block matches exactly where the number of matching pixels is
/// the number of pixels.
pub proof fn law_a_full_count_means_every_pixel(
    pixels: Seq<[u8; 4]>,
    expected: [u8; 4],
    tolerance: u8,
)
    ensures
        matching(pixels, expected, tolerance) <= pixels.len(),
        matching(pixels, expected, tolerance) == pixels.len() <==> forall|i: int|
            0 <= i < pixels.len() ==> matches_pixel(#[trigger] pixels[i], expected, tolerance),
    decreases pixels.len(),
{
    if pixels.len() > 0 {
        let rest = pixels.drop_last();
        law_a_full_count_means_every_pixel(rest, expected, tolerance);
        if matching(pixels, expected, tolerance) == pixels.len() {
            assert forall|i: int| 0 <= i < pixels.len() implies matches_pixel(
                #[trigger] pixels[i],
                expected,
                tolerance,
            ) by {
                if i < rest.len() {
                    assert(rest[i] == pixels[i]);
                }
            }
        } else {
            if forall|i: int|
                0 <= i < pixels.len() ==> matches_pixel(#[trigger] pixels[i], expected, tolerance) {
                assert forall|i: int| 0 <= i < rest.len() implies matches_pixel(
                    #[trigger] rest[i],
                    expected,
                    tolerance,
                ) by {
                    assert(rest[i] == pixels[i]);
                }
                assert(pixels[pixels.len() - 1] == pixels.last());
            }
        }
    }
}

/// The block that is read back is at most 64 pixels wide and high, and as large as
/// the texture where that is smaller. It sits in the middle, but in the corner on
/// macOS. A texture without a pixel has none.
pub proof fn law_a_block_is_read_from_the_middle(
    width: u32,
    height: u32,
    platform: Platform,
    region: Result<ProbeRegion, String>,
)
    requires
        call_ensures(probe_region, (width, height, platform), region),
    ensures
        region is Ok <==> width > 0 && height > 0,
        region matches Ok(region) ==> {
            &&& region.width == (if width < 64 { width } else { 64 })
            &&& region.height == (if height < 64 { height } else { 64 })
            &&& platform == Platform::Macos ==> region.x == 0 && region.y == 0
            &&& platform != Platform::Macos ==> 0 <= width - region.width - 2 * region.x <= 1 && 0
                <= height - region.height - 2 * region.y <= 1
        },
{
}

/// The fixture is dodger blue: red 30, green 144 and blue 255, opaque, in whichever
/// order the format has them. Other formats have no fixture.
pub proof fn law_the_fixture_is_one_colour(format: TextureFormat, pixel: Option<[u8; 4]>)
    requires
        call_ensures(pixel_fixture_expected, (format,), pixel),
    ensures
        pixel is None <==> format is Other,
        pixel matches Some(pixel) ==> pixel@[1] == 144 && pixel@[3] == 255,
        pixel matches Some(pixel) ==> (format is Rgba8Unorm || format is Rgba8UnormSrgb ==> pixel@[0]
            == 30 && pixel@[2] == 255) && (format is Bgra8Unorm || format is Bgra8UnormSrgb
            ==> pixel@[0] == 255 && pixel@[2] == 30),
{
}

/// A readback passed where the page was painted, or every pixel of a fixture was
/// right, and not otherwise.
pub proof fn law_only_a_painted_page_passes(verdict: Verdict, passed: bool)
    requires
        call_ensures(Verdict::passed, (verdict,), passed),
    ensures
        verdict == Verdict::Painted ==> passed,
        verdict matches Verdict::Fixture { matched, total } ==> (passed <==> matched == total),
        verdict == Verdict::NoFrame || verdict == Verdict::ReadbackFailed || verdict
            == Verdict::UnsupportedFormat || verdict == Verdict::AllZero ==> !passed,
{
}

/// A page looks painted exactly where a byte of it is not zero.
pub proof fn law_a_painted_page_has_a_byte(
    data: &[u8],
    region: ProbeRegion,
    platform: Platform,
    readback: Readback,
    painted: bool,
)
    requires
        region.width <= 64,
        region.height <= 64,
        data@.len() >= region.height * 256,
        call_ensures(Readback::from_bytes, (data, region, platform), readback),
        call_ensures(Readback::looks_painted, (&readback,), painted),
    ensures
        painted <==> exists|i: int| 0 <= i < data@.len() && #[trigger] data@[i] != 0,
        readback.total_bytes == data@.len(),
        readback.origin == (region.x, region.y),
        readback.pixels@.len() == region.width * region.height,
{
    lemma_non_zero(data@);
}

proof fn lemma_non_zero(data: Seq<u8>)
    ensures
        non_zero(data) > 0 <==> exists|i: int| 0 <= i < data.len() && #[trigger] data[i] != 0,
        non_zero(data) <= data.len(),
    decreases data.len(),
{
    if data.len() > 0 {
        let rest = data.drop_last();
        lemma_non_zero(rest);
        if non_zero(rest) > 0 {
            let i = choose|i: int| 0 <= i < rest.len() && #[trigger] rest[i] != 0;
            assert(data[i] == rest[i]);
        }
        if exists|i: int| 0 <= i < data.len() && #[trigger] data[i] != 0 {
            let i = choose|i: int| 0 <= i < data.len() && #[trigger] data[i] != 0;
            if i < rest.len() {
                assert(rest[i] == data[i]);
            }
        }
    }
}

/// Every pixel of the block is read from its own four bytes, row by row, rows 256
/// bytes apart.
pub proof fn law_pixels_are_read_from_their_bytes(
    data: &[u8],
    region: ProbeRegion,
    platform: Platform,
    readback: Readback,
    x: int,
    y: int,
    channel: int,
)
    requires
        region.width <= 64,
        region.height <= 64,
        data@.len() >= region.height * 256,
        0 <= x < region.width,
        0 <= y < region.height,
        0 <= channel < 4,
        call_ensures(Readback::from_bytes, (data, region, platform), readback),
    ensures
        readback.pixels@[y * region.width + x]@[channel] == data@[y * 256 + x * 4 + channel],
{
    assert(pixel_at(data@, x, y, readback.pixels@[y * region.width + x]));
    assert(y * 256 + x * 4 + 4 <= data@.len()) by (nonlinear_arith)
        requires
            0 <= x < region.width <= 64,
            0 <= y < region.height,
            data@.len() >= region.height * 256,
    ;
}

/// A pixel is right exactly where each of its channels is within the tolerance, above
/// or below.
pub proof fn law_a_pixel_is_right_within_the_tolerance(
    readback: Readback,
    expected: [u8; 4],
    tolerance: u8,
    count: usize,
)
    requires
        call_ensures(Readback::matching_pixels, (&readback, expected, tolerance), count),
    ensures
        count <= readback.pixels@.len(),
        count == readback.pixels@.len() <==> forall|i: int|
            0 <= i < readback.pixels@.len() ==> is_near(
                #[trigger] readback.pixels@[i],
                expected,
                tolerance,
            ),
        count == 0 <==> forall|i: int|
            0 <= i < readback.pixels@.len() ==> !is_near(
                #[trigger] readback.pixels@[i],
                expected,
                tolerance,
            ),
{
    lemma_matching(readback.pixels@, expected, tolerance);
}

/// Whether no channel of a pixel is further from the one expected than `tolerance`.
pub open spec fn is_near(pixel: [u8; 4], expected: [u8; 4], tolerance: u8) -> bool {
    forall|c: int|
        0 <= c < 4 ==> -(tolerance as int) <= #[trigger] pixel@[c] - expected@[c] <= tolerance
}

proof fn lemma_near(pixel: [u8; 4], expected: [u8; 4], tolerance: u8)
    ensures
        matches_pixel(pixel, expected, tolerance) <==> is_near(pixel, expected, tolerance),
{
    if is_near(pixel, expected, tolerance) {
        assert(-(tolerance as int) <= pixel@[0] - expected@[0] <= tolerance);
        assert(-(tolerance as int) <= pixel@[1] - expected@[1] <= tolerance);
        assert(-(tolerance as int) <= pixel@[2] - expected@[2] <= tolerance);
        assert(-(tolerance as int) <= pixel@[3] - expected@[3] <= tolerance);
    }
    if matches_pixel(pixel, expected, tolerance) {
        assert forall|c: int| 0 <= c < 4 implies -(tolerance as int) <= #[trigger] pixel@[c]
            - expected@[c] <= tolerance by {
            assert(c == 0 || c == 1 || c == 2 || c == 3);
        }
    }
}

proof fn lemma_matching(pixels: Seq<[u8; 4]>, expected: [u8; 4], tolerance: u8)
    ensures
        matching(pixels, expected, tolerance) <= pixels.len(),
        matching(pixels, expected, tolerance) == pixels.len() <==> forall|i: int|
            0 <= i < pixels.len() ==> is_near(#[trigger] pixels[i], expected, tolerance),
        matching(pixels, expected, tolerance) == 0 <==> forall|i: int|
            0 <= i < pixels.len() ==> !is_near(#[trigger] pixels[i], expected, tolerance),
    decreases pixels.len(),
{
    if pixels.len() > 0 {
        let rest = pixels.drop_last();
        lemma_matching(rest, expected, tolerance);
        lemma_near(pixels.last(), expected, tolerance);
        assert forall|i: int| 0 <= i < rest.len() implies #[trigger] rest[i] == pixels[i] by {
        }
        assert(pixels[pixels.len() - 1] == pixels.last());
        if forall|i: int|
            0 <= i < rest.len() ==> is_near(#[trigger] rest[i], expected, tolerance) {
            assert forall|i: int| 0 <= i < pixels.len() - 1 implies is_near(
                #[trigger] pixels[i],
                expected,
                tolerance,
            ) by {
                assert(rest[i] == pixels[i]);
            }
        }
        if forall|i: int|
            0 <= i < rest.len() ==> !is_near(#[trigger] rest[i], expected, tolerance) {
            assert forall|i: int| 0 <= i < pixels.len() - 1 implies !is_near(
                #[trigger] pixels[i],
                expected,
                tolerance,
            ) by {
                assert(rest[i] == pixels[i]);
            }
        }
    }
}

/// A report says what was seen: nothing, nothing readable, paint or none, and of a
/// fixture how many pixels were right.
pub proof fn law_a_report_says_what_was_seen(
    format: TextureFormat,
    readback: Readback,
    fixture: bool,
    nothing: Verdict,
    unread: Verdict,
    seen: Verdict,
    expected: [u8; 4],
    count: usize,
)
    requires
        call_ensures(report, (None, fixture), nothing),
        call_ensures(report, (Some((format, None)), fixture), unread),
        call_ensures(report, (Some((format, Some(&readback))), fixture), seen),
        call_ensures(pixel_fixture_expected, (format,), Some(expected)),
        call_ensures(Readback::matching_pixels, (&readback, expected, 8u8), count),
    ensures
        nothing == Verdict::NoFrame,
        unread == Verdict::ReadbackFailed,
        !fixture ==> (seen == Verdict::Painted <==> readback.non_zero_bytes > 0) && (seen
            == Verdict::AllZero <==> readback.non_zero_bytes == 0),
        fixture ==> (seen matches Verdict::Fixture { matched, total } && matched == count && total
            == readback.pixels@.len()),
{
    assert(readback.pixels.len() == readback.pixels@.len());
    if fixture {
        let pixel = choose|pixel: [u8; 4]| #[trigger]
            pixel@ == expected@ && seen == (Verdict::Fixture {
                matched: matching(readback.pixels@, pixel, 8) as usize,
                total: readback.pixels@.len() as usize,
            });
        lemma_matching_view(readback.pixels@, pixel, expected, 8);
    }
}

proof fn lemma_matching_view(
    pixels: Seq<[u8; 4]>,
    left: [u8; 4],
    right: [u8; 4],
    tolerance: u8,
)
    requires
        left@ == right@,
    ensures
        matching(pixels, left, tolerance) == matching(pixels, right, tolerance),
    decreases pixels.len(),
{
    if pixels.len() > 0 {
        lemma_matching_view(pixels.drop_last(), left, right, tolerance);
    }
}

/// A popup is reported only where one was imported, and then for what it shows.
pub proof fn law_a_popup_is_reported_once_imported(
    imported: u32,
    readback: Readback,
    verdict: Option<Verdict>,
)
    requires
        call_ensures(popup_report, (imported, Some(Some(&readback))), verdict),
    ensures
        verdict is None <==> imported == 0,
        verdict == Some(Verdict::Painted) <==> imported > 0 && readback.non_zero_bytes > 0,
        verdict == Some(Verdict::AllZero) <==> imported > 0 && readback.non_zero_bytes == 0,
{
}

/// The first pixels are the first of what was copied, at most four; on Windows the
/// first of the block.
pub proof fn law_the_first_pixels_come_first(
    data: &[u8],
    region: ProbeRegion,
    platform: Platform,
    readback: Readback,
    k: int,
    channel: int,
)
    requires
        region.width <= 64,
        region.height <= 64,
        data@.len() >= region.height * 256,
        call_ensures(Readback::from_bytes, (data, region, platform), readback),
        0 <= k < readback.first_pixels@.len(),
        0 <= channel < 4,
    ensures
        readback.first_pixels@.len() <= 4,
        platform != Platform::Windows && data@.len() >= 16 ==> readback.first_pixels@.len() == 4,
        platform != Platform::Windows ==> readback.first_pixels@[k]@[channel] == data@[4 * k
            + channel],
        platform == Platform::Windows ==> readback.first_pixels@[k] == readback.pixels@[k],
        platform == Platform::Windows && readback.pixels@.len() >= 4
            ==> readback.first_pixels@.len() == 4,
{
    if platform != Platform::Windows {
        assert(readback.first_pixels@[k]@ == data@.subrange(4 * k, 4 * k + 4));
    }
}

} // verus!
