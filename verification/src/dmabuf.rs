//! DMABUF images: planes over a table of owned descriptors.
//!
//! A plane is plain metadata that names a descriptor by its place in the table.
//! The same descriptor, or two descriptors of one kernel object, may back
//! several planes, and each must have one owner: [`deduplicated_raw_planes`]
//! decides which.
use vstd::prelude::*;
use crate::native_frame::{FrameInfo, ImportError, TextureFormat};
use crate::platform::PhysicalSize;

verus! {

/// `DRM_FORMAT_MOD_INVALID` from `drm_fourcc.h`: no explicit modifier.
pub const DRM_FORMAT_MOD_INVALID: u64 = 0x00ff_ffff_ffff_ffff;

/// `DRM_FORMAT_MOD_LINEAR` from `drm_fourcc.h`: no tiling, row-major.
pub const DRM_FORMAT_MOD_LINEAR: u64 = 0;

/// One plane of a DMABUF-backed image.
///
/// The plane is copyable metadata only. `buffer_index` selects the owned
/// descriptor in [`DmaBufImage`]'s buffer table, so dropping a standalone plane
/// never owns or leaks a descriptor.
#[derive(Clone, Copy, Debug, PartialEq, Eq, Structural)]
pub struct DmaBufPlane {
    /// Index into the image's buffer table.
    buffer_index: usize,
    /// Byte offset into the buffer where the plane data starts.
    offset: u64,
    /// Byte size of the plane.
    size: u64,
    /// Row stride in bytes.
    stride: u32,
}

/// The contents of a [`DmaBufPlane`].
pub struct PlaneView {
    pub buffer_index: usize,
    pub offset: u64,
    pub size: u64,
    pub stride: u32,
}

impl View for DmaBufPlane {
    type V = PlaneView;

    closed spec fn view(&self) -> PlaneView {
        PlaneView {
            buffer_index: self.buffer_index,
            offset: self.offset,
            size: self.size,
            stride: self.stride,
        }
    }
}

impl DmaBufPlane {
    pub fn new(buffer_index: usize, offset: u64, size: u64, stride: u32) -> (plane: Self)
        ensures
            plane@ == (PlaneView { buffer_index, offset, size, stride }),
    {
        DmaBufPlane { buffer_index, offset, size, stride }
    }

    pub fn buffer_index(&self) -> (buffer_index: usize)
        ensures
            buffer_index == self@.buffer_index,
    {
        self.buffer_index
    }

    pub fn offset(&self) -> (offset: u64)
        ensures
            offset == self@.offset,
    {
        self.offset
    }

    pub fn size(&self) -> (size: u64)
        ensures
            size == self@.size,
    {
        self.size
    }

    pub fn stride(&self) -> (stride: u32)
        ensures
            stride == self@.stride,
    {
        self.stride
    }
}

/// Why a set of planes over `buffer_count` descriptors makes no image.
pub open spec fn layout_fault(buffer_count: nat, planes: Seq<DmaBufPlane>) -> Option<Seq<char>> {
    if planes.len() == 0 {
        Some("DMABUF image has no planes"@)
    } else if buffer_count == 0 {
        Some("DMABUF image has no descriptor buffers"@)
    } else if exists|i: int| 0 <= i < planes.len() && #[trigger] planes[i]@.buffer_index
        >= buffer_count {
        Some("DMABUF plane buffer index is out of range"@)
    } else {
        None
    }
}

/// Whether an error says that the frame is invalid for the given reason.
pub open spec fn is_invalid_frame(error: ImportError, reason: Seq<char>) -> bool {
    error matches ImportError::InvalidFrame(text) && text@ == reason
}

/// Checks that there are planes, that there are descriptors, and that every
/// plane names one of them.
pub fn validate_image_layout(buffer_count: usize, planes: &Vec<DmaBufPlane>) -> (checked: Result<
    (),
    ImportError,
>)
    ensures
        match checked {
            Ok(()) => layout_fault(buffer_count as nat, planes@) is None,
            Err(error) => layout_fault(buffer_count as nat, planes@) matches Some(reason)
                && is_invalid_frame(error, reason),
        },
{
    if planes.len() == 0 {
        return Err(ImportError::InvalidFrame("DMABUF image has no planes"));
    }
    if buffer_count == 0 {
        return Err(ImportError::InvalidFrame("DMABUF image has no descriptor buffers"));
    }
    let mut i: usize = 0;
    while i < planes.len()
        invariant
            i <= planes.len(),
            buffer_count > 0,
            forall|k: int| 0 <= k < i ==> (#[trigger] planes@[k])@.buffer_index < buffer_count,
        decreases planes.len() - i,
    {
        if planes[i].buffer_index() >= buffer_count {
            assert(planes@[i as int]@.buffer_index >= buffer_count);
            return Err(ImportError::InvalidFrame("DMABUF plane buffer index is out of range"));
        }
        i += 1;
    }
    Ok(())
}

/// An image over a table of owned descriptors.
#[derive(Debug)]
pub struct DmaBufImage<H> {
    buffers: Vec<H>,
    planes: Vec<DmaBufPlane>,
    size: PhysicalSize,
    format: TextureFormat,
    drm_format: u32,
    modifier: u64,
    generation: u64,
}

impl<H> DmaBufImage<H> {
    /// The descriptors the image owns.
    pub closed spec fn spec_buffers(&self) -> Seq<H> {
        self.buffers@
    }

    /// The image's planes.
    pub closed spec fn spec_planes(&self) -> Seq<DmaBufPlane> {
        self.planes@
    }

    /// The image's DRM pixel format.
    pub closed spec fn spec_drm_format(&self) -> u32 {
        self.drm_format
    }

    /// The image's DRM modifier.
    pub closed spec fn spec_modifier(&self) -> u64 {
        self.modifier
    }

    /// What the frame says of itself.
    pub closed spec fn info(&self) -> FrameInfo {
        FrameInfo { size: self.size, format: self.format, generation: self.generation }
    }

    /// Whether the image has planes and each of them names one of its descriptors.
    pub open spec fn well_formed(&self) -> bool {
        layout_fault(self.spec_buffers().len(), self.spec_planes()) is None
    }

    /// Build an image from an owned descriptor table and per-plane metadata.
    ///
    /// The image owns every descriptor from this point onward. Where the layout
    /// is at fault the supplied descriptors are dropped.
    pub fn from_owned_buffers(
        buffers: Vec<H>,
        planes: Vec<DmaBufPlane>,
        size: PhysicalSize,
        format: TextureFormat,
        drm_format: u32,
        modifier: u64,
        generation: u64,
    ) -> (image: Result<Self, ImportError>)
        ensures
            match image {
                Ok(image) => {
                    &&& layout_fault(buffers@.len(), planes@) is None
                    &&& image.well_formed()
                    &&& image.spec_buffers() == buffers@
                    &&& image.spec_planes() == planes@
                    &&& image.spec_drm_format() == drm_format
                    &&& image.spec_modifier() == modifier
                    &&& image.info() == (FrameInfo { size, format, generation })
                },
                Err(error) => layout_fault(buffers@.len(), planes@) matches Some(reason)
                    && is_invalid_frame(error, reason),
            },
    {
        match validate_image_layout(buffers.len(), &planes) {
            Ok(()) => Ok(
                DmaBufImage { buffers, planes, size, format, drm_format, modifier, generation },
            ),
            Err(error) => Err(error),
        }
    }

    pub fn planes(&self) -> (planes: &Vec<DmaBufPlane>)
        ensures
            planes@ == self.spec_planes(),
    {
        &self.planes
    }

    pub fn buffer_count(&self) -> (count: usize)
        ensures
            count == self.spec_buffers().len(),
    {
        self.buffers.len()
    }

    pub fn size(&self) -> (size: PhysicalSize)
        ensures
            size == self.info().size,
    {
        self.size
    }

    pub fn format(&self) -> (format: TextureFormat)
        ensures
            format == self.info().format,
    {
        self.format
    }

    pub fn drm_format(&self) -> (drm_format: u32)
        ensures
            drm_format == self.spec_drm_format(),
    {
        self.drm_format
    }

    pub fn modifier(&self) -> (modifier: u64)
        ensures
            modifier == self.spec_modifier(),
    {
        self.modifier
    }

    pub fn generation(&self) -> (generation: u64)
        ensures
            generation == self.info().generation,
    {
        self.generation
    }

    /// Give up the descriptor table and the planes to an importer.
    pub fn into_owned_parts(self) -> (parts: (Vec<H>, Vec<DmaBufPlane>))
        ensures
            parts.0@ == self.spec_buffers(),
            parts.1@ == self.spec_planes(),
    {
        (self.buffers, self.planes)
    }
}

// ── One owner per kernel object ───────────────────────────────────────────────

/// Where `x` first occurs in `s`, or the length of `s`.
pub open spec fn first_at<T>(s: Seq<T>, x: T) -> int
    decreases s.len(),
{
    if s.len() == 0 || s.first() == x {
        0
    } else {
        1 + first_at(s.drop_first(), x)
    }
}

/// The distinct elements of `s`, in the order of their first occurrence.
pub open spec fn distinct<T>(s: Seq<T>) -> Seq<T>
    decreases s.len(),
{
    if s.len() == 0 {
        s
    } else if s.drop_last().contains(s.last()) {
        distinct(s.drop_last())
    } else {
        distinct(s.drop_last()).push(s.last())
    }
}

proof fn lemma_first_at<T>(s: Seq<T>, x: T)
    ensures
        0 <= first_at(s, x) <= s.len(),
        first_at(s, x) < s.len() <==> s.contains(x),
        first_at(s, x) < s.len() ==> s[first_at(s, x)] == x,
        forall|i: int| 0 <= i < first_at(s, x) ==> #[trigger] s[i] != x,
    decreases s.len(),
{
    if s.len() > 0 && s.first() != x {
        let rest = s.drop_first();
        lemma_first_at(rest, x);
        assert forall|i: int| 0 <= i < first_at(s, x) implies #[trigger] s[i] != x by {
            if i > 0 {
                assert(rest[i - 1] == s[i]);
            }
        }
        if rest.contains(x) {
            let i = choose|i: int| 0 <= i < rest.len() && rest[i] == x;
            assert(s[i + 1] == x);
        }
        if s.contains(x) {
            let i = choose|i: int| 0 <= i < s.len() && s[i] == x;
            assert(rest[i - 1] == x);
        }
    }
}

/// The first place of `x` is fixed by `x` standing there and nowhere before.
proof fn lemma_first_at_is<T>(s: Seq<T>, x: T, i: int)
    requires
        0 <= i < s.len(),
        s[i] == x,
        forall|k: int| 0 <= k < i ==> #[trigger] s[k] != x,
    ensures
        first_at(s, x) == i,
{
    lemma_first_at(s, x);
    let f = first_at(s, x);
    if f < i {
        assert(s[f] != x);
    }
}

/// Appending does not move the first place of what is already there.
proof fn lemma_first_at_push<T>(s: Seq<T>, y: T, x: T)
    ensures
        s.contains(x) ==> first_at(s.push(y), x) == first_at(s, x),
        !s.contains(y) ==> first_at(s.push(y), y) == s.len(),
{
    lemma_first_at(s, x);
    lemma_first_at(s, y);
    if s.contains(x) {
        let f = first_at(s, x);
        assert(s.push(y)[f] == x);
        assert forall|k: int| 0 <= k < f implies #[trigger] s.push(y)[k] != x by {
            assert(s[k] != x);
        }
        lemma_first_at_is(s.push(y), x, f);
    }
    if !s.contains(y) {
        assert forall|k: int| 0 <= k < s.len() implies #[trigger] s.push(y)[k] != y by {
            assert(s[k] != y);
        }
        lemma_first_at_is(s.push(y), y, s.len() as int);
    }
}

proof fn lemma_distinct<T>(s: Seq<T>)
    ensures
        distinct(s).no_duplicates(),
        forall|x: T| #[trigger] distinct(s).contains(x) <==> s.contains(x),
    decreases s.len(),
{
    if s.len() > 0 {
        let t = s.drop_last();
        lemma_distinct(t);
        assert(s == t.push(s.last()));
        assert forall|x: T| #[trigger] distinct(s).contains(x) <==> s.contains(x) by {
            assert(s.contains(x) <==> t.contains(x) || x == s.last()) by {
                if t.contains(x) {
                    let i = choose|i: int| 0 <= i < t.len() && t[i] == x;
                    assert(s[i] == x);
                }
                if x == s.last() {
                    assert(s[s.len() - 1] == x);
                }
                if s.contains(x) && x != s.last() {
                    let i = choose|i: int| 0 <= i < s.len() && s[i] == x;
                    assert(t[i] == x);
                }
            }
            let d = distinct(t);
            assert(d.contains(x) <==> t.contains(x));
            if !t.contains(s.last()) {
                let e = d.push(s.last());
                if d.contains(x) {
                    let i = choose|i: int| 0 <= i < d.len() && d[i] == x;
                    assert(e[i] == x);
                }
                assert(e[d.len() as int] == s.last());
                if e.contains(x) && x != s.last() {
                    let i = choose|i: int| 0 <= i < e.len() && e[i] == x;
                    assert(d[i] == x);
                }
            }
        }
        if !t.contains(s.last()) {
            assert(!distinct(t).contains(s.last()));
        }
    }
}

/// What the kernel says a descriptor refers to. Two descriptors with the same
/// identity are duplicates of one another.
#[derive(Clone, Copy, Debug, PartialEq, Eq, Structural)]
pub struct FdIdentity {
    pub device: u64,
    pub inode: u64,
}

/// The descriptors of the planes, in order.
pub open spec fn descriptors(raw_planes: Seq<(i32, u64, u64, u32)>) -> Seq<i32> {
    Seq::new(raw_planes.len(), |i: int| raw_planes[i].0)
}

/// What a descriptor refers to: what was found where it first occurs.
pub open spec fn kernel_object(
    raw_planes: Seq<(i32, u64, u64, u32)>,
    identities: Seq<Option<FdIdentity>>,
    fd: i32,
) -> Option<FdIdentity> {
    identities[first_at(descriptors(raw_planes), fd)]
}

/// What the planes' descriptors refer to, in order.
pub open spec fn kernel_objects(
    raw_planes: Seq<(i32, u64, u64, u32)>,
    identities: Seq<Option<FdIdentity>>,
) -> Seq<Option<FdIdentity>> {
    Seq::new(
        raw_planes.len(),
        |i: int| kernel_object(raw_planes, identities, raw_planes[i].0),
    )
}

/// The descriptors that own the kernel objects: of each, the first.
pub open spec fn owning_descriptors(
    raw_planes: Seq<(i32, u64, u64, u32)>,
    identities: Seq<Option<FdIdentity>>,
) -> Seq<i32> {
    let objects = kernel_objects(raw_planes, identities);
    Seq::new(
        distinct(objects).len(),
        |k: int| descriptors(raw_planes)[first_at(objects, distinct(objects)[k])],
    )
}

/// The plane at `i`, which refers to the owner of what its descriptor refers to.
pub open spec fn shared_plane(
    raw_planes: Seq<(i32, u64, u64, u32)>,
    identities: Seq<Option<FdIdentity>>,
    i: int,
) -> PlaneView {
    let objects = kernel_objects(raw_planes, identities);
    PlaneView {
        buffer_index: first_at(distinct(objects), objects[i]) as usize,
        offset: raw_planes[i].1,
        size: raw_planes[i].2,
        stride: raw_planes[i].3,
    }
}

/// Whether the plane at `i` is the first whose descriptor is at fault, for `reason`.
pub open spec fn is_first_fault(
    raw_planes: Seq<(i32, u64, u64, u32)>,
    identities: Seq<Option<FdIdentity>>,
    i: int,
    reason: Seq<char>,
) -> bool {
    &&& 0 <= i < raw_planes.len()
    &&& descriptor_fault(raw_planes, identities, i) == Some(reason)
    &&& forall|k: int|
        0 <= k < i ==> #[trigger] descriptor_fault(raw_planes, identities, k) is None
}

/// Whether `fds` holds every descriptor that can be closed, once.
pub open spec fn is_custody(fds: Seq<i32>, raw_planes: Seq<(i32, u64, u64, u32)>) -> bool {
    &&& fds.no_duplicates()
    &&& forall|fd: i32| #[trigger]
        fds.contains(fd) <==> fd >= 0 && descriptors(raw_planes).contains(fd)
}

/// What is wrong with one plane's descriptor.
pub open spec fn descriptor_fault(
    raw_planes: Seq<(i32, u64, u64, u32)>,
    identities: Seq<Option<FdIdentity>>,
    i: int,
) -> Option<Seq<char>> {
    if raw_planes[i].0 < 0 {
        Some("DMABUF plane fd is negative"@)
    } else if kernel_object(raw_planes, identities, raw_planes[i].0) is None {
        Some("DMABUF plane fd is invalid"@)
    } else {
        None
    }
}

/// Which descriptors become the buffers of an image, which are surplus, and how
/// the planes refer to the buffers.
#[derive(Debug)]
pub struct PlaneTable {
    /// The descriptors that become the image's buffers, in order.
    pub kept: Vec<i32>,
    /// The descriptors of kernel objects that another descriptor already owns.
    /// The caller closes them.
    pub closed: Vec<i32>,
    /// The planes, over the indices of `kept`.
    pub planes: Vec<DmaBufPlane>,
}

/// Why the planes make no table, and what the caller has to close.
#[derive(Debug)]
pub struct PlaneFault {
    pub error: ImportError,
    /// Every descriptor that was handed over, once.
    pub closed: Vec<i32>,
}

/// Whether `fd` stands in `fds`.
fn holds(fds: &Vec<i32>, fd: i32) -> (found: bool)
    ensures
        found == fds@.contains(fd),
{
    let mut i: usize = 0;
    while i < fds.len()
        invariant
            i <= fds.len(),
            forall|k: int| 0 <= k < i ==> #[trigger] fds@[k] != fd,
        decreases fds.len() - i,
    {
        if fds[i] == fd {
            return true;
        }
        i += 1;
    }
    false
}

/// Every non-negative descriptor of the planes, once.
fn custody(raw_planes: &Vec<(i32, u64, u64, u32)>) -> (fds: Vec<i32>)
    ensures
        is_custody(fds@, raw_planes@),
{
    let mut fds: Vec<i32> = Vec::new();
    let mut i: usize = 0;
    let ghost all = descriptors(raw_planes@);
    while i < raw_planes.len()
        invariant
            i <= raw_planes.len(),
            all == descriptors(raw_planes@),
            fds@.no_duplicates(),
            forall|fd: i32| #[trigger]
                fds@.contains(fd) <==> fd >= 0 && all.take(i as int).contains(fd),
        decreases raw_planes.len() - i,
    {
        let fd: i32 = raw_planes[i].0;
        let ghost before = fds@;
        let ghost seen = all.take(i as int);
        assert(all.take(i + 1) == seen.push(fd));
        if fd >= 0 && !holds(&fds, fd) {
            fds.push(fd);
        }
        assert forall|x: i32| #[trigger]
            fds@.contains(x) <==> x >= 0 && all.take(i + 1).contains(x) by {
            lemma_push_contains(seen, fd, x);
            lemma_push_contains(before, fd, x);
        }
        i += 1;
    }
    assert(all.take(i as int) == all);
    fds
}

proof fn lemma_push_contains<T>(s: Seq<T>, y: T, x: T)
    ensures
        s.push(y).contains(x) <==> s.contains(x) || x == y,
{
    if s.contains(x) {
        let i = choose|i: int| 0 <= i < s.len() && s[i] == x;
        assert(s.push(y)[i] == x);
    }
    assert(s.push(y)[s.len() as int] == y);
    if s.push(y).contains(x) && x != y {
        let i = choose|i: int| 0 <= i < s.push(y).len() && s.push(y)[i] == x;
        assert(s[i] == x);
    }
}

/// The index at which `fd` was recorded.
fn recorded(seen: &Vec<(i32, usize)>, fd: i32) -> (index: Option<usize>)
    ensures
        match index {
            Some(index) => exists|k: int|
                0 <= k < seen@.len() && #[trigger] seen@[k] == (fd, index),
            None => !is_recorded(seen@, fd),
        },
{
    let mut i: usize = 0;
    while i < seen.len()
        invariant
            i <= seen.len(),
            forall|k: int| 0 <= k < i ==> (#[trigger] seen@[k]).0 != fd,
        decreases seen.len() - i,
    {
        if seen[i].0 == fd {
            assert(seen@[i as int] == (fd, seen@[i as int].1));
            return Some(seen[i].1);
        }
        i += 1;
    }
    None
}

/// Where `identity` stands among the identities of the buffers.
fn buffer_of(identities: &Vec<FdIdentity>, identity: FdIdentity) -> (index: Option<usize>)
    ensures
        match index {
            Some(index) => index < identities.len() && identities@[index as int] == identity
                && forall|k: int| 0 <= k < index ==> #[trigger] identities@[k] != identity,
            None => forall|k: int|
                0 <= k < identities@.len() ==> #[trigger] identities@[k] != identity,
        },
{
    let mut i: usize = 0;
    while i < identities.len()
        invariant
            i <= identities.len(),
            forall|k: int| 0 <= k < i ==> #[trigger] identities@[k] != identity,
        decreases identities.len() - i,
    {
        if identities[i] == identity {
            return Some(i);
        }
        i += 1;
    }
    None
}

/// Gives every kernel object behind the planes one owner.
///
/// Each plane is `(descriptor, offset, size, stride)`, and `identities` says what
/// the kernel found behind the descriptor of the plane at the same place, or
/// `None` where it knows no such descriptor. A descriptor that occurs again
/// refers to the buffer it already has. A descriptor of a kernel object that an
/// earlier one owns shares that buffer and is closed. Where a descriptor is
/// negative or unknown, everything that was handed over is closed.
pub fn deduplicated_raw_planes(
    raw_planes: &Vec<(i32, u64, u64, u32)>,
    identities: &Vec<Option<FdIdentity>>,
) -> (outcome: Result<PlaneTable, PlaneFault>)
    requires
        identities@.len() == raw_planes@.len(),
    ensures
        match outcome {
            Ok(table) => {
                &&& forall|i: int|
                    0 <= i < raw_planes@.len() ==> #[trigger] descriptor_fault(
                        raw_planes@,
                        identities@,
                        i,
                    ) is None
                &&& table.kept@ == owning_descriptors(raw_planes@, identities@)
                &&& table.kept@.no_duplicates()
                &&& table.planes@.len() == raw_planes@.len()
                &&& forall|i: int|
                    0 <= i < raw_planes@.len() ==> {
                        &&& (#[trigger] table.planes@[i])@ == shared_plane(
                            raw_planes@,
                            identities@,
                            i,
                        )
                        &&& table.planes@[i]@.buffer_index < table.kept@.len()
                    }
                &&& table.closed@.no_duplicates()
                &&& forall|fd: i32| #[trigger]
                    table.closed@.contains(fd) <==> descriptors(raw_planes@).contains(fd)
                        && !table.kept@.contains(fd)
            },
            Err(fault) => {
                &&& exists|i: int, reason: Seq<char>| #[trigger]
                    is_first_fault(raw_planes@, identities@, i, reason) && is_invalid_frame(
                        fault.error,
                        reason,
                    )
                &&& is_custody(fault.closed@, raw_planes@)
            },
        },
{
    let ghost fds = descriptors(raw_planes@);
    let ghost objects = kernel_objects(raw_planes@, identities@);
    let mut seen: Vec<(i32, usize)> = Vec::new();
    let mut owners: Vec<FdIdentity> = Vec::new();
    let mut kept: Vec<i32> = Vec::new();
    let mut closed: Vec<i32> = Vec::new();
    let mut planes: Vec<DmaBufPlane> = Vec::new();
    let mut i: usize = 0;
    while i < raw_planes.len()
        invariant
            i <= raw_planes.len(),
            identities@.len() == raw_planes@.len(),
            fds == descriptors(raw_planes@),
            objects == kernel_objects(raw_planes@, identities@),
            forall|k: int|
                0 <= k < i ==> #[trigger] descriptor_fault(raw_planes@, identities@, k) is None,
            // What was seen of the descriptors.
            forall|fd: i32| #[trigger]
                is_recorded(seen@, fd) <==> fds.take(i as int).contains(fd),
            forall|k: int|
                0 <= k < seen@.len() ==> {
                    &&& 0 <= (#[trigger] seen@[k]).1 < owners@.len()
                    &&& Some(owners@[seen@[k].1 as int]) == kernel_object(
                        raw_planes@,
                        identities@,
                        seen@[k].0,
                    )
                    &&& seen@[k].1 == first_at(
                        distinct(objects.take(i as int)),
                        kernel_object(raw_planes@, identities@, seen@[k].0),
                    )
                },
            // The owners are the distinct kernel objects so far.
            owners@.len() == distinct(objects.take(i as int)).len(),
            owners@.len() <= i,
            forall|k: int|
                0 <= k < owners@.len() ==> Some(#[trigger] owners@[k]) == distinct(
                    objects.take(i as int),
                )[k],
            kept@.len() == owners@.len(),
            forall|k: int|
                0 <= k < kept@.len() ==> #[trigger] kept@[k] == fds[first_at(
                    objects,
                    distinct(objects.take(i as int))[k],
                )],
            forall|k: int|
                0 <= k < kept@.len() ==> fds.take(i as int).contains(#[trigger] kept@[k]),
            kept@.no_duplicates(),
            closed@.no_duplicates(),
            forall|fd: i32| #[trigger]
                closed@.contains(fd) <==> fds.take(i as int).contains(fd) && !kept@.contains(fd),
            planes@.len() == i,
            forall|k: int|
                0 <= k < i ==> {
                    &&& (#[trigger] planes@[k])@ == (PlaneView {
                        buffer_index: first_at(
                            distinct(objects.take(i as int)),
                            objects[k],
                        ) as usize,
                        offset: raw_planes@[k].1,
                        size: raw_planes@[k].2,
                        stride: raw_planes@[k].3,
                    })
                    &&& distinct(objects.take(i as int)).contains(objects[k])
                },
        decreases raw_planes.len() - i,
    {
        let plane: (i32, u64, u64, u32) = raw_planes[i];
        let fd: i32 = plane.0;
        let ghost before = distinct(objects.take(i as int));
        let ghost object = objects[i as int];
        let ghost seen_fds = fds.take(i as int);
        proof {
            assert(fds[i as int] == fd);
            assert(fds.take(i + 1) == seen_fds.push(fd));
            assert(objects.take(i + 1).drop_last() == objects.take(i as int));
            assert(objects.take(i + 1).last() == object);
            lemma_distinct(objects.take(i as int));
            lemma_first_at(fds, fd);
            lemma_first_at(before, object);
            assert forall|x: i32| seen_fds.push(fd).contains(x) <==> seen_fds.contains(x) || x
                == fd by {
                lemma_push_contains(seen_fds, fd, x);
            }
        }
        if fd < 0 {
            assert(is_first_fault(
                raw_planes@,
                identities@,
                i as int,
                "DMABUF plane fd is negative"@,
            ));
            return Err(
                PlaneFault {
                    error: ImportError::InvalidFrame("DMABUF plane fd is negative"),
                    closed: custody(raw_planes),
                },
            );
        }
        let buffer_index: usize = match recorded(&seen, fd) {
            Some(index) => {
                proof {
                    let k = choose|k: int| 0 <= k < seen@.len() && #[trigger] seen@[k] == (fd, index);
                    assert(is_recorded(seen@, fd));
                    assert(before[index as int] == object);
                    assert(objects.take(i as int).contains(object));
                    assert(descriptor_fault(raw_planes@, identities@, i as int) is None);
                    assert(distinct(objects.take(i + 1)) == before);
                }
                index
            },
            None => {
                proof {
                    assert(!seen_fds.contains(fd));
                    assert forall|k: int| 0 <= k < i implies #[trigger] fds[k] != fd by {
                        assert(seen_fds[k] == fds[k]);
                    }
                    lemma_first_at_is(fds, fd, i as int);
                    assert(object == identities@[i as int]);
                }
                match identities[i] {
                    None => {
                        assert(is_first_fault(
                            raw_planes@,
                            identities@,
                            i as int,
                            "DMABUF plane fd is invalid"@,
                        ));
                        return Err(
                            PlaneFault {
                                error: ImportError::InvalidFrame("DMABUF plane fd is invalid"),
                                closed: custody(raw_planes),
                            },
                        );
                    },
                    Some(identity) => {
                        assert(descriptor_fault(raw_planes@, identities@, i as int) is None);
                        let ghost seen_before = seen@;
                        let ghost closed_before = closed@;
                        let ghost kept_before = kept@;
                        match buffer_of(&owners, identity) {
                            Some(index) => {
                                proof {
                                    assert(before[index as int] == object);
                                    assert forall|k: int| 0 <= k < index implies #[trigger] before[k]
                                        != object by {
                                        assert(owners@[k] != identity);
                                    }
                                    lemma_first_at_is(before, object, index as int);
                                    assert(objects.take(i as int).contains(object));
                                    assert(distinct(objects.take(i + 1)) == before);
                                    if kept@.contains(fd) {
                                        let k = choose|k: int|
                                            0 <= k < kept@.len() && kept@[k] == fd;
                                        assert(seen_fds.contains(kept@[k]));
                                    }
                                }
                                closed.push(fd);
                                seen.push((fd, index));
                                proof {
                                    assert forall|x: i32| #[trigger]
                                        closed@.contains(x) <==> seen_fds.push(fd).contains(x)
                                            && !kept@.contains(x) by {
                                        lemma_push_contains(closed_before, fd, x);
                                    }
                                    assert(!closed_before.contains(fd));
                                    lemma_seen_push(seen_before, fd, index);
                                }
                                index
                            },
                            None => {
                                let index: usize = kept.len();
                                proof {
                                    if before.contains(object) {
                                        let k = choose|k: int|
                                            0 <= k < before.len() && before[k] == object;
                                        assert(owners@[k] != identity);
                                    }
                                    assert(!objects.take(i as int).contains(object));
                                    assert(distinct(objects.take(i + 1)) == before.push(object));
                                    assert forall|k: int| 0 <= k < i implies #[trigger] objects[k]
                                        != object by {
                                        assert(objects.take(i as int)[k] == objects[k]);
                                    }
                                    lemma_first_at_is(objects, object, i as int);
                                    lemma_first_at_push(before, object, object);
                                    if kept@.contains(fd) {
                                        let k = choose|k: int|
                                            0 <= k < kept@.len() && kept@[k] == fd;
                                        assert(seen_fds.contains(kept@[k]));
                                    }
                                }
                                kept.push(fd);
                                owners.push(identity);
                                seen.push((fd, index));
                                proof {
                                    assert forall|x: i32| #[trigger]
                                        closed@.contains(x) <==> seen_fds.push(fd).contains(x)
                                            && !kept@.contains(x) by {
                                        lemma_push_contains(kept_before, fd, x);
                                    }
                                    lemma_seen_push(seen_before, fd, index);
                                    assert forall|k: int| 0 <= k < seen_before.len() implies first_at(
                                        before.push(object),
                                        kernel_object(
                                            raw_planes@,
                                            identities@,
                                            (#[trigger] seen_before[k]).0,
                                        ),
                                    ) == seen_before[k].1 by {
                                        assert(before[seen_before[k].1 as int] == kernel_object(
                                            raw_planes@,
                                            identities@,
                                            seen_before[k].0,
                                        ));
                                        lemma_first_at_push(
                                            before,
                                            object,
                                            kernel_object(
                                                raw_planes@,
                                                identities@,
                                                seen_before[k].0,
                                            ),
                                        );
                                    }
                                    assert forall|k: int| 0 <= k < i implies first_at(
                                        before.push(object),
                                        #[trigger] objects[k],
                                    ) == first_at(before, objects[k]) && before.push(
                                        object,
                                    ).contains(objects[k]) by {
                                        assert(planes@[k]@.offset == raw_planes@[k].1);
                                        lemma_first_at_push(before, object, objects[k]);
                                        lemma_push_contains(before, object, objects[k]);
                                    }
                                    lemma_push_contains(before, object, object);
                                }
                                index
                            },
                        }
                    },
                }
            },
        };
        planes.push(DmaBufPlane::new(buffer_index, plane.1, plane.2, plane.3));
        i += 1;
    }
    proof {
        assert(fds.take(i as int) == fds);
        assert(objects.take(i as int) == objects);
        assert(kept@ =~= owning_descriptors(raw_planes@, identities@));
        assert forall|k: int| 0 <= k < raw_planes@.len() implies (#[trigger] planes@[k])@
            == shared_plane(raw_planes@, identities@, k) && planes@[k]@.buffer_index
            < kept@.len() by {
            lemma_first_at(distinct(objects), objects[k]);
        }
    }
    Ok(PlaneTable { kept, closed, planes })
}

/// Whether an index was recorded for `fd`.
spec fn is_recorded(seen: Seq<(i32, usize)>, fd: i32) -> bool {
    exists|k: int| 0 <= k < seen.len() && (#[trigger] seen[k]).0 == fd
}

/// Recording one more descriptor adds that descriptor to the record.
proof fn lemma_seen_push(seen: Seq<(i32, usize)>, fd: i32, index: usize)
    ensures
        forall|x: i32| #[trigger]
            is_recorded(seen.push((fd, index)), x) <==> is_recorded(seen, x) || x == fd,
{
    let after = seen.push((fd, index));
    assert forall|x: i32| #[trigger] is_recorded(after, x) <==> is_recorded(seen, x) || x == fd by {
        if is_recorded(seen, x) {
            let k = choose|k: int| 0 <= k < seen.len() && (#[trigger] seen[k]).0 == x;
            assert(after[k].0 == x);
        }
        assert(after[seen.len() as int].0 == fd);
        if is_recorded(after, x) {
            let k = choose|k: int| 0 <= k < after.len() && (#[trigger] after[k]).0 == x;
            if k < seen.len() {
                assert(seen[k].0 == x);
            }
        }
    }
}

/// Two planes share a buffer exactly where their descriptors refer to the same
/// kernel object, and each descriptor refers to one buffer wherever it occurs.
pub proof fn law_planes_share_a_buffer_per_kernel_object(
    raw_planes: Seq<(i32, u64, u64, u32)>,
    identities: Seq<Option<FdIdentity>>,
    i: int,
    j: int,
)
    requires
        identities.len() == raw_planes.len(),
        0 <= i < raw_planes.len(),
        0 <= j < raw_planes.len(),
    ensures
        ({
            let objects = kernel_objects(raw_planes, identities);
            let buffers = distinct(objects);
            &&& first_at(buffers, objects[i]) == first_at(buffers, objects[j]) <==> objects[i]
                == objects[j]
            &&& raw_planes[i].0 == raw_planes[j].0 ==> objects[i] == objects[j]
        }),
{
    let objects = kernel_objects(raw_planes, identities);
    let buffers = distinct(objects);
    lemma_distinct(objects);
    assert(objects.contains(objects[i]));
    assert(objects.contains(objects[j]));
    lemma_first_at(buffers, objects[i]);
    lemma_first_at(buffers, objects[j]);
}

/// An image over raw descriptors, and the descriptors it has no use for.
#[derive(Debug)]
pub struct RawImage {
    pub image: DmaBufImage<i32>,
    /// The descriptors of kernel objects that another descriptor already owns.
    /// The caller closes them.
    pub closed: Vec<i32>,
}

impl DmaBufImage<i32> {
    /// Build an image from owned raw per-plane descriptors, with one owner for
    /// each kernel object.
    ///
    /// Where a descriptor is at fault, or there is no plane, there is no image
    /// and the caller closes everything that was handed over.
    pub fn from_owned_raw_planes(
        raw_planes: &Vec<(i32, u64, u64, u32)>,
        identities: &Vec<Option<FdIdentity>>,
        size: PhysicalSize,
        format: TextureFormat,
        drm_format: u32,
        modifier: u64,
        generation: u64,
    ) -> (outcome: Result<RawImage, PlaneFault>)
        requires
            identities@.len() == raw_planes@.len(),
        ensures
            match outcome {
                Ok(RawImage { image, closed }) => {
                    &&& raw_planes@.len() > 0
                    &&& forall|i: int|
                        0 <= i < raw_planes@.len() ==> #[trigger] descriptor_fault(
                            raw_planes@,
                            identities@,
                            i,
                        ) is None
                    &&& image.well_formed()
                    &&& image.spec_buffers() == owning_descriptors(raw_planes@, identities@)
                    &&& image.spec_buffers().no_duplicates()
                    &&& image.spec_planes().len() == raw_planes@.len()
                    &&& forall|i: int|
                        0 <= i < raw_planes@.len() ==> (#[trigger] image.spec_planes()[i])@
                            == shared_plane(raw_planes@, identities@, i)
                    &&& image.spec_drm_format() == drm_format
                    &&& image.spec_modifier() == modifier
                    &&& image.info() == (FrameInfo { size, format, generation })
                    &&& closed@.no_duplicates()
                    &&& forall|fd: i32| #[trigger]
                        closed@.contains(fd) <==> descriptors(raw_planes@).contains(fd)
                            && !image.spec_buffers().contains(fd)
                },
                Err(fault) => {
                    &&& is_custody(fault.closed@, raw_planes@)
                    &&& if raw_planes@.len() == 0 {
                        is_invalid_frame(fault.error, "DMABUF image has no planes"@)
                    } else {
                        exists|i: int, reason: Seq<char>| #[trigger]
                            is_first_fault(raw_planes@, identities@, i, reason)
                                && is_invalid_frame(fault.error, reason)
                    }
                },
            },
    {
        match deduplicated_raw_planes(raw_planes, identities) {
            Err(fault) => Err(fault),
            Ok(table) => {
                let PlaneTable { kept, closed, planes } = table;
                assert(raw_planes@.len() > 0 ==> kept@.len() > planes@[0]@.buffer_index);
                match DmaBufImage::from_owned_buffers(
                    kept,
                    planes,
                    size,
                    format,
                    drm_format,
                    modifier,
                    generation,
                ) {
                    Ok(image) => Ok(RawImage { image, closed }),
                    Err(error) => Err(PlaneFault { error, closed: custody(raw_planes) }),
                }
            },
        }
    }
}

/// An image is made exactly where it has a plane, a descriptor, and a descriptor
/// for every plane, and says of itself what it was made with.
pub proof fn law_an_image_is_what_it_was_made_of<H>(
    buffers: Vec<H>,
    planes: Vec<DmaBufPlane>,
    size: PhysicalSize,
    format: TextureFormat,
    drm_format: u32,
    modifier: u64,
    generation: u64,
    made: Result<DmaBufImage<H>, ImportError>,
)
    requires
        call_ensures(
            DmaBufImage::<H>::from_owned_buffers,
            (buffers, planes, size, format, drm_format, modifier, generation),
            made,
        ),
    ensures
        made is Ok <==> planes@.len() > 0 && buffers@.len() > 0 && forall|i: int|
            0 <= i < planes@.len() ==> (#[trigger] planes@[i])@.buffer_index < buffers@.len(),
        made matches Err(error) ==> error is InvalidFrame,
        made matches Ok(image) ==> {
            &&& forall|kept: u64| #[trigger]
                call_ensures(DmaBufImage::<H>::modifier, (&image,), kept) ==> kept == modifier
            &&& forall|kept: u32| #[trigger]
                call_ensures(DmaBufImage::<H>::drm_format, (&image,), kept) ==> kept == drm_format
            &&& forall|kept: u64| #[trigger]
                call_ensures(DmaBufImage::<H>::generation, (&image,), kept) ==> kept == generation
            &&& forall|kept: PhysicalSize| #[trigger]
                call_ensures(DmaBufImage::<H>::size, (&image,), kept) ==> kept == size
            &&& forall|kept: TextureFormat| #[trigger]
                call_ensures(DmaBufImage::<H>::format, (&image,), kept) ==> kept == format
            &&& forall|parts: (Vec<H>, Vec<DmaBufPlane>)| #[trigger]
                call_ensures(DmaBufImage::<H>::into_owned_parts, (image,), parts) ==> parts.0@
                    == buffers@ && parts.1@ == planes@
        },
{
}

/// A layout is all right exactly where there is a plane, a buffer, and a buffer for
/// every plane.
pub proof fn law_a_layout_has_a_buffer_for_every_plane(
    buffer_count: usize,
    planes: Vec<DmaBufPlane>,
    checked: Result<(), ImportError>,
)
    requires
        call_ensures(validate_image_layout, (buffer_count, &planes), checked),
    ensures
        checked is Ok <==> planes@.len() > 0 && buffer_count > 0 && forall|i: int|
            0 <= i < planes@.len() ==> (#[trigger] planes@[i])@.buffer_index < buffer_count,
        checked matches Err(error) ==> (error matches ImportError::InvalidFrame(reason) && (
        planes@.len() == 0 ==> reason@ == "DMABUF image has no planes"@) && (planes@.len() > 0
            && buffer_count == 0 ==> reason@ == "DMABUF image has no descriptor buffers"@) && (
        planes@.len() > 0 && buffer_count > 0 ==> reason@
            == "DMABUF plane buffer index is out of range"@)),
{
}

/// A plane says of itself what it was made with.
pub proof fn law_a_plane_is_what_it_was_made_of(
    buffer_index: usize,
    offset: u64,
    size: u64,
    stride: u32,
    plane: DmaBufPlane,
)
    requires
        call_ensures(DmaBufPlane::new, (buffer_index, offset, size, stride), plane),
    ensures
        forall|kept: usize| #[trigger]
            call_ensures(DmaBufPlane::buffer_index, (&plane,), kept) ==> kept == buffer_index,
        forall|kept: u64| #[trigger]
            call_ensures(DmaBufPlane::offset, (&plane,), kept) ==> kept == offset,
        forall|kept: u64| #[trigger]
            call_ensures(DmaBufPlane::size, (&plane,), kept) ==> kept == size,
        forall|kept: u32| #[trigger]
            call_ensures(DmaBufPlane::stride, (&plane,), kept) ==> kept == stride,
{
}

/// Where every descriptor is a live one, each plane keeps its own offset, size and
/// stride, and its buffer is the first descriptor that was handed over for the same
/// kernel object. Planes share a buffer exactly where they share an object.
/// Every descriptor is kept or closed, and none is both. Where one is not live,
/// all that were handed over are closed.
pub proof fn law_every_plane_finds_its_kernel_object(
    raw_planes: Vec<(i32, u64, u64, u32)>,
    identities: Vec<Option<FdIdentity>>,
    outcome: Result<PlaneTable, PlaneFault>,
    i: int,
    j: int,
)
    requires
        identities@.len() == raw_planes@.len(),
        // Each descriptor stands for one object.
        forall|a: int, b: int|
            0 <= a < raw_planes@.len() && 0 <= b < raw_planes@.len() && (
            #[trigger] raw_planes@[a]).0 == (#[trigger] raw_planes@[b]).0 ==> identities@[a]
                == identities@[b],
        0 <= i < raw_planes@.len(),
        0 <= j < raw_planes@.len(),
        call_ensures(deduplicated_raw_planes, (&raw_planes, &identities), outcome),
    ensures
        outcome is Ok <==> forall|k: int|
            0 <= k < raw_planes@.len() ==> (#[trigger] raw_planes@[k]).0 >= 0 && identities@[k] is Some,
        outcome matches Ok(table) ==> {
            let plane = table.planes@[i]@;
            &&& table.planes@.len() == raw_planes@.len()
            &&& plane.offset == raw_planes@[i].1
            &&& plane.size == raw_planes@[i].2
            &&& plane.stride == raw_planes@[i].3
            &&& exists|k: int|
                0 <= k <= i && (#[trigger] raw_planes@[k]).0
                    == table.kept@[plane.buffer_index as int] && identities@[k] == identities@[i] && (
                forall|e: int| 0 <= e < k ==> #[trigger] identities@[e] != identities@[i])
            &&& i == 0 ==> plane.buffer_index == 0
            &&& plane.buffer_index == table.planes@[j]@.buffer_index <==> identities@[i]
                == identities@[j]
            &&& table.kept@.contains(raw_planes@[i].0) <==> !table.closed@.contains(
                raw_planes@[i].0,
            )
        },
        outcome matches Err(fault) ==> fault.error is InvalidFrame && (raw_planes@[i].0 >= 0
            ==> fault.closed@.contains(raw_planes@[i].0)),
{
    let raw = raw_planes@;
    let ids = identities@;
    let objects = kernel_objects(raw, ids);
    let fds = descriptors(raw);
    assert forall|k: int| 0 <= k < raw.len() implies kernel_object(raw, ids, #[trigger] raw[k].0)
        == ids[k] by {
        assert(fds[k] == raw[k].0);
        lemma_first_at(fds, raw[k].0);
        assert(fds.contains(raw[k].0));
        let f = first_at(fds, raw[k].0);
        assert(fds[f] == raw[f].0);
    }
    assert(objects =~= ids);
    assert(fds[i] == raw[i].0);
    assert(fds.contains(raw[i].0));
    match outcome {
        Ok(table) => {
            let buffers = distinct(objects);
            lemma_distinct(objects);
            assert(objects.contains(objects[i]));
            lemma_first_at(buffers, objects[i]);
            let b = first_at(buffers, objects[i]);
            assert(table.planes@[i]@ == shared_plane(raw, ids, i));
            assert(table.planes@[j]@ == shared_plane(raw, ids, j));
            law_planes_share_a_buffer_per_kernel_object(raw, ids, i, j);
            assert(objects.contains(objects[j]));
            lemma_first_at(buffers, objects[j]);
            lemma_distinct_len(objects);
            assert(raw.len() == raw_planes.len());
            assert(b <= usize::MAX);
            lemma_first_at(objects, buffers[b]);
            let k = first_at(objects, buffers[b]);
            assert(fds[k] == raw[k].0);
            assert(objects[k] == objects[i]);
            assert(k <= i);
            assert(table.kept@[b] == fds[k]);
            lemma_distinct_head(objects);
            assert forall|k: int| 0 <= k < raw.len() implies (#[trigger] raw[k]).0 >= 0
                && ids[k] is Some by {
                assert(descriptor_fault(raw, ids, k) is None);
            }
        },
        Err(fault) => {
            let (k, reason) = choose|k: int, reason: Seq<char>| #[trigger]
                is_first_fault(raw, ids, k, reason) && is_invalid_frame(fault.error, reason);
            assert(descriptor_fault(raw, ids, k) == Some(reason));
            assert(raw[k].0 < 0 || ids[k] is None);
        },
    }
}

proof fn lemma_distinct_head<T>(s: Seq<T>)
    ensures
        s.len() > 0 ==> distinct(s).len() > 0 && distinct(s)[0] == s[0],
    decreases s.len(),
{
    if s.len() > 1 {
        lemma_distinct_head(s.drop_last());
    } else if s.len() == 1 {
        reveal_with_fuel(distinct, 2);
        assert(s.drop_last() =~= Seq::empty());
        assert(distinct(s) =~= seq![s[0]]);
    }
}

proof fn lemma_distinct_len<T>(s: Seq<T>)
    ensures
        distinct(s).len() <= s.len(),
    decreases s.len(),
{
    if s.len() > 0 {
        lemma_distinct_len(s.drop_last());
    }
}

/// An image over raw descriptors is made where there is a plane and every
/// descriptor is a live one, and keeps what it was made with.
pub proof fn law_a_raw_image_keeps_what_it_was_made_with(
    raw_planes: Vec<(i32, u64, u64, u32)>,
    identities: Vec<Option<FdIdentity>>,
    size: PhysicalSize,
    format: TextureFormat,
    drm_format: u32,
    modifier: u64,
    generation: u64,
    outcome: Result<RawImage, PlaneFault>,
    i: int,
)
    requires
        identities@.len() == raw_planes@.len(),
        0 <= i < raw_planes@.len(),
        call_ensures(
            DmaBufImage::<i32>::from_owned_raw_planes,
            (&raw_planes, &identities, size, format, drm_format, modifier, generation),
            outcome,
        ),
    ensures
        outcome matches Ok(made) ==> {
            &&& made.image.spec_modifier() == modifier
            &&& made.image.spec_drm_format() == drm_format
            &&& made.image.info() == (FrameInfo { size, format, generation })
            &&& made.image.spec_planes()[i]@.offset == raw_planes@[i].1
            &&& made.image.spec_planes()[i]@.size == raw_planes@[i].2
            &&& made.image.spec_planes()[i]@.stride == raw_planes@[i].3
        },
        outcome matches Err(fault) ==> fault.error is InvalidFrame,
        raw_planes@[i].0 < 0 ==> outcome is Err,
        (forall|k: int|
            0 <= k < raw_planes@.len() ==> (#[trigger] raw_planes@[k]).0 >= 0 && identities@[k] is Some)
            ==> outcome is Ok,
{
    if let Err(fault) = outcome {
        let (k, reason) = choose|k: int, reason: Seq<char>| #[trigger]
            is_first_fault(raw_planes@, identities@, k, reason) && is_invalid_frame(
                fault.error,
                reason,
            );
        assert(descriptor_fault(raw_planes@, identities@, k) == Some(reason));
        let fds = descriptors(raw_planes@);
        assert(fds[k] == raw_planes@[k].0);
        assert(fds.contains(raw_planes@[k].0));
        lemma_first_at(fds, raw_planes@[k].0);
        let f = first_at(fds, raw_planes@[k].0);
        assert(raw_planes@[f].0 == fds[f]);
    }
    if let Ok(made) = outcome {
        assert(made.image.spec_planes()[i]@ == shared_plane(raw_planes@, identities@, i));
        assert(descriptor_fault(raw_planes@, identities@, i) is None);
    }
}

} // verus!
