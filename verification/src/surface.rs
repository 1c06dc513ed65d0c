//! The vocabulary between a host and a browser surface: configuration, input,
//! cursors, cookies and drag data.
//!
//! Every size and coordinate a host hands in or takes out is in physical
//! pixels.
use vstd::prelude::*;
use vstd::string::*;
use crate::bits::{
    bit, is_bit, law_every_set_bit_is_reported_once, report, reported,
};
use crate::platform::PhysicalSize;

verus! {

// ── Configuration ─────────────────────────────────────────────────────────────

/// Configuration for a single browser surface.
#[derive(Debug)]
pub struct CefSurfaceConfig {
    pub initial_url: String,
    pub initial_size: PhysicalSize,
    /// What is painted where the page itself paints nothing.
    ///
    /// `Some([r, g, b])` paints those regions that opaque colour. `None` leaves
    /// them transparent. There is no partially transparent option.
    pub background_color: Option<[u8; 3]>,
    /// Prefer accelerated painting over bitmaps.
    pub prefer_accelerated: bool,
    /// Persistent directory of this producer's profile.
    ///
    /// Each producer has its own profile even without one; it is then kept in
    /// memory. A directory has to be absolute and inside the runtime's cache
    /// path.
    pub user_data_dir: Option<String>,
    /// Subscribe to the Chrome DevTools Protocol. Off by default because the
    /// protocol is chatty whether or not anything reads it.
    pub devtools_protocol: bool,
    /// Whether the host answers permission requests itself. Off by default: an
    /// unanswered request leaves the page waiting forever. Left off, a request
    /// is reported and denied at once.
    pub handle_permission_requests: bool,
    /// Whether the host answers auth challenges itself. Off by default: an
    /// unanswered challenge holds its request open forever. Left off, a
    /// challenge is reported and declined at once.
    pub handle_auth_challenges: bool,
    /// Where downloads are written. `None`, the default, refuses them. The
    /// server's suggested file name is reduced to its final component, so it
    /// cannot place a file outside this directory.
    pub download_dir: Option<String>,
}

/// Whether nothing about a surface was configured: an empty page on white, with
/// everything optional off.
pub open spec fn is_default_config(config: CefSurfaceConfig) -> bool {
    &&& config.initial_url@ == "about:blank"@
    &&& config.initial_size == (PhysicalSize { width: 800, height: 600 })
    &&& config.background_color == Some([255u8, 255u8, 255u8])
    &&& config.prefer_accelerated
    &&& config.user_data_dir is None
    &&& !config.devtools_protocol
    &&& !config.handle_permission_requests
    &&& !config.handle_auth_challenges
    &&& config.download_dir is None
}

impl Default for CefSurfaceConfig {
    fn default() -> (config: Self)
        ensures
            is_default_config(config),
    {
        CefSurfaceConfig {
            initial_url: "about:blank".to_owned(),
            initial_size: PhysicalSize::new(800, 600),
            background_color: Some([255, 255, 255]),
            prefer_accelerated: true,
            user_data_dir: None,
            devtools_protocol: false,
            handle_permission_requests: false,
            handle_auth_challenges: false,
            download_dir: None,
        }
    }
}

/// A background as an ARGB colour: opaque for a colour, zero for transparency.
pub open spec fn argb(background: Option<[u8; 3]>) -> int {
    match background {
        Some(rgb) => 0xff00_0000 + rgb@[0] * 0x1_0000 + rgb@[1] * 0x100 + rgb@[2],
        None => 0,
    }
}

impl CefSurfaceConfig {
    /// The background as the browser's ARGB colour.
    pub fn cef_background_color(&self) -> (color: u32)
        ensures
            color == argb(self.background_color),
    {
        match self.background_color {
            Some(rgb) => {
                let r: u32 = rgb[0] as u32;
                let g: u32 = rgb[1] as u32;
                let b: u32 = rgb[2] as u32;
                assert(0xFF00_0000u32 | (r << 16) | (g << 8) | b == 0xFF00_0000u32 + r * 0x1_0000
                    + g * 0x100 + b) by (bit_vector)
                    requires
                        r < 256,
                        g < 256,
                        b < 256,
                ;
                0xFF00_0000 | (r << 16) | (g << 8) | b
            },
            None => 0,
        }
    }
}

/// A background is fully opaque or fully transparent, and two configurations
/// share a colour only where they share a background.
pub proof fn law_background_is_opaque_or_transparent(left: Option<[u8; 3]>, right: Option<[u8; 3]>)
    ensures
        left is Some ==> 0xff00_0000 <= argb(left) <= 0xffff_ffff,
        left is None <==> argb(left) == 0,
        argb(left) == argb(right) ==> left == right,
{
    if argb(left) == argb(right) && left is Some && right is Some {
        let a = left->0;
        let b = right->0;
        assert(a@ =~= b@);
        assert(a == b);
    }
}

// ── Cookies ───────────────────────────────────────────────────────────────────

#[derive(Clone, Copy, Debug, PartialEq, Eq, Structural)]
pub enum SameSite {
    Strict,
    Lax,
    /// `SameSite=None`.
    NoRestriction,
}

#[derive(Clone, Debug, PartialEq, Eq)]
pub struct Cookie {
    pub name: String,
    pub value: String,
    pub domain: String,
    pub path: String,
    pub secure: bool,
    pub http_only: bool,
    pub same_site: Option<SameSite>,
    /// When the cookie expires, in microseconds of the browser's base time.
    pub expires: Option<i64>,
    pub partitioned: bool,
}

impl Default for Cookie {
    fn default() -> (cookie: Self)
        ensures
            cookie.name@ == Seq::<char>::empty(),
            cookie.value@ == Seq::<char>::empty(),
            cookie.domain@ == Seq::<char>::empty(),
            cookie.path@ == Seq::<char>::empty(),
            !cookie.secure,
            !cookie.http_only,
            cookie.same_site is None,
            cookie.expires is None,
            !cookie.partitioned,
    {
        Cookie {
            name: String::new(),
            value: String::new(),
            domain: String::new(),
            path: String::new(),
            secure: false,
            http_only: false,
            same_site: None,
            expires: None,
            partitioned: false,
        }
    }
}

// ── Popups, cursors, composition ──────────────────────────────────────────────

/// Where the popup widget is drawn, relative to the view's top-left.
#[derive(Clone, Copy, Debug, PartialEq, Eq, Structural)]
pub struct PopupRect {
    pub x: i32,
    pub y: i32,
    pub width: u32,
    pub height: u32,
}

impl Default for PopupRect {
    fn default() -> (rect: Self)
        ensures
            rect == (PopupRect { x: 0, y: 0, width: 0, height: 0 }),
    {
        PopupRect { x: 0, y: 0, width: 0, height: 0 }
    }
}

/// A cursor shape the page is asking the host to show.
///
/// `Pointer` is the CSS `pointer`, the link hand. The plain arrow is `Default`.
#[derive(Clone, Debug, PartialEq, Eq)]
#[non_exhaustive]
pub enum CursorShape {
    Default,
    Pointer,
    Text,
    Wait,
    Crosshair,
    Move,
    NotAllowed,
    Help,
    Progress,
    ResizeNs,
    ResizeEw,
    ResizeNeSw,
    ResizeNwSe,
    ResizeAll,
    Grab,
    Grabbing,
    ZoomIn,
    ZoomOut,
    /// Anything the vocabulary has no name for. `"none"` is a hidden cursor.
    Custom(String),
}

/// Where the text currently being composed sits, so a host can place its
/// candidate window under it.
#[derive(Clone, Copy, Debug, PartialEq, Eq, Structural)]
pub struct ImeComposition {
    /// The smallest rectangle around the composed characters.
    pub bounds: PopupRect,
    /// Selected range within the composition, in characters.
    pub selection_start: u32,
    pub selection_end: u32,
}

// ── Input ─────────────────────────────────────────────────────────────────────

#[derive(Clone, Copy, Debug, PartialEq, Eq, Structural)]
pub struct MouseEvent {
    pub x: i32,
    pub y: i32,
    pub button: MouseButton,
    pub action: MouseAction,
    pub modifiers: EventModifiers,
}

#[derive(Clone, Copy, Debug, PartialEq, Eq, Structural)]
pub enum MouseButton {
    Left,
    Middle,
    Right,
}

#[derive(Clone, Copy, Debug, PartialEq, Eq, Structural)]
pub enum MouseAction {
    Pressed,
    Released,
    Moved,
    WheelScrolled { delta_x: i32, delta_y: i32 },
}

#[derive(Clone, Copy, Debug, PartialEq, Eq, Structural)]
pub struct KeyEvent {
    pub kind: KeyEventKind,
    pub windows_key_code: i32,
    pub native_key_code: i32,
    pub character: Option<char>,
    pub modifiers: EventModifiers,
}

#[derive(Clone, Copy, Debug, PartialEq, Eq, Structural)]
pub enum KeyEventKind {
    RawKeyDown,
    KeyDown,
    KeyUp,
    Char,
}

#[derive(Clone, Copy, Debug, PartialEq, Eq, Structural)]
pub struct EventModifiers {
    pub shift: bool,
    pub ctrl: bool,
    pub alt: bool,
    pub meta: bool,
    /// Buttons held while this event is delivered. They tell a page drag from a
    /// hover.
    pub left_mouse_button: bool,
    pub middle_mouse_button: bool,
    pub right_mouse_button: bool,
}

/// No modifier and no button.
pub open spec fn no_modifiers() -> EventModifiers {
    EventModifiers {
        shift: false,
        ctrl: false,
        alt: false,
        meta: false,
        left_mouse_button: false,
        middle_mouse_button: false,
        right_mouse_button: false,
    }
}

impl Default for EventModifiers {
    fn default() -> (modifiers: Self)
        ensures
            modifiers == no_modifiers(),
    {
        EventModifiers {
            shift: false,
            ctrl: false,
            alt: false,
            meta: false,
            left_mouse_button: false,
            middle_mouse_button: false,
            right_mouse_button: false,
        }
    }
}

#[derive(Clone, Copy, Debug, PartialEq, Eq, Structural)]
pub enum ContactDevice {
    Touch,
    Pen,
}

/// The stage of a direct touch contact.
#[derive(Clone, Copy, Debug, PartialEq, Eq, Structural)]
pub enum TouchPhase {
    Started,
    Moved,
    Ended,
    Cancelled,
}

#[derive(Clone, Copy, Debug, PartialEq, Eq, Structural)]
pub enum FocusDirection {
    Forward,
    Backward,
}

/// A zoom step. Chromium zooms in notches rather than by percentage.
#[derive(Clone, Copy, Debug, PartialEq, Eq, Structural)]
pub enum ZoomCommand {
    In,
    Out,
    /// Back to the default level.
    Reset,
}

// ── Drag and drop ─────────────────────────────────────────────────────────────

/// A set of drag effects, as bits of which the constants name some. More than
/// one may be offered; unknown bits are preserved so that a newer window system
/// cannot turn into "no operation".
#[derive(Clone, Copy, Debug, PartialEq, Eq, Structural)]
pub struct DragOperations(pub u32);

impl DragOperations {
    pub const NONE: u32 = 0;

    pub const COPY: u32 = 1;

    pub const LINK: u32 = 2;

    pub const GENERIC: u32 = 4;

    pub const PRIVATE: u32 = 8;

    pub const MOVE: u32 = 16;

    pub const DELETE: u32 = 32;
}

impl core::ops::BitOr for DragOperations {
    type Output = DragOperations;

    fn bitor(self, rhs: DragOperations) -> (both: DragOperations) {
        DragOperations(self.0 | rhs.0)
    }
}

impl vstd::std_specs::ops::BitOrSpecImpl for DragOperations {
    open spec fn obeys_bitor_spec() -> bool {
        true
    }

    open spec fn bitor_req(self, rhs: DragOperations) -> bool {
        true
    }

    open spec fn bitor_spec(self, rhs: DragOperations) -> DragOperations {
        DragOperations(self.0 | rhs.0)
    }
}

impl Default for DragOperations {
    fn default() -> (operations: Self)
        ensures
            operations == DragOperations(0),
    {
        DragOperations(0)
    }
}

/// File data made available to the page during a host-originated drag.
#[derive(Clone, Debug, PartialEq, Eq)]
pub struct DragFile {
    pub path: String,
    /// Optional human-facing file name. `None` takes it from the path.
    pub display_name: Option<String>,
}

/// The portable part of a drag data transfer: files, a link, fragment text or
/// fragment HTML.
#[derive(Clone, Debug, PartialEq, Eq)]
pub struct DragPayload {
    pub files: Vec<DragFile>,
    pub link_url: Option<String>,
    pub link_title: Option<String>,
    pub fragment_text: Option<String>,
    pub fragment_html: Option<String>,
    pub fragment_base_url: Option<String>,
}

impl Default for DragPayload {
    fn default() -> (payload: Self)
        ensures
            payload.files@.len() == 0,
            payload.link_url is None,
            payload.link_title is None,
            payload.fragment_text is None,
            payload.fragment_html is None,
            payload.fragment_base_url is None,
    {
        DragPayload {
            files: Vec::new(),
            link_url: None,
            link_title: None,
            fragment_text: None,
            fragment_html: None,
            fragment_base_url: None,
        }
    }
}

/// One stage of an OS drag over the view.
#[derive(Clone, Debug)]
pub struct DragInput {
    pub kind: DragEventKind,
    /// Required on [`DragEventKind::Enter`], ignored otherwise.
    pub payload: Option<DragPayload>,
    pub x: i32,
    pub y: i32,
    pub modifiers: EventModifiers,
    pub allowed_operations: DragOperations,
}

#[derive(Clone, Copy, Debug, PartialEq, Eq, Structural)]
pub enum DragEventKind {
    Enter,
    Over,
    Leave,
    Drop,
}

// ── Render process ────────────────────────────────────────────────────────────

/// Why a render process died.
#[derive(Clone, Copy, Debug, PartialEq, Eq, Structural)]
pub enum ProcessTerminationStatus {
    /// Ended abnormally, with no more specific reason.
    Abnormal,
    /// Killed from outside, e.g. by a task manager or a signal.
    Killed,
    /// Crashed.
    Crashed,
    /// Ran out of memory. Reloading on a loop will only repeat this.
    OutOfMemory,
    /// The process never started.
    LaunchFailed,
    /// Failed an integrity check.
    IntegrityFailure,
    /// A status this build does not recognise, by its raw value.
    Unknown(i32),
}

/// The termination status of a raw `cef_termination_status_t`.
///
/// A value without a name is carried through rather than flattened into
/// `Abnormal`, so a newer browser cannot silently look ordinary.
pub open spec fn spec_termination_status(raw: i32) -> ProcessTerminationStatus {
    match raw {
        0 => ProcessTerminationStatus::Abnormal,
        1 => ProcessTerminationStatus::Killed,
        2 => ProcessTerminationStatus::Crashed,
        3 => ProcessTerminationStatus::OutOfMemory,
        4 => ProcessTerminationStatus::LaunchFailed,
        5 => ProcessTerminationStatus::IntegrityFailure,
        _ => ProcessTerminationStatus::Unknown(raw),
    }
}

/// The termination status of a raw `cef_termination_status_t`.
pub fn termination_status(raw: i32) -> (status: ProcessTerminationStatus)
    ensures
        status == spec_termination_status(raw),
{
    match raw {
        0 => ProcessTerminationStatus::Abnormal,
        1 => ProcessTerminationStatus::Killed,
        2 => ProcessTerminationStatus::Crashed,
        3 => ProcessTerminationStatus::OutOfMemory,
        4 => ProcessTerminationStatus::LaunchFailed,
        5 => ProcessTerminationStatus::IntegrityFailure,
        _ => ProcessTerminationStatus::Unknown(raw),
    }
}

/// No two raw statuses look alike to a host.
pub proof fn law_termination_statuses_stay_apart(left: i32, right: i32)
    ensures
        spec_termination_status(left) == spec_termination_status(right) ==> left == right,
{
}

// ── Context menu ──────────────────────────────────────────────────────────────

/// What a right-click landed on. Several apply at once: a right-click on a link
/// inside a page reports both.
#[derive(Clone, Copy, Debug, PartialEq, Eq, Structural)]
#[non_exhaustive]
pub enum ContextMenuTarget {
    Page,
    Frame,
    Link,
    Media,
    Selection,
    Editable,
    /// A flag this build does not name, kept rather than dropped.
    Other(u32),
}

impl ContextMenuTarget {
    /// The target of one flag of `cef_context_menu_type_flags_t`.
    pub open spec fn of(flag: u32) -> ContextMenuTarget {
        match flag {
            1 => ContextMenuTarget::Page,
            2 => ContextMenuTarget::Frame,
            4 => ContextMenuTarget::Link,
            8 => ContextMenuTarget::Media,
            16 => ContextMenuTarget::Selection,
            32 => ContextMenuTarget::Editable,
            _ => ContextMenuTarget::Other(flag),
        }
    }

    /// The target of one flag of `cef_context_menu_type_flags_t`.
    pub fn from_flag(flag: u32) -> (target: Self)
        ensures
            target == ContextMenuTarget::of(flag),
    {
        match flag {
            1 => ContextMenuTarget::Page,
            2 => ContextMenuTarget::Frame,
            4 => ContextMenuTarget::Link,
            8 => ContextMenuTarget::Media,
            16 => ContextMenuTarget::Selection,
            32 => ContextMenuTarget::Editable,
            _ => ContextMenuTarget::Other(flag),
        }
    }
}

/// The flags that have a name, in the order in which they are reported.
pub open spec fn named_flags() -> Seq<u32> {
    seq![1u32, 2u32, 4u32, 8u32, 16u32, 32u32]
}

/// The targets of a set of flags.
pub open spec fn targets_of(flags: u32) -> Seq<ContextMenuTarget> {
    reported(flags, named_flags()).map_values(|flag: u32| ContextMenuTarget::of(flag))
}

/// Split `cef_context_menu_type_flags_t` into targets, named ones first.
pub fn context_menu_targets(flags: u32) -> (targets: Vec<ContextMenuTarget>)
    ensures
        targets@ == targets_of(flags),
{
    let named: Vec<u32> = vec![1u32, 2u32, 4u32, 8u32, 16u32, 32u32];
    assert(named@ =~= named_flags());
    let bits: Vec<u32> = report(flags, &named);
    let mut targets: Vec<ContextMenuTarget> = Vec::new();
    let mut i: usize = 0;
    while i < bits.len()
        invariant
            i <= bits.len(),
            targets@.len() == i,
            forall|k: int| 0 <= k < i ==> #[trigger] targets@[k] == ContextMenuTarget::of(bits@[k]),
        decreases bits.len() - i,
    {
        targets.push(ContextMenuTarget::from_flag(bits[i]));
        i += 1;
    }
    assert(targets@ =~= targets_of(flags));
    targets
}

/// Every flag under the cursor is reported as one target, and no target is
/// reported without its flag.
pub proof fn law_context_menu_targets_are_the_flags(flags: u32)
    ensures
        reported(flags, named_flags()).no_duplicates(),
        targets_of(flags).no_duplicates(),
        forall|flag: u32|
            is_bit(flag) ==> (#[trigger] targets_of(flags).contains(ContextMenuTarget::of(flag))
                <==> flags & flag != 0),
{
    let named = named_flags();
    assert(bit(0) == 1 && bit(1) == 2 && bit(2) == 4 && bit(3) == 8 && bit(4) == 16 && bit(5) == 32)
        by {
        assert(1u32 << 0u32 == 1 && 1u32 << 1u32 == 2 && 1u32 << 2u32 == 4 && 1u32 << 3u32 == 8
            && 1u32 << 4u32 == 16 && 1u32 << 5u32 == 32) by (bit_vector);
    }
    assert(named.no_duplicates());
    law_every_set_bit_is_reported_once(flags, named);
    let flagged = reported(flags, named);
    let targets = targets_of(flags);
    assert forall|flag: u32| is_bit(flag) implies (#[trigger] targets.contains(
        ContextMenuTarget::of(flag),
    ) <==> flags & flag != 0) by {
        if targets.contains(ContextMenuTarget::of(flag)) {
            let k = choose|k: int|
                0 <= k < targets.len() && targets[k] == ContextMenuTarget::of(flag);
            assert(flagged[k] == flag);
            assert(flagged.contains(flag));
        }
        if flags & flag != 0 {
            assert(flagged.contains(flag));
            let k = choose|k: int| 0 <= k < flagged.len() && flagged[k] == flag;
            assert(targets[k] == ContextMenuTarget::of(flag));
        }
    }
    assert forall|i: int, j: int|
        0 <= i < targets.len() && 0 <= j < targets.len() && i != j implies targets[i]
        != targets[j] by {
        assert(flagged[i] != flagged[j]);
    }
}

/// A background is opaque, with its red, green and blue in that order, each a byte
/// of its own; without one the view is transparent.
pub proof fn law_a_background_is_packed_in_order(config: CefSurfaceConfig, color: u32)
    requires
        call_ensures(CefSurfaceConfig::cef_background_color, (&config,), color),
    ensures
        config.background_color is None ==> color == 0,
        config.background_color matches Some(rgb) ==> {
            &&& color as int / 0x100_0000 == 0xff
            &&& color as int / 0x1_0000 % 0x100 == rgb@[0]
            &&& color as int / 0x100 % 0x100 == rgb@[1]
            &&& color as int % 0x100 == rgb@[2]
        },
{
    if let Some(rgb) = config.background_color {
        lemma_packed(rgb@[0] as int, rgb@[1] as int, rgb@[2] as int);
    }
}

proof fn lemma_packed(r: int, g: int, b: int)
    requires
        0 <= r < 0x100,
        0 <= g < 0x100,
        0 <= b < 0x100,
    ensures
        ({
            let n = 0xff00_0000 + r * 0x1_0000 + g * 0x100 + b;
            n / 0x100_0000 == 0xff && n / 0x1_0000 % 0x100 == r && n / 0x100 % 0x100 == g && n
                % 0x100 == b
        }),
{
    let n = 0xff00_0000 + r * 0x1_0000 + g * 0x100 + b;
    assert(n / 0x100 == 0xff_0000 + r * 0x100 + g);
    assert(n / 0x1_0000 == 0xff00 + r);
    assert(n / 0x100_0000 == 0xff);
}

/// Each way of ending has its own number, and a number without one is kept.
pub proof fn law_processes_end_as_they_are_numbered(raw: i32, status: ProcessTerminationStatus)
    requires
        call_ensures(termination_status, (raw,), status),
    ensures
        status == ProcessTerminationStatus::Abnormal <==> raw == 0,
        status == ProcessTerminationStatus::Killed <==> raw == 1,
        status == ProcessTerminationStatus::Crashed <==> raw == 2,
        status == ProcessTerminationStatus::OutOfMemory <==> raw == 3,
        status == ProcessTerminationStatus::LaunchFailed <==> raw == 4,
        status == ProcessTerminationStatus::IntegrityFailure <==> raw == 5,
        status matches ProcessTerminationStatus::Unknown(kept) ==> kept == raw,
{
}

/// Each flag of a menu has its own target, and a flag without one is kept.
pub proof fn law_menu_flags_have_their_target(flag: u32, target: ContextMenuTarget)
    requires
        call_ensures(ContextMenuTarget::from_flag, (flag,), target),
    ensures
        target == ContextMenuTarget::Page <==> flag == 1,
        target == ContextMenuTarget::Frame <==> flag == 2,
        target == ContextMenuTarget::Link <==> flag == 4,
        target == ContextMenuTarget::Media <==> flag == 8,
        target == ContextMenuTarget::Selection <==> flag == 16,
        target == ContextMenuTarget::Editable <==> flag == 32,
        target matches ContextMenuTarget::Other(kept) ==> kept == flag,
{
}

/// A surface that nobody configured shows a blank page of a usual size on white, and
/// asks the host nothing.
pub proof fn law_a_default_surface_is_blank(config: CefSurfaceConfig)
    requires
        call_ensures(<CefSurfaceConfig as Default>::default, (), config),
    ensures
        config.initial_url@ == "about:blank"@,
        config.initial_size.width == 800,
        config.initial_size.height == 600,
        config.background_color matches Some(rgb) && rgb@ == seq![255u8, 255u8, 255u8],
        config.prefer_accelerated,
        config.user_data_dir is None,
        config.download_dir is None,
        !config.devtools_protocol,
        !config.handle_permission_requests,
        !config.handle_auth_challenges,
{
}

/// Operations that are put together hold every bit of either, and no other.
pub proof fn law_operations_add_up(a: DragOperations, b: DragOperations, both: DragOperations)
    requires
        call_ensures(<DragOperations as core::ops::BitOr>::bitor, (a, b), both),
    ensures
        both.0 & a.0 == a.0,
        both.0 & b.0 == b.0,
        both.0 & !(a.0 | b.0) == 0,
{
    let (x, y, z) = (a.0, b.0, both.0);
    assert(z & x == x && z & y == y && z & !(x | y) == 0) by (bit_vector)
        requires
            z == x | y,
    ;
}

/// A menu has a target exactly where the target's flag is set, and has each once.
pub proof fn law_a_menu_has_the_targets_of_its_flags(flags: u32, targets: Vec<ContextMenuTarget>)
    requires
        call_ensures(context_menu_targets, (flags,), targets),
    ensures
        targets@.no_duplicates(),
        targets@.contains(ContextMenuTarget::Page) <==> flags & 1 != 0,
        targets@.contains(ContextMenuTarget::Frame) <==> flags & 2 != 0,
        targets@.contains(ContextMenuTarget::Link) <==> flags & 4 != 0,
        targets@.contains(ContextMenuTarget::Media) <==> flags & 8 != 0,
        targets@.contains(ContextMenuTarget::Selection) <==> flags & 16 != 0,
        targets@.contains(ContextMenuTarget::Editable) <==> flags & 32 != 0,
{
    law_context_menu_targets_are_the_flags(flags);
    assert(1u32 << 0u32 == 1 && 1u32 << 1u32 == 2 && 1u32 << 2u32 == 4 && 1u32 << 3u32 == 8 && 1u32
        << 4u32 == 16 && 1u32 << 5u32 == 32) by (bit_vector);
    assert(bit(0) == 1 && bit(1) == 2 && bit(2) == 4 && bit(3) == 8 && bit(4) == 16 && bit(5)
        == 32);
    assert(ContextMenuTarget::of(1) == ContextMenuTarget::Page);
    assert(ContextMenuTarget::of(2) == ContextMenuTarget::Frame);
    assert(ContextMenuTarget::of(4) == ContextMenuTarget::Link);
    assert(ContextMenuTarget::of(8) == ContextMenuTarget::Media);
    assert(ContextMenuTarget::of(16) == ContextMenuTarget::Selection);
    assert(ContextMenuTarget::of(32) == ContextMenuTarget::Editable);
}

/// Each drag operation has a bit of its own, so that no two of them are confused where
/// they are put together.
pub proof fn law_operations_have_bits_of_their_own()
    ensures
        DragOperations::NONE == 0,
        DragOperations::COPY == 1,
        DragOperations::LINK == 2,
        DragOperations::GENERIC == 4,
        DragOperations::PRIVATE == 8,
        DragOperations::MOVE == 16,
        DragOperations::DELETE == 32,
{
}

/// Where nothing is said, no modifier is down, nothing is dragged, a rectangle covers
/// nothing and a cookie says nothing.
pub proof fn law_defaults_say_nothing(
    modifiers: EventModifiers,
    rect: PopupRect,
    operations: DragOperations,
    payload: DragPayload,
    cookie: Cookie,
)
    requires
        call_ensures(<EventModifiers as Default>::default, (), modifiers),
        call_ensures(<PopupRect as Default>::default, (), rect),
        call_ensures(<DragOperations as Default>::default, (), operations),
        call_ensures(<DragPayload as Default>::default, (), payload),
        call_ensures(<Cookie as Default>::default, (), cookie),
    ensures
        !modifiers.shift && !modifiers.ctrl && !modifiers.alt && !modifiers.meta,
        !modifiers.left_mouse_button && !modifiers.middle_mouse_button
            && !modifiers.right_mouse_button,
        rect.x == 0 && rect.y == 0 && rect.width == 0 && rect.height == 0,
        operations.0 == 0,
        payload.files@.len() == 0 && payload.link_url is None && payload.link_title is None,
        payload.fragment_text is None && payload.fragment_html is None
            && payload.fragment_base_url is None,
        cookie.name@.len() == 0 && cookie.value@.len() == 0 && cookie.domain@.len() == 0
            && cookie.path@.len() == 0,
        !cookie.secure && !cookie.http_only && !cookie.partitioned,
        cookie.same_site is None && cookie.expires is None,
{
}

} // verus!
