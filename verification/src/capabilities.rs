//! What a surface can do on each platform.
use vstd::prelude::*;
use vstd::string::*;
use crate::platform::Platform;

verus! {

/// How a browser can take part in a host compositor on a platform.
#[derive(Clone, Copy, Debug, PartialEq, Eq, Structural)]
#[non_exhaustive]
pub enum CefSurfaceMode {
    /// Frames arrive as GPU resources the host can import.
    AcceleratedPaint,
    /// Frames arrive as bitmaps, which take a texture upload each.
    CpuPaint,
    /// No viable surface path.
    Unsupported,
}

/// Whether a feature can be used, and if not fully, why not.
#[derive(Clone, Copy, Debug, PartialEq, Eq)]
pub enum BrowserFeatureStatus {
    Supported,
    Unsupported(&'static str),
    Partial(&'static str),
}

impl BrowserFeatureStatus {
    /// Whether the feature is out of reach, for this reason.
    pub open spec fn is_unsupported(self, reason: Seq<char>) -> bool {
        self matches BrowserFeatureStatus::Unsupported(text) && text@ == reason
    }

    /// Whether the feature works in part, with this limit.
    pub open spec fn is_partial(self, limit: Seq<char>) -> bool {
        self matches BrowserFeatureStatus::Partial(text) && text@ == limit
    }

    /// Whether anything short of full support comes with a reason.
    pub open spec fn is_explained(self) -> bool {
        match self {
            BrowserFeatureStatus::Supported => true,
            BrowserFeatureStatus::Unsupported(reason) => reason@.len() > 0,
            BrowserFeatureStatus::Partial(reason) => reason@.len() > 0,
        }
    }
}

/// What a platform and a configuration make possible.
#[derive(Debug)]
pub struct CefSurfaceCapabilities {
    pub preferred_mode: CefSurfaceMode,
    pub accelerated_paint_available: bool,
    pub cpu_paint_available: bool,
    pub cookies: BrowserFeatureStatus,
    pub cookie_change_events: BrowserFeatureStatus,
    pub script_execution: BrowserFeatureStatus,
    pub script_result: BrowserFeatureStatus,
    pub devtools: BrowserFeatureStatus,
    pub downloads: BrowserFeatureStatus,
    pub auth_challenges: BrowserFeatureStatus,
    pub permission_requests: BrowserFeatureStatus,
    pub devtools_protocol: BrowserFeatureStatus,
    pub popups: BrowserFeatureStatus,
    pub context_menus: BrowserFeatureStatus,
    pub console_messages: BrowserFeatureStatus,
    /// Native system-print dialog.
    pub printer: BrowserFeatureStatus,
    /// Host-to-page and page-to-host drag and drop.
    pub drag_drop: BrowserFeatureStatus,
    /// Direct multi-touch input.
    pub touch: BrowserFeatureStatus,
    /// One-shot PNG capture of the page.
    pub png_snapshot: BrowserFeatureStatus,
    /// A distinct request context for every producer.
    pub profile_isolation: BrowserFeatureStatus,
}

impl CefSurfaceCapabilities {
    /// Whether these are the capabilities of `platform`, in a build with or
    /// without the bitmap fallback.
    pub open spec fn describes(self, platform: Platform, cpu_paint: bool) -> bool {
        // Painting.
        &&& self.accelerated_paint_available == platform.spec_is_accelerated()
        &&& self.cpu_paint_available == cpu_paint
        &&& self.preferred_mode == (if platform.spec_is_accelerated() {
            CefSurfaceMode::AcceleratedPaint
        } else if cpu_paint {
            CefSurfaceMode::CpuPaint
        } else {
            CefSurfaceMode::Unsupported
        })
        // What every platform has.
        &&& self.cookies == BrowserFeatureStatus::Supported
        &&& self.script_execution == BrowserFeatureStatus::Supported
        &&& self.script_result == BrowserFeatureStatus::Supported
        &&& self.downloads == BrowserFeatureStatus::Supported
        &&& self.permission_requests == BrowserFeatureStatus::Supported
        &&& self.devtools_protocol == BrowserFeatureStatus::Supported
        &&& self.context_menus == BrowserFeatureStatus::Supported
        &&& self.console_messages == BrowserFeatureStatus::Supported
        &&& self.drag_drop == BrowserFeatureStatus::Supported
        &&& self.touch == BrowserFeatureStatus::Supported
        &&& self.png_snapshot == BrowserFeatureStatus::Supported
        &&& self.profile_isolation
            == BrowserFeatureStatus::Supported
        // What no platform has in full.
        &&& self.cookie_change_events.is_unsupported("CEF cookie observers are not wired yet"@)
        &&& self.auth_challenges.is_partial(
            "GetAuthCredentials is wired and answerable, but CEF 147 was not                  observed to call it for server auth; proxy auth untested"@,
        )
        &&& self.popups.is_partial(
            "widget surfaces are rendered via acquire_popup; popup browsers (window.open) are denied and surfaced as NewWindowRequested"@,
        )
        // What one platform lacks.
        &&& if platform == Platform::Macos {
            self.devtools.is_unsupported(
                "DevTools crashes CEF 148 for windowless browsers on macOS"@,
            )
        } else {
            self.devtools == BrowserFeatureStatus::Supported
        }
        &&& if platform == Platform::Linux {
            self.printer.is_unsupported(
                "Linux CEF requires an embedder-owned print handler and printer UI"@,
            )
        } else {
            self.printer == BrowserFeatureStatus::Supported
        }
    }

    /// The capabilities of a Linux build without the bitmap fallback.
    ///
    /// Whether the browser at hand was built with GPU support can only be told
    /// once it paints; this is the best static estimate.
    pub fn probe() -> (capabilities: Self)
        ensures
            capabilities.describes(Platform::Linux, false),
    {
        Self::probe_for(Platform::Linux, false)
    }

    /// The capabilities of `platform`, in a build with or without the bitmap fallback.
    pub fn probe_for(platform: Platform, cpu_paint: bool) -> (capabilities: Self)
        ensures
            capabilities.describes(platform, cpu_paint),
    {
        let accelerated = platform.is_accelerated();
        CefSurfaceCapabilities {
            preferred_mode: if accelerated {
                CefSurfaceMode::AcceleratedPaint
            } else if cpu_paint {
                CefSurfaceMode::CpuPaint
            } else {
                CefSurfaceMode::Unsupported
            },
            accelerated_paint_available: accelerated,
            cpu_paint_available: cpu_paint,
            cookies: BrowserFeatureStatus::Supported,
            cookie_change_events: BrowserFeatureStatus::Unsupported(
                "CEF cookie observers are not wired yet",
            ),
            script_execution: BrowserFeatureStatus::Supported,
            script_result: BrowserFeatureStatus::Supported,
            // Windows opens a real DevTools window; macOS crashes outright, so
            // the producer refuses there.
            devtools: if platform == Platform::Macos {
                BrowserFeatureStatus::Unsupported(
                    "DevTools crashes CEF 148 for windowless browsers on macOS",
                )
            } else {
                BrowserFeatureStatus::Supported
            },
            // Whether a download can land is a per-producer question, decided
            // by its download directory. This reports the wiring.
            downloads: BrowserFeatureStatus::Supported,
            auth_challenges: BrowserFeatureStatus::Partial(
                "GetAuthCredentials is wired and answerable, but CEF 147 was not                  observed to call it for server auth; proxy auth untested",
            ),
            permission_requests: BrowserFeatureStatus::Supported,
            devtools_protocol: BrowserFeatureStatus::Supported,
            // Two unrelated things share this name: widget surfaces, which are
            // rendered, and popup browsers, which are denied and reported.
            popups: BrowserFeatureStatus::Partial(
                "widget surfaces are rendered via acquire_popup; popup browsers (window.open) are denied and surfaced as NewWindowRequested",
            ),
            context_menus: BrowserFeatureStatus::Supported,
            console_messages: BrowserFeatureStatus::Supported,
            printer: if platform == Platform::Linux {
                BrowserFeatureStatus::Unsupported(
                    "Linux CEF requires an embedder-owned print handler and printer UI",
                )
            } else {
                BrowserFeatureStatus::Supported
            },
            drag_drop: BrowserFeatureStatus::Supported,
            touch: BrowserFeatureStatus::Supported,
            png_snapshot: BrowserFeatureStatus::Supported,
            profile_isolation: BrowserFeatureStatus::Supported,
        }
    }
}

/// A capability report never leaves a gap unexplained: whatever is not fully
/// supported carries a reason a host can show.
pub proof fn law_every_gap_is_explained(
    capabilities: CefSurfaceCapabilities,
    platform: Platform,
    cpu_paint: bool,
)
    requires
        capabilities.describes(platform, cpu_paint),
    ensures
        capabilities.cookies.is_explained(),
        capabilities.cookie_change_events.is_explained(),
        capabilities.script_execution.is_explained(),
        capabilities.script_result.is_explained(),
        capabilities.devtools.is_explained(),
        capabilities.downloads.is_explained(),
        capabilities.auth_challenges.is_explained(),
        capabilities.permission_requests.is_explained(),
        capabilities.devtools_protocol.is_explained(),
        capabilities.popups.is_explained(),
        capabilities.context_menus.is_explained(),
        capabilities.console_messages.is_explained(),
        capabilities.printer.is_explained(),
        capabilities.drag_drop.is_explained(),
        capabilities.touch.is_explained(),
        capabilities.png_snapshot.is_explained(),
        capabilities.profile_isolation.is_explained(),
{
    reveal_strlit("CEF cookie observers are not wired yet");
    reveal_strlit(
        "GetAuthCredentials is wired and answerable, but CEF 147 was not                  observed to call it for server auth; proxy auth untested",
    );
    reveal_strlit(
        "widget surfaces are rendered via acquire_popup; popup browsers (window.open) are denied and surfaced as NewWindowRequested",
    );
    reveal_strlit("DevTools crashes CEF 148 for windowless browsers on macOS");
    reveal_strlit("Linux CEF requires an embedder-owned print handler and printer UI");
}

/// Every platform with a GPU path prefers it. Without one a surface paints on the
/// CPU where that was built in, and does not paint otherwise.
pub proof fn law_the_best_way_to_paint_is_preferred(
    platform: Platform,
    cpu_paint: bool,
    capabilities: CefSurfaceCapabilities,
)
    requires
        call_ensures(CefSurfaceCapabilities::probe_for, (platform, cpu_paint), capabilities),
    ensures
        capabilities.accelerated_paint_available <==> platform == Platform::Windows || platform
            == Platform::Macos || platform == Platform::Linux,
        capabilities.cpu_paint_available <==> cpu_paint,
        capabilities.preferred_mode is AcceleratedPaint
            <==> capabilities.accelerated_paint_available,
        capabilities.preferred_mode is CpuPaint <==> cpu_paint
            && !capabilities.accelerated_paint_available,
        capabilities.preferred_mode is Unsupported <==> !cpu_paint
            && !capabilities.accelerated_paint_available,
{
}

/// DevTools are lacking on macOS alone, and printing on Linux alone. Nothing
/// observes cookies anywhere, authentication and popups work in part, and
/// everything else works everywhere.
pub proof fn law_gaps_are_where_they_are_said_to_be(
    platform: Platform,
    cpu_paint: bool,
    capabilities: CefSurfaceCapabilities,
)
    requires
        call_ensures(CefSurfaceCapabilities::probe_for, (platform, cpu_paint), capabilities),
    ensures
        capabilities.devtools is Unsupported <==> platform == Platform::Macos,
        capabilities.devtools is Supported <==> platform != Platform::Macos,
        capabilities.printer is Unsupported <==> platform == Platform::Linux,
        capabilities.printer is Supported <==> platform != Platform::Linux,
        capabilities.cookie_change_events is Unsupported,
        capabilities.auth_challenges is Partial,
        capabilities.popups is Partial,
        capabilities.cookies is Supported,
        capabilities.script_execution is Supported,
        capabilities.script_result is Supported,
        capabilities.downloads is Supported,
        capabilities.permission_requests is Supported,
        capabilities.devtools_protocol is Supported,
        capabilities.context_menus is Supported,
        capabilities.console_messages is Supported,
        capabilities.drag_drop is Supported,
        capabilities.touch is Supported,
        capabilities.png_snapshot is Supported,
        capabilities.profile_isolation is Supported,
{
}

/// What is probed without saying where is what Linux has.
pub proof fn law_a_probe_is_of_linux(
    capabilities: CefSurfaceCapabilities,
    linux: CefSurfaceCapabilities,
)
    requires
        call_ensures(CefSurfaceCapabilities::probe, (), capabilities),
        call_ensures(CefSurfaceCapabilities::probe_for, (Platform::Linux, false), linux),
    ensures
        capabilities.preferred_mode is AcceleratedPaint,
        capabilities.preferred_mode == linux.preferred_mode,
        capabilities.cpu_paint_available == linux.cpu_paint_available,
        capabilities.printer is Unsupported,
        capabilities.devtools is Supported,
{
}

} // verus!
