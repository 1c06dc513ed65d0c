//! How the browser of a surface is created.
use vstd::prelude::*;
use vstd::string::*;
use crate::error::{is_surface_creation, WeldError};
use crate::platform::Platform;
use crate::profile::{create, profile_fault, text_of, ProfileSettings};
use crate::surface::{argb, CefSurfaceConfig};

verus! {

/// What the browser is given when it is created.
#[derive(Debug)]
pub struct BrowserSetup {
    pub windowless_rendering_enabled: bool,
    pub shared_texture_enabled: bool,
    /// Off: the browser drives its own paints, at its own rate.
    pub external_begin_frame_enabled: bool,
    pub windowless_frame_rate: i32,
    pub background_color: u32,
    pub url: String,
    /// The request context, which is the surface's own.
    pub profile: ProfileSettings,
}

/// Whether `setup` is what the configuration of a surface asks for.
pub open spec fn sets_up(surface: CefSurfaceConfig, setup: BrowserSetup) -> bool {
    &&& setup.windowless_rendering_enabled
    &&& setup.shared_texture_enabled
    &&& !setup.external_begin_frame_enabled
    &&& setup.windowless_frame_rate == 60
    &&& setup.background_color == argb(surface.background_color)
    &&& setup.url@ == surface.initial_url@
    &&& text_of(setup.profile.cache_path) == text_of(surface.user_data_dir)
    &&& setup.profile.persist_session_cookies == (surface.user_data_dir is Some)
}

/// Why the browser of a surface cannot be created: its profile cannot be kept
/// where the configuration wants it.
pub open spec fn setup_fault(
    surface: CefSurfaceConfig,
    cache_path: Option<String>,
    platform: Platform,
) -> Option<Seq<char>> {
    match surface.user_data_dir {
        Some(dir) => profile_fault(dir@, text_of(cache_path), platform),
        None => None,
    }
}

/// How the browser of a surface is created.
pub fn browser_setup(
    surface: &CefSurfaceConfig,
    cache_path: &Option<String>,
    platform: Platform,
) -> (setup: Result<BrowserSetup, WeldError>)
    ensures
        match setup {
            Ok(setup) => setup_fault(*surface, *cache_path, platform) is None && sets_up(
                *surface,
                setup,
            ),
            Err(error) => setup_fault(*surface, *cache_path, platform) matches Some(reason)
                && is_surface_creation(error, reason),
        },
{
    match create(&surface.user_data_dir, cache_path, platform) {
        Ok(profile) => Ok(
            BrowserSetup {
                windowless_rendering_enabled: true,
                shared_texture_enabled: true,
                external_begin_frame_enabled: false,
                windowless_frame_rate: 60,
                background_color: surface.cef_background_color(),
                url: surface.initial_url.clone(),
                profile,
            },
        ),
        Err(error) => Err(error),
    }
}

/// A browser is created windowless, with shared textures, sixty frames a second and
/// the surface's own page and background, exactly where its profile may be kept. It
/// keeps its session exactly where the surface has a directory.
pub proof fn law_a_browser_is_created_for_its_surface(
    surface: CefSurfaceConfig,
    cache_path: Option<String>,
    platform: Platform,
    setup: Result<BrowserSetup, WeldError>,
    settings: Result<ProfileSettings, WeldError>,
)
    requires
        call_ensures(browser_setup, (&surface, &cache_path, platform), setup),
        call_ensures(create, (&surface.user_data_dir, &cache_path, platform), settings),
    ensures
        setup is Ok <==> settings is Ok,
        surface.user_data_dir is None ==> setup is Ok,
        setup matches Err(error) ==> error is SurfaceCreation,
        setup matches Ok(setup) ==> {
            &&& setup.windowless_rendering_enabled
            &&& setup.shared_texture_enabled
            &&& !setup.external_begin_frame_enabled
            &&& setup.windowless_frame_rate == 60
            &&& setup.url@ == surface.initial_url@
            &&& surface.background_color is None ==> setup.background_color == 0
            &&& surface.background_color matches Some(rgb) ==> setup.background_color == 0xff00_0000
                + 0x1_0000 * rgb@[0] + 0x100 * rgb@[1] + rgb@[2]
            &&& setup.profile.persist_session_cookies <==> surface.user_data_dir is Some
            &&& setup.profile.cache_path is Some <==> surface.user_data_dir is Some
            &&& surface.user_data_dir matches Some(dir) ==> setup.profile.cache_path->0@ == dir@
        },
{
}

} // verus!
