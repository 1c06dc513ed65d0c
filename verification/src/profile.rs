//! Per-producer profiles.
//!
//! Each producer has a request context of its own: one surface, one set of
//! cookies, storage and cache. Without a directory the profile is kept in
//! memory, isolated all the same.
use vstd::prelude::*;
use vstd::string::*;
use crate::error::{is_surface_creation, WeldError};
use crate::paths::{is_absolute, lies_inside, lies_within, starts_at_root};
use crate::platform::Platform;
use crate::text::{joined, joined3};

verus! {

/// How a producer's request context is set up.
#[derive(Debug)]
pub struct ProfileSettings {
    /// Where the profile is kept. `None` keeps it in memory.
    pub cache_path: Option<String>,
    /// Whether session cookies are kept too. A profile in memory has no disk to
    /// keep them on.
    pub persist_session_cookies: bool,
}

/// Why a producer cannot keep its profile in `user_data_dir`.
pub open spec fn profile_fault(
    user_data_dir: Seq<char>,
    cache_path: Option<Seq<char>>,
    platform: Platform,
) -> Option<Seq<char>> {
    if !is_absolute(user_data_dir, platform) {
        Some("CefSurfaceConfig::user_data_dir must be absolute: "@ + user_data_dir)
    } else {
        match cache_path {
            None => Some(
                "CefRuntimeConfig::cache_path is required when a producer uses user_data_dir; otherwise CEF selects a shared platform-default root cache"@,
            ),
            Some(root) => if !is_absolute(root, platform) {
                Some(
                    "CefRuntimeConfig::cache_path must be absolute for persistent profiles: "@
                        + root,
                )
            } else if !lies_inside(user_data_dir, root, platform) {
                Some(
                    "CefSurfaceConfig::user_data_dir ("@ + user_data_dir
                        + ") must be inside CefRuntimeConfig::cache_path ("@ + root + ")"@,
                )
            } else {
                None
            },
        }
    }
}

/// The text of an optional string.
pub open spec fn text_of(value: Option<String>) -> Option<Seq<char>> {
    match value {
        Some(text) => Some(text@),
        None => None,
    }
}

/// The settings of one producer's request context.
///
/// A persistent profile has to have an absolute path inside the runtime's cache
/// path, which has to be set and absolute itself. What `..` leads out of the
/// cache path is not inside it.
pub fn create(
    user_data_dir: &Option<String>,
    cache_path: &Option<String>,
    platform: Platform,
) -> (settings: Result<ProfileSettings, WeldError>)
    ensures
        match user_data_dir {
            None => settings matches Ok(settings) && settings.cache_path is None
                && !settings.persist_session_cookies,
            Some(dir) => match profile_fault(dir@, text_of(*cache_path), platform) {
                Some(reason) => settings matches Err(error) && is_surface_creation(error, reason),
                None => settings matches Ok(settings) && text_of(settings.cache_path) == Some(
                    dir@,
                ) && settings.persist_session_cookies,
            },
        },
{
    match user_data_dir {
        None => Ok(ProfileSettings { cache_path: None, persist_session_cookies: false }),
        Some(dir) => {
            if !starts_at_root(dir.as_str(), platform) {
                return Err(
                    WeldError::SurfaceCreation(
                        joined(
                            "CefSurfaceConfig::user_data_dir must be absolute: ",
                            dir.as_str(),
                        ),
                    ),
                );
            }
            match cache_path {
                None => Err(
                    WeldError::SurfaceCreation(
                        "CefRuntimeConfig::cache_path is required when a producer uses user_data_dir; otherwise CEF selects a shared platform-default root cache".to_owned(),
                    ),
                ),
                Some(root) => {
                    if !starts_at_root(root.as_str(), platform) {
                        return Err(
                            WeldError::SurfaceCreation(
                                joined(
                                    "CefRuntimeConfig::cache_path must be absolute for persistent profiles: ",
                                    root.as_str(),
                                ),
                            ),
                        );
                    }
                    if !lies_within(dir.as_str(), root.as_str(), platform) {
                        let mut reason = joined3(
                            "CefSurfaceConfig::user_data_dir (",
                            dir.as_str(),
                            ") must be inside CefRuntimeConfig::cache_path (",
                        );
                        reason.append(root.as_str());
                        reason.append(")");
                        return Err(WeldError::SurfaceCreation(reason));
                    }
                    Ok(
                        ProfileSettings {
                            cache_path: Some(dir.clone()),
                            persist_session_cookies: true,
                        },
                    )
                },
            }
        },
    }
}

/// A profile is kept on disk exactly where it has an absolute path that lies
/// inside the runtime's absolute cache path, wherever `..` leads. Without a cache
/// path there is none.
pub proof fn law_a_persistent_profile_is_inside_the_cache(
    user_data_dir: Seq<char>,
    cache_path: Option<Seq<char>>,
    platform: Platform,
)
    ensures
        profile_fault(user_data_dir, cache_path, platform) is None <==> {
            &&& cache_path is Some
            &&& is_absolute(user_data_dir, platform)
            &&& is_absolute(cache_path->0, platform)
            &&& lies_inside(user_data_dir, cache_path->0, platform)
        },
{
}

/// A profile without a directory is kept in memory. One with a directory is kept
/// there, and only where the directory and the cache are absolute and the directory
/// is inside the cache.
pub proof fn law_a_profile_is_kept_where_it_may_be(
    user_data_dir: Option<String>,
    cache_path: Option<String>,
    platform: Platform,
    settings: Result<ProfileSettings, WeldError>,
)
    requires
        call_ensures(create, (&user_data_dir, &cache_path, platform), settings),
    ensures
        user_data_dir is None ==> (settings matches Ok(settings) && settings.cache_path is None
            && !settings.persist_session_cookies),
        user_data_dir matches Some(dir) ==> (settings is Ok <==> is_absolute(dir@, platform)
            && cache_path is Some && is_absolute(cache_path->0@, platform) && lies_inside(
            dir@,
            cache_path->0@,
            platform,
        )),
        user_data_dir matches Some(dir) ==> (settings matches Ok(settings)
            ==> settings.cache_path is Some && settings.cache_path->0@ == dir@
            && settings.persist_session_cookies),
        settings matches Err(error) ==> error is SurfaceCreation,
{
}

} // verus!
