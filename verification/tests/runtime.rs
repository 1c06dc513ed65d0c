//! The runtime, profiles, paths and error messages.
use welding::error::WeldError;
use welding::native_frame::{ImportError, InteropBackend, NativeFrameKind};
use welding::paths::{file_name_of, is_within, lies_within, starts_at_root};
use welding::profile::create;
use welding::runtime::{
    build_settings, cef_lib_name, initialized, is_loadable, library_to_load, maybe_load_library,
    subprocess_exit,
};
use welding::{CefLogSeverity, CefRuntimeConfig, Platform};

#[test]
fn settings_follow_the_configuration() {
    let mut config = CefRuntimeConfig::new("/cef".to_owned());
    assert!(!config.single_process && config.command_line_switches.is_empty());
    config.cache_path = Some("/cache".to_owned());
    config.log_severity = CefLogSeverity::Disable;
    config.user_agent = Some("ua".to_owned());
    let linux = build_settings(&config, Platform::Linux);
    assert!(linux.windowless_rendering_enabled && linux.no_sandbox);
    assert!(!linux.multi_threaded_message_loop && linux.external_message_pump);
    assert_eq!(linux.log_severity, 99);
    assert_eq!(linux.root_cache_path.as_deref(), Some("/cache"));
    assert_eq!(linux.browser_subprocess_path, None);
    assert_eq!(linux.user_agent.as_deref(), Some("ua"));
    let windows = build_settings(&config, Platform::Windows);
    assert!(windows.multi_threaded_message_loop && !windows.external_message_pump);
    let raw: Vec<i32> = [
        CefLogSeverity::Default,
        CefLogSeverity::Verbose,
        CefLogSeverity::Info,
        CefLogSeverity::Warning,
        CefLogSeverity::Error,
        CefLogSeverity::Fatal,
    ]
    .iter()
    .map(|severity| severity.raw())
    .collect();
    assert_eq!(raw, vec![0, 1, 2, 3, 4, 5]);
}

#[test]
fn a_subprocess_exits_and_a_host_goes_on() {
    assert_eq!(subprocess_exit(-1), None);
    assert_eq!(subprocess_exit(0), Some(0));
    assert_eq!(subprocess_exit(7), Some(7));
    assert!(initialized(1).is_ok());
    assert!(matches!(initialized(0), Err(WeldError::InitFailed { code: 0 })));
}

#[test]
fn only_macos_loads_a_library_first() {
    assert_eq!(cef_lib_name(Platform::Linux), "libcef.so");
    assert_eq!(cef_lib_name(Platform::Windows), "libcef.dll");
    assert_eq!(library_to_load("/f", Platform::Linux), None);
    let path = library_to_load("/f", Platform::Macos).unwrap();
    assert_eq!(path, "/f/Chromium Embedded Framework.framework/Chromium Embedded Framework");
    assert!(is_loadable(&path) && !is_loadable("a\0b"));
    assert!(maybe_load_library(path.clone(), Some(1)).is_ok());
    assert_eq!(
        maybe_load_library(path, None).unwrap_err().message(),
        "cef::load_library returned failure for path /f/Chromium Embedded Framework.framework/Chromium Embedded Framework"
    );
    assert!(maybe_load_library(String::new(), Some(0)).is_err());
}

fn profile(dir: Option<&str>, cache: Option<&str>) -> Result<(Option<String>, bool), String> {
    profile_on(dir, cache, Platform::Linux)
}

fn profile_on(
    dir: Option<&str>,
    cache: Option<&str>,
    platform: Platform,
) -> Result<(Option<String>, bool), String> {
    create(&dir.map(str::to_owned), &cache.map(str::to_owned), platform)
        .map(|settings| (settings.cache_path, settings.persist_session_cookies))
        .map_err(|error| error.message())
}

#[test]
fn a_profile_is_in_memory_or_inside_the_cache() {
    assert_eq!(profile(None, None), Ok((None, false)));
    assert_eq!(profile(None, Some("relative")), Ok((None, false)));
    assert_eq!(profile(Some("/c/p"), Some("/c")), Ok((Some("/c/p".to_owned()), true)));
    assert_eq!(profile(Some("/c//./p/"), Some("/c/")), Ok((Some("/c//./p/".to_owned()), true)));
    assert_eq!(
        profile(Some("p"), Some("/c")).unwrap_err(),
        "CEF surface creation failed: CefSurfaceConfig::user_data_dir must be absolute: p"
    );
    assert_eq!(
        profile(Some("/c/p"), None).unwrap_err(),
        "CEF surface creation failed: CefRuntimeConfig::cache_path is required when a producer uses user_data_dir; otherwise CEF selects a shared platform-default root cache"
    );
    assert_eq!(
        profile(Some("/c/p"), Some("c")).unwrap_err(),
        "CEF surface creation failed: CefRuntimeConfig::cache_path must be absolute for persistent profiles: c"
    );
    assert_eq!(
        profile(Some("/cache2"), Some("/cache")).unwrap_err(),
        "CEF surface creation failed: CefSurfaceConfig::user_data_dir (/cache2) must be inside CefRuntimeConfig::cache_path (/cache)"
    );
}

#[test]
fn paths_are_read_as_the_standard_library_reads_them() {
    let paths = ["/", "/a", "/a/", "/a/b", "/a//b/.", "/a/../b", "/a/b/..", "/./a", "//a/b", "/a.b/c"];
    for path in paths {
        let std_path = std::path::Path::new(path);
        assert_eq!(starts_at_root(path, Platform::Linux), std_path.is_absolute());
        assert_eq!(
            file_name_of(path, Platform::Linux),
            std_path.file_name().map(|name| name.to_str().unwrap().to_owned()),
            "{path}"
        );
        for root in paths {
            assert_eq!(
                is_within(path, root, Platform::Linux),
                std_path.starts_with(root),
                "{path} in {root}"
            );
        }
    }
    assert!(!starts_at_root("a/b", Platform::Linux) && !starts_at_root("", Platform::Linux));
}

#[test]
fn a_profile_that_leaves_the_cache_is_refused() {
    for dir in ["/c/../x", "/c/..", "/c/a/../../x", "/../x", "/c/../c2/p"] {
        assert_eq!(
            profile(Some(dir), Some("/c")).unwrap_err(),
            format!(
                "CEF surface creation failed: CefSurfaceConfig::user_data_dir ({dir}) must be inside CefRuntimeConfig::cache_path (/c)"
            )
        );
    }
    for dir in ["/c/a/../b", "/x/../c/p", "/../c", "/c/a/.."] {
        assert_eq!(profile(Some(dir), Some("/c")), Ok((Some(dir.to_owned()), true)));
    }
    assert!(profile(Some("/p"), Some("/c/..")).is_ok());
    assert!(profile(Some("/c/p"), Some("/c/../d")).is_err());
}

#[test]
fn paths_on_windows_start_at_a_drive_or_a_share() {
    let windows = Platform::Windows;
    for path in ["C:\\", "c:/x", "\\\\server\\share", "//server/share/x"] {
        assert!(starts_at_root(path, windows), "{path}");
    }
    for path in ["C:", "C:x", "\\x", "/x", "x", "\\\\server", ""] {
        assert!(!starts_at_root(path, windows), "{path}");
    }
    assert_eq!(file_name_of("C:\\a\\b.txt", windows).as_deref(), Some("b.txt"));
    assert_eq!(file_name_of("C:\\", windows), None);
    assert_eq!(file_name_of("\\\\server\\share", windows), None);
    assert_eq!(file_name_of("C:\\a", Platform::Linux).as_deref(), Some("C:\\a"));
    let within = |path: &str, root: &str| lies_within(path, root, windows);
    assert!(within("c:/cache/p", "C:\\cache") && within("C:\\", "C:/"));
    assert!(!within("D:\\cache\\p", "C:\\cache") && !within("C:\\cache\\..\\p", "C:\\cache"));
    assert!(within("\\\\s\\t\\..\\a", "\\\\s\\t\\a"), "there is nothing above a share");
    assert!(!within("\\\\s\\u\\a", "\\\\s\\t") && !within("C:\\a", "\\\\s\\t"));
    for path in [r"\\.\x", r"\\.\", "//./COM1", r"\\?\name", r"\\?\C:", r"\\?\UNC\s\t"] {
        assert!(starts_at_root(path, windows), "{path}");
    }
    for path in [r"\\\a\b", r"\\a\\b", r"\\?", "///a/b"] {
        assert!(!starts_at_root(path, windows), "{path}");
    }
    assert_eq!(file_name_of(r"\\.\COM1", windows), None);
    assert_eq!(file_name_of(r"\\.\pipe\x", windows).as_deref(), Some("x"));
    assert_eq!(file_name_of(r"\\?\C:\a/b", windows).as_deref(), Some("a/b"));
    assert_eq!(file_name_of(r"\\?\C:\.", windows), None);
    assert!(within(r"\\?\c:\c\p", r"\\?\C:\c") && !within(r"\\?\C:\c", r"C:\c"));
    assert!(within(r"\\?\UNC\s\t\a", r"\\?\UNC\s\t") && !within(r"\\.\y\a", r"\\.\x"));
    assert!(profile_on(Some("C:\\c\\p"), Some("C:\\c"), windows).is_ok());
    assert!(profile_on(Some("/c/p"), Some("/c"), windows).is_err());
}

#[test]
fn errors_are_put_into_words() {
    let text = |error: WeldError| error.message();
    assert_eq!(
        text(WeldError::FeatureRequired("cef-runtime")),
        "welding feature cef-runtime is required for this operation"
    );
    assert_eq!(
        text(WeldError::InitFailed { code: -12 }),
        "CEF initialization failed (code -12)"
    );
    assert_eq!(
        text(WeldError::SubprocessExit(3)),
        "CEF subprocess exit (code 3); caller must std::process::exit with this value"
    );
    assert_eq!(
        text(WeldError::AcceleratedOsrUnavailable { reason: "r" }),
        "CEF accelerated OSR unavailable: r"
    );
    assert_eq!(
        text(WeldError::from(ImportError::BackendMismatch {
            frame: NativeFrameKind::DmaBufImage,
            wgpu: InteropBackend::Dx12,
        })),
        "frame import error: backend mismatch: frame is DmaBufImage but wgpu reports Dx12"
    );
    let import = |error: ImportError| error.message();
    assert_eq!(import(ImportError::D3d11OpenShared("x".into())), "D3D11 open-shared-resource failed: x");
    assert_eq!(import(ImportError::D3d12OpenShared("x".into())), "D3D12 open-shared-handle failed: x");
    assert_eq!(import(ImportError::Hal("x".into())), "wgpu-hal error: x");
}
