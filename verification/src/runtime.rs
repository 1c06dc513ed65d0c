//! Configuration of the browser runtime of a process.
//!
//! The browser re-executes the host's binary as its renderer, GPU and utility
//! subprocesses. A host therefore asks for its role first thing in `main`, and
//! exits at once where it is a subprocess.
use vstd::prelude::*;
use vstd::string::*;
use crate::downloads::{join_path, open_dir};
use crate::error::WeldError;
use crate::platform::Platform;
use crate::profile::text_of;
use crate::text::chars_of;

verus! {

/// Configuration of the runtime.
#[derive(Clone, Debug)]
pub struct CefRuntimeConfig {
    /// Directory with the browser's binary distribution.
    pub cef_path: String,
    /// Path of the subprocess helper. `None` uses this binary again.
    pub browser_subprocess_path: Option<String>,
    /// Persistent cache directory. `None` keeps everything in memory.
    pub cache_path: Option<String>,
    /// **Not for production.** Single-process mode.
    pub single_process: bool,
    pub log_severity: CefLogSeverity,
    /// Chromium's command-line switches, each with or without a value, for the
    /// many behaviours that have no other way in.
    pub command_line_switches: Vec<(String, Option<String>)>,
    /// Replaces the whole user agent.
    pub user_agent: Option<String>,
    /// Replaces only the product part of the user agent.
    pub user_agent_product: Option<String>,
}

impl CefRuntimeConfig {
    pub fn new(cef_path: String) -> (config: Self)
        ensures
            config.cef_path == cef_path,
            config.browser_subprocess_path is None,
            config.cache_path is None,
            !config.single_process,
            config.log_severity == CefLogSeverity::Default,
            config.command_line_switches@.len() == 0,
            config.user_agent is None,
            config.user_agent_product is None,
    {
        CefRuntimeConfig {
            cef_path,
            browser_subprocess_path: None,
            cache_path: None,
            single_process: false,
            log_severity: CefLogSeverity::Default,
            command_line_switches: Vec::new(),
            user_agent: None,
            user_agent_product: None,
        }
    }
}

#[derive(Clone, Copy, Debug, PartialEq, Eq, Structural)]
pub enum CefLogSeverity {
    Default,
    Verbose,
    Info,
    Warning,
    Error,
    Fatal,
    Disable,
}

impl Default for CefLogSeverity {
    fn default() -> (severity: Self)
        ensures
            severity == CefLogSeverity::Default,
    {
        CefLogSeverity::Default
    }
}

impl CefLogSeverity {
    /// The value of `cef_log_severity_t`.
    pub open spec fn spec_raw(self) -> i32 {
        match self {
            CefLogSeverity::Default => 0,
            CefLogSeverity::Verbose => 1,
            CefLogSeverity::Info => 2,
            CefLogSeverity::Warning => 3,
            CefLogSeverity::Error => 4,
            CefLogSeverity::Fatal => 5,
            CefLogSeverity::Disable => 99,
        }
    }

    /// The value of `cef_log_severity_t`.
    pub fn raw(self) -> (raw: i32)
        ensures
            raw == self.spec_raw(),
    {
        match self {
            CefLogSeverity::Default => 0,
            CefLogSeverity::Verbose => 1,
            CefLogSeverity::Info => 2,
            CefLogSeverity::Warning => 3,
            CefLogSeverity::Error => 4,
            CefLogSeverity::Fatal => 5,
            CefLogSeverity::Disable => 99,
        }
    }
}

/// The settings the browser is initialised with. What is `None` is left unset.
#[derive(Debug)]
pub struct RuntimeSettings {
    pub windowless_rendering_enabled: bool,
    pub multi_threaded_message_loop: bool,
    pub external_message_pump: bool,
    pub no_sandbox: bool,
    pub log_severity: i32,
    /// The parent of all cache and session data.
    pub root_cache_path: Option<String>,
    pub browser_subprocess_path: Option<String>,
    pub user_agent: Option<String>,
    pub user_agent_product: Option<String>,
}

/// A copy of an optional string.
fn copied(value: &Option<String>) -> (copy: Option<String>)
    ensures
        text_of(copy) == text_of(*value),
{
    match value {
        Some(text) => Some(text.clone()),
        None => None,
    }
}

/// The settings for a configuration. Windows gives the browser a thread of its
/// own; elsewhere the host's loop pumps it.
pub fn build_settings(config: &CefRuntimeConfig, platform: Platform) -> (settings: RuntimeSettings)
    ensures
        settings.windowless_rendering_enabled,
        settings.multi_threaded_message_loop == (platform == Platform::Windows),
        settings.external_message_pump == (platform != Platform::Windows),
        settings.no_sandbox,
        settings.log_severity == config.log_severity.spec_raw(),
        text_of(settings.root_cache_path) == text_of(config.cache_path),
        text_of(settings.browser_subprocess_path) == text_of(config.browser_subprocess_path),
        text_of(settings.user_agent) == text_of(config.user_agent),
        text_of(settings.user_agent_product) == text_of(config.user_agent_product),
{
    RuntimeSettings {
        windowless_rendering_enabled: true,
        multi_threaded_message_loop: platform == Platform::Windows,
        external_message_pump: platform != Platform::Windows,
        no_sandbox: true,
        log_severity: config.log_severity.raw(),
        root_cache_path: copied(&config.cache_path),
        browser_subprocess_path: copied(&config.browser_subprocess_path),
        user_agent: copied(&config.user_agent),
        user_agent_product: copied(&config.user_agent_product),
    }
}

/// What the browser said of this process: the code to exit with where it is a
/// subprocess, `None` where it is the host.
pub fn subprocess_exit(code: i32) -> (exit: Option<i32>)
    ensures
        exit == (if code >= 0 {
            Some(code)
        } else {
            None
        }),
{
    if code >= 0 {
        Some(code)
    } else {
        None
    }
}

/// What initialising the browser came to.
pub fn initialized(code: i32) -> (outcome: Result<(), WeldError>)
    ensures
        outcome == (if code == 0 {
            Err::<(), WeldError>(WeldError::InitFailed { code })
        } else {
            Ok::<(), WeldError>(())
        }),
{
    if code == 0 {
        Err(WeldError::InitFailed { code })
    } else {
        Ok(())
    }
}

/// The browser's library, inside its distribution.
pub open spec fn library_name(platform: Platform) -> Seq<char> {
    match platform {
        Platform::Windows => "libcef.dll"@,
        Platform::Macos => "Chromium Embedded Framework.framework/Chromium Embedded Framework"@,
        _ => "libcef.so"@,
    }
}

/// The browser's library, inside its distribution.
pub fn cef_lib_name(platform: Platform) -> (name: &'static str)
    ensures
        name@ == library_name(platform),
{
    match platform {
        Platform::Windows => "libcef.dll",
        Platform::Macos => "Chromium Embedded Framework.framework/Chromium Embedded Framework",
        _ => "libcef.so",
    }
}

/// What has to be loaded before anything else: the framework on macOS, and
/// nothing where the system finds the library by itself.
pub fn library_to_load(cef_path: &str, platform: Platform) -> (path: Option<String>)
    ensures
        path is Some <==> platform == Platform::Macos,
        path matches Some(path) ==> path@ == open_dir(cef_path@, Platform::Macos) + library_name(
            Platform::Macos,
        ),
{
    if platform == Platform::Macos {
        Some(join_path(cef_path, cef_lib_name(Platform::Macos), Platform::Macos))
    } else {
        None
    }
}

/// Whether a path can be handed to the loader, which takes text that ends at a
/// zero.
pub fn is_loadable(path: &str) -> (loadable: bool)
    ensures
        loadable == !path@.contains('\0'),
{
    let chars: Vec<char> = chars_of(path);
    let mut i: usize = 0;
    while i < chars.len()
        invariant
            i <= chars.len(),
            chars@ == path@,
            forall|k: int| 0 <= k < i ==> path@[k] != '\0',
        decreases chars.len() - i,
    {
        if chars[i] == '\0' {
            assert(path@[i as int] == '\0');
            return false;
        }
        i += 1;
    }
    true
}

/// What loading the library came to. `None` stands for a path that could not be
/// handed over.
pub fn maybe_load_library(path: String, loaded: Option<i32>) -> (outcome: Result<(), WeldError>)
    ensures
        outcome == (if loaded == Some(1i32) {
            Ok::<(), WeldError>(())
        } else {
            Err::<(), WeldError>(WeldError::CefLoadFailed { path })
        }),
{
    match loaded {
        Some(code) => if code == 1 {
            Ok(())
        } else {
            Err(WeldError::CefLoadFailed { path })
        },
        None => Err(WeldError::CefLoadFailed { path }),
    }
}

/// Severities have the numbers that the browser gives them.
pub proof fn law_severities_have_their_numbers(severity: CefLogSeverity, raw: i32)
    requires
        call_ensures(CefLogSeverity::raw, (severity,), raw),
    ensures
        severity == CefLogSeverity::Default <==> raw == 0,
        severity == CefLogSeverity::Verbose <==> raw == 1,
        severity == CefLogSeverity::Info <==> raw == 2,
        severity == CefLogSeverity::Warning <==> raw == 3,
        severity == CefLogSeverity::Error <==> raw == 4,
        severity == CefLogSeverity::Fatal <==> raw == 5,
        severity == CefLogSeverity::Disable <==> raw == 99,
{
}

/// A runtime runs as it was configured. On Windows it has a loop of its own, and
/// elsewhere the host pumps it.
pub proof fn law_a_runtime_runs_as_configured(
    config: CefRuntimeConfig,
    platform: Platform,
    settings: RuntimeSettings,
)
    requires
        call_ensures(build_settings, (&config, platform), settings),
    ensures
        settings.windowless_rendering_enabled,
        settings.no_sandbox,
        settings.multi_threaded_message_loop <==> platform == Platform::Windows,
        settings.external_message_pump <==> platform != Platform::Windows,
        settings.root_cache_path is Some <==> config.cache_path is Some,
        config.cache_path matches Some(path) ==> settings.root_cache_path->0@ == path@,
        settings.browser_subprocess_path is Some <==> config.browser_subprocess_path is Some,
        config.browser_subprocess_path matches Some(path)
            ==> settings.browser_subprocess_path->0@ == path@,
        settings.user_agent is Some <==> config.user_agent is Some,
        config.user_agent matches Some(agent) ==> settings.user_agent->0@ == agent@,
        settings.user_agent_product is Some <==> config.user_agent_product is Some,
        config.user_agent_product matches Some(agent) ==> settings.user_agent_product->0@ == agent@,
        config.log_severity == CefLogSeverity::Disable ==> settings.log_severity == 99,
        config.log_severity == CefLogSeverity::Default ==> settings.log_severity == 0,
{
}

/// A process that has a code to exit with is a subprocess, a runtime that answers
/// zero did not start, and a library is loaded only where the loader says so.
pub proof fn law_codes_mean_what_they_say(
    code: i32,
    path: String,
    loaded: Option<i32>,
    exit: Option<i32>,
    started: Result<(), WeldError>,
    load: Result<(), WeldError>,
)
    requires
        call_ensures(subprocess_exit, (code,), exit),
        call_ensures(initialized, (code,), started),
        call_ensures(maybe_load_library, (path, loaded), load),
    ensures
        exit is Some <==> code >= 0,
        exit matches Some(exit) ==> exit == code,
        started is Err <==> code == 0,
        started matches Err(error) ==> (error matches WeldError::InitFailed { code: told } && told
            == code),
        load is Ok <==> loaded is Some && loaded->0 == 1,
        load matches Err(error) ==> (error matches WeldError::CefLoadFailed { path: told } && told
            == path),
{
}

/// Each platform has its own library, and only macOS loads it by hand.
pub proof fn law_each_platform_has_its_library(
    platform: Platform,
    cef_path: &str,
    name: &'static str,
    path: Option<String>,
)
    requires
        call_ensures(cef_lib_name, (platform,), name),
        call_ensures(library_to_load, (cef_path, platform), path),
    ensures
        platform == Platform::Windows ==> name@ == "libcef.dll"@,
        platform == Platform::Linux ==> name@ == "libcef.so"@,
        platform == Platform::Macos ==> name@
            == "Chromium Embedded Framework.framework/Chromium Embedded Framework"@,
        path is Some <==> platform == Platform::Macos,
        path matches Some(path) ==> (cef_path@.len() > 0 && cef_path@.last() != '/' ==> path@
            == cef_path@ + seq!['/']
            + "Chromium Embedded Framework.framework/Chromium Embedded Framework"@),
{
    if cef_path@.len() > 0 && cef_path@.last() != '/' {
        assert(cef_path@.push('/') =~= cef_path@ + seq!['/']);
    }
}

/// A path can be handed to the loader exactly where it holds no NUL, and a runtime that
/// nobody configured has defaults throughout.
pub proof fn law_a_runtime_starts_from_defaults(
    path: &str,
    loadable: bool,
    cef_path: String,
    config: CefRuntimeConfig,
)
    requires
        call_ensures(is_loadable, (path,), loadable),
        call_ensures(CefRuntimeConfig::new, (cef_path,), config),
    ensures
        loadable <==> forall|i: int| 0 <= i < path@.len() ==> #[trigger] path@[i] as int != 0,
        config.cef_path == cef_path,
        config.browser_subprocess_path is None && config.cache_path is None
            && config.user_agent is None && config.user_agent_product is None,
        !config.single_process,
        config.log_severity == CefLogSeverity::Default,
        config.command_line_switches@.len() == 0,
{
    if !loadable {
        let i = choose|i: int| 0 <= i < path@.len() && path@[i] == '\0';
        assert(path@[i] as int == 0);
    }
}

} // verus!
