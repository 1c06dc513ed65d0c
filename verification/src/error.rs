//! The errors of the library.
use vstd::prelude::*;
use vstd::string::*;
use crate::native_frame::ImportError;
use crate::text::{joined, joined3, push_signed, signed_decimal};

verus! {

#[derive(Debug)]
#[non_exhaustive]
pub enum WeldError {
    /// A constructor was called on a build that leaves the named feature out.
    FeatureRequired(&'static str),
    /// The browser's framework or shared library did not load from `path`.
    CefLoadFailed { path: String },
    InitFailed { code: i32 },
    /// This process is a browser subprocess, and the caller must exit with the code.
    SubprocessExit(i32),
    /// Accelerated painting never happened.
    AcceleratedOsrUnavailable { reason: &'static str },
    SurfaceCreation(String),
    Import(ImportError),
    PlatformUnsupported(&'static str),
    BrowserOp(String),
}

impl From<ImportError> for WeldError {
    fn from(error: ImportError) -> (wrapped: WeldError) {
        WeldError::Import(error)
    }
}

impl vstd::std_specs::convert::FromSpecImpl<ImportError> for WeldError {
    open spec fn obeys_from_spec() -> bool {
        true
    }

    open spec fn from_spec(error: ImportError) -> WeldError {
        WeldError::Import(error)
    }
}

impl WeldError {
    /// The error in words.
    pub open spec fn text(&self) -> Seq<char> {
        match self {
            WeldError::FeatureRequired(feature) => "welding feature "@ + feature@
                + " is required for this operation"@,
            WeldError::CefLoadFailed { path } => "cef::load_library returned failure for path "@
                + path@,
            WeldError::InitFailed { code } => "CEF initialization failed (code "@
                + signed_decimal(*code as int) + ")"@,
            WeldError::SubprocessExit(code) => "CEF subprocess exit (code "@
                + signed_decimal(*code as int)
                + "); caller must std::process::exit with this value"@,
            WeldError::AcceleratedOsrUnavailable { reason } =>
            "CEF accelerated OSR unavailable: "@ + reason@,
            WeldError::SurfaceCreation(reason) => "CEF surface creation failed: "@ + reason@,
            WeldError::Import(error) => "frame import error: "@ + error.text(),
            WeldError::PlatformUnsupported(what) => "not supported on this platform: "@ + what@,
            WeldError::BrowserOp(reason) => "CEF browser operation failed: "@ + reason@,
        }
    }

    /// The error in words.
    pub fn message(&self) -> (message: String)
        ensures
            message@ == self.text(),
    {
        match self {
            WeldError::FeatureRequired(feature) => joined3(
                "welding feature ",
                feature,
                " is required for this operation",
            ),
            WeldError::CefLoadFailed { path } => joined(
                "cef::load_library returned failure for path ",
                path.as_str(),
            ),
            WeldError::InitFailed { code } => {
                let mut message = "CEF initialization failed (code ".to_owned();
                push_signed(&mut message, *code as i64);
                message.append(")");
                message
            },
            WeldError::SubprocessExit(code) => {
                let mut message = "CEF subprocess exit (code ".to_owned();
                push_signed(&mut message, *code as i64);
                message.append("); caller must std::process::exit with this value");
                message
            },
            WeldError::AcceleratedOsrUnavailable { reason } => joined(
                "CEF accelerated OSR unavailable: ",
                reason,
            ),
            WeldError::SurfaceCreation(reason) => joined(
                "CEF surface creation failed: ",
                reason.as_str(),
            ),
            WeldError::Import(error) => {
                let inner: String = error.message();
                joined("frame import error: ", inner.as_str())
            },
            WeldError::PlatformUnsupported(what) => joined(
                "not supported on this platform: ",
                what,
            ),
            WeldError::BrowserOp(reason) => joined(
                "CEF browser operation failed: ",
                reason.as_str(),
            ),
        }
    }
}

/// Whether an error is a failed browser operation with this reason.
pub open spec fn is_browser_op(error: WeldError, reason: Seq<char>) -> bool {
    error matches WeldError::BrowserOp(text) && text@ == reason
}

/// Whether an error says that the platform does not support this.
pub open spec fn is_unsupported(error: WeldError, what: Seq<char>) -> bool {
    error matches WeldError::PlatformUnsupported(text) && text@ == what
}

/// Whether an error says that the surface could not be created, for this reason.
pub open spec fn is_surface_creation(error: WeldError, reason: Seq<char>) -> bool {
    error matches WeldError::SurfaceCreation(text) && text@ == reason
}

/// The failed browser operation with this reason.
pub fn browser_op(reason: &str) -> (error: WeldError)
    ensures
        is_browser_op(error, reason@),
{
    WeldError::BrowserOp(reason.to_owned())
}

/// The error of an operation for which there is no browser to perform it.
pub fn pending(op: &str) -> (error: WeldError)
    ensures
        is_browser_op(error, op@ + ": requires `cef-runtime` feature or pending wiring"@),
{
    WeldError::BrowserOp(joined(op, ": requires `cef-runtime` feature or pending wiring"))
}

/// A message names the error that it is of, and holds the error's own text in full.
pub proof fn law_a_message_says_what_went_wrong(error: WeldError, message: String)
    requires
        call_ensures(WeldError::message, (&error,), message),
    ensures
        error matches WeldError::FeatureRequired(feature) ==> message@ == "welding feature "@
            + feature@ + " is required for this operation"@,
        error matches WeldError::CefLoadFailed { path } ==> message@
            == "cef::load_library returned failure for path "@ + path@,
        error matches WeldError::InitFailed { code } ==> message@
            == "CEF initialization failed (code "@ + signed_decimal(code as int) + ")"@,
        error matches WeldError::SubprocessExit(code) ==> message@ == "CEF subprocess exit (code "@
            + signed_decimal(code as int) + "); caller must std::process::exit with this value"@,
        error matches WeldError::AcceleratedOsrUnavailable { reason } ==> message@
            == "CEF accelerated OSR unavailable: "@ + reason@,
        error matches WeldError::SurfaceCreation(reason) ==> message@
            == "CEF surface creation failed: "@ + reason@,
        error matches WeldError::Import(inner) ==> message@ == "frame import error: "@
            + inner.text(),
        error matches WeldError::PlatformUnsupported(what) ==> message@
            == "not supported on this platform: "@ + what@,
        error matches WeldError::BrowserOp(reason) ==> message@ == "CEF browser operation failed: "@
            + reason@,
{
}

/// A failed browser operation keeps its reason, and one that waits for a browser
/// names itself first.
pub proof fn law_a_failed_operation_is_named(
    reason: &str,
    failed: WeldError,
    op: &str,
    waiting: WeldError,
)
    requires
        call_ensures(browser_op, (reason,), failed),
        call_ensures(pending, (op,), waiting),
    ensures
        failed matches WeldError::BrowserOp(text) && text@ == reason@,
        waiting matches WeldError::BrowserOp(text) && text@ == op@
            + ": requires `cef-runtime` feature or pending wiring"@,
{
}

} // verus!
