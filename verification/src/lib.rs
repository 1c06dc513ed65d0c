//! Browser surfaces for hosts that render with a GPU pipeline of their own.
//!
//! Chromium paints off screen and hands its frames out as GPU resources. This
//! library holds everything around that which is a decision rather than a call:
//! what a frame may be imported as, what the browser is asked to do, what its
//! reports come to, and what a host has to be told. The calls themselves are made
//! by whoever holds the browser, the window and the device.

pub mod auth;
pub mod bits;
pub mod capabilities;
pub mod commands;
pub mod cookies;
pub mod cursor;
pub mod devtools;
pub mod dmabuf;
pub mod downloads;
pub mod drag;
pub mod error;
pub mod events;
pub mod handlers;
pub mod host;
pub mod ids;
pub mod ime;
pub mod import;
pub mod input;
pub mod js;
pub mod linux_cef;
pub mod macos_cef;
pub mod native_frame;
pub mod options;
pub mod page;
pub mod paths;
pub mod permissions;
pub mod platform;
pub mod popup;
pub mod probe;
pub mod profile;
pub mod runtime;
pub mod scripted;
pub mod scripts;
pub mod setup;
pub mod snapshot;
pub mod surface;
pub mod text;
pub mod windows_cef;

pub use capabilities::{BrowserFeatureStatus, CefSurfaceCapabilities, CefSurfaceMode};
pub use dmabuf::{DmaBufImage, DmaBufPlane};
pub use error::WeldError;
pub use events::{
    AuthId, CefSurfaceEvent, DownloadId, NavigationEvent, PermissionId, SnapshotPngCompletion,
    SnapshotRequestId, WebEventQueue, WebRequestId,
};
pub use import::{ImportRoute, WgpuTextureImporter};
pub use native_frame::{
    ImportError, InteropBackend, NativeFrame, NativeFrameKind, NativeFramePixelFormat,
};
pub use permissions::PermissionKind;
pub use platform::{PhysicalSize, Platform};
pub use runtime::{CefLogSeverity, CefRuntimeConfig};
pub use surface::{
    CefSurfaceConfig, ContactDevice, ContextMenuTarget, Cookie, CursorShape, DragEventKind,
    DragFile, DragInput, DragOperations, DragPayload, EventModifiers, FocusDirection,
    ImeComposition, KeyEvent, KeyEventKind, MouseAction, MouseButton, MouseEvent, PopupRect,
    ProcessTerminationStatus, SameSite, TouchPhase, ZoomCommand,
};
