//! What a producer asks of its browser.
//!
//! A producer decides; performing is up to whoever holds the browser. Each
//! operation comes to the commands that carry it out, in order, or to an error
//! where there is no browser to carry them out.
use vstd::prelude::*;
use vstd::string::*;
use crate::drag::{drag_sent, send_drag, DragCommand};
use crate::error::{is_browser_op, is_unsupported, pending, WeldError};
use crate::input::{key_input, pointer_input, send_key, send_mouse, KeyInput, PointerInput};
use crate::js::{message_script, web_message_script};
use crate::platform::Platform;
use crate::surface::{
    DragEventKind, DragInput, DragOperations, KeyEvent, MouseAction, MouseEvent, ZoomCommand,
};

verus! {

/// How much of a browser there is at the moment.
#[derive(Clone, Copy, Debug, PartialEq, Eq, Structural)]
pub struct BrowserLink {
    /// The browser itself. It may still be on its way.
    pub browser: bool,
    /// The browser's host, which takes input and view changes.
    pub host: bool,
    /// The main frame, which takes navigation and scripts.
    pub main_frame: bool,
}

/// A range of characters.
#[derive(Clone, Copy, Debug, PartialEq, Eq, Structural)]
pub struct TextRange {
    pub from: u32,
    pub to: u32,
}

/// The range that replaces nothing. The browser drops a composition without a
/// range, so there is always one.
pub open spec fn no_replacement() -> TextRange {
    TextRange { from: u32::MAX, to: u32::MAX }
}

/// One call on the browser.
#[derive(Debug)]
#[allow(inconsistent_fields)]
pub enum BrowserCommand {
    LoadUrl(String),
    ExecuteJavaScript { code: String, url: String },
    SendEvalRequest { id: String, script: String },
    Reload,
    StopLoad,
    GoBack,
    GoForward,
    WasResized,
    Invalidate,
    NotifyScreenInfoChanged,
    WasHidden(bool),
    AddDevToolsObserver,
    SendDevToolsMessage(String),
    /// Capture the page. Without parameters the capture is a PNG.
    CaptureScreenshot { message_id: i32 },
    ShowDevTools,
    Zoom(ZoomCommand),
    Print,
    PrintToPdf(String),
    Find { text: String, forward: bool, match_case: bool, find_next: bool },
    StopFinding { clear_selection: bool },
    Pointer(PointerInput),
    Key(KeyInput),
    SetFocus,
    Drag(DragCommand),
    DragSourceEnded { x: i32, y: i32, operation: DragOperations },
    DragSourceSystemDragEnded,
    ImeSetComposition { text: String, replacement: TextRange, selection: TextRange },
    ImeCommitText { text: String, replacement: TextRange },
    ImeFinishComposing { keep_selection: bool },
    ImeCancelComposition,
    CloseBrowser { force: bool },
}

/// What an operation comes to.
pub type Commands = Result<Vec<BrowserCommand>, WeldError>;

/// Whether an operation comes to `wanted` where it is `ready`, and is otherwise
/// refused because `op` has no browser to perform it.
pub open spec fn performs(
    commands: Commands,
    ready: bool,
    wanted: Seq<BrowserCommand>,
    op: Seq<char>,
) -> bool {
    match commands {
        Ok(commands) => ready && commands@ == wanted,
        Err(error) => !ready && is_browser_op(
            error,
            op + ": requires `cef-runtime` feature or pending wiring"@,
        ),
    }
}

/// Whether an operation comes to `wanted` where it is `ready`, and is otherwise
/// refused as not supported.
pub open spec fn performs_or_lacks(
    commands: Commands,
    ready: bool,
    wanted: Seq<BrowserCommand>,
    what: Seq<char>,
) -> bool {
    match commands {
        Ok(commands) => ready && commands@ == wanted,
        Err(error) => !ready && is_unsupported(error, what),
    }
}

/// `command` where the operation is `ready`.
pub fn perform(ready: bool, command: BrowserCommand, op: &str) -> (commands: Commands)
    ensures
        performs(commands, ready, seq![command], op@),
{
    if ready {
        let mut commands: Vec<BrowserCommand> = Vec::new();
        commands.push(command);
        assert(commands@ =~= seq![command]);
        Ok(commands)
    } else {
        Err(pending(op))
    }
}

/// Both commands where the operation is `ready`.
pub fn perform_both(
    ready: bool,
    first: BrowserCommand,
    second: BrowserCommand,
    op: &str,
) -> (commands: Commands)
    ensures
        performs(commands, ready, seq![first, second], op@),
{
    if ready {
        let mut commands: Vec<BrowserCommand> = Vec::new();
        commands.push(first);
        commands.push(second);
        assert(commands@ =~= seq![first, second]);
        Ok(commands)
    } else {
        Err(pending(op))
    }
}

/// `command` where the operation is `ready`, and `what` is not supported otherwise.
pub fn perform_or_lack(ready: bool, command: BrowserCommand, what: &'static str) -> (commands:
    Commands)
    ensures
        performs_or_lacks(commands, ready, seq![command], what@),
{
    if ready {
        let mut commands: Vec<BrowserCommand> = Vec::new();
        commands.push(command);
        assert(commands@ =~= seq![command]);
        Ok(commands)
    } else {
        Err(WeldError::PlatformUnsupported(what))
    }
}

impl BrowserLink {
    /// Load an address in the main frame.
    pub fn navigate_to_url(self, url: String) -> (commands: Commands)
        ensures
            performs(
                commands,
                self.main_frame,
                seq![BrowserCommand::LoadUrl(url)],
                "cef_frame_t::load_url"@,
            ),
    {
        perform(self.main_frame, BrowserCommand::LoadUrl(url), "cef_frame_t::load_url")
    }

    /// Load content in the main frame, given as an address that holds it.
    pub fn navigate_to_string(self, content: String) -> (commands: Commands)
        ensures
            performs(
                commands,
                self.main_frame,
                seq![BrowserCommand::LoadUrl(content)],
                "cef_frame_t::load_string"@,
            ),
    {
        perform(self.main_frame, BrowserCommand::LoadUrl(content), "cef_frame_t::load_string")
    }

    /// Reload the page.
    pub fn reload(self) -> (commands: Commands)
        ensures
            performs(
                commands,
                self.browser,
                seq![BrowserCommand::Reload],
                "cef_browser_t::reload"@,
            ),
    {
        perform(self.browser, BrowserCommand::Reload, "cef_browser_t::reload")
    }

    /// Stop loading.
    pub fn stop(self) -> (commands: Commands)
        ensures
            performs(
                commands,
                self.browser,
                seq![BrowserCommand::StopLoad],
                "cef_browser_t::stop_load"@,
            ),
    {
        perform(self.browser, BrowserCommand::StopLoad, "cef_browser_t::stop_load")
    }

    /// Go back in the history.
    pub fn go_back(self) -> (commands: Commands)
        ensures
            performs(
                commands,
                self.browser,
                seq![BrowserCommand::GoBack],
                "cef_browser_t::go_back"@,
            ),
    {
        perform(self.browser, BrowserCommand::GoBack, "cef_browser_t::go_back")
    }

    /// Go forward in the history.
    pub fn go_forward(self) -> (commands: Commands)
        ensures
            performs(
                commands,
                self.browser,
                seq![BrowserCommand::GoForward],
                "cef_browser_t::go_forward"@,
            ),
    {
        perform(self.browser, BrowserCommand::GoForward, "cef_browser_t::go_forward")
    }

    /// Hand a mouse event to the browser. Its place is in device-independent pixels.
    pub fn send_mouse_input(self, event: MouseEvent) -> (commands: Commands)
        ensures
            performs(
                commands,
                self.host,
                seq![BrowserCommand::Pointer(pointer_input(event))],
                "cef_browser_host_t mouse input"@,
            ),
    {
        perform(
            self.host,
            BrowserCommand::Pointer(send_mouse(&event)),
            "cef_browser_host_t mouse input",
        )
    }

    /// Hand a key event to the browser.
    pub fn send_keyboard_input(self, event: KeyEvent) -> (commands: Commands)
        ensures
            performs(
                commands,
                self.host,
                seq![BrowserCommand::Key(key_input(event))],
                "cef_browser_host_t::send_key_event"@,
            ),
    {
        perform(self.host, BrowserCommand::Key(send_key(&event)), "cef_browser_host_t::send_key_event")
    }

    /// Give the browser the focus. It does not tell directions apart; Tab and
    /// Shift-Tab move the focus inside a page.
    pub fn move_focus(self) -> (commands: Commands)
        ensures
            performs(
                commands,
                self.host,
                seq![BrowserCommand::SetFocus],
                "cef_browser_host_t::set_focus"@,
            ),
    {
        perform(self.host, BrowserCommand::SetFocus, "cef_browser_host_t::set_focus")
    }

    /// Run a script in the main frame.
    pub fn execute_script(self, script: String, source_url: String) -> (commands: Commands)
        ensures
            performs(
                commands,
                self.main_frame,
                seq![BrowserCommand::ExecuteJavaScript { code: script, url: source_url }],
                "cef_frame_t::execute_java_script"@,
            ),
    {
        perform(
            self.main_frame,
            BrowserCommand::ExecuteJavaScript { code: script, url: source_url },
            "cef_frame_t::execute_java_script",
        )
    }

    /// Dispatch a message on the page's window.
    pub fn post_web_message(self, message: &str) -> (commands: Commands)
        ensures
            match commands {
                Ok(commands) => {
                    &&& self.main_frame
                    &&& commands@.len() == 1
                    &&& commands@[0] matches BrowserCommand::ExecuteJavaScript { code, url } && code@
                        == message_script(message@) && url@ == "weld://post_web_message"@
                },
                Err(error) => !self.main_frame && is_browser_op(
                    error,
                    "cef_frame_t::execute_java_script"@
                        + ": requires `cef-runtime` feature or pending wiring"@,
                ),
            },
    {
        self.execute_script(web_message_script(message), "weld://post_web_message".to_owned())
    }

    /// Paint the whole view now. Painting is change-driven, so a view that
    /// nothing has changed does not paint on its own.
    pub fn request_repaint(self) -> (commands: Commands)
        ensures
            performs(
                commands,
                self.host,
                seq![BrowserCommand::WasResized, BrowserCommand::Invalidate],
                "cef_browser_host_t::invalidate"@,
            ),
    {
        perform_both(
            self.host,
            BrowserCommand::WasResized,
            BrowserCommand::Invalidate,
            "cef_browser_host_t::invalidate",
        )
    }

    /// Tell the browser whether the surface is visible.
    pub fn set_visible(self, visible: bool) -> (commands: Commands)
        ensures
            performs_or_lacks(
                commands,
                self.host,
                seq![BrowserCommand::WasHidden(!visible)],
                "visibility requires the cef-runtime feature"@,
            ),
    {
        perform_or_lack(
            self.host,
            BrowserCommand::WasHidden(!visible),
            "visibility requires the cef-runtime feature",
        )
    }

    /// The view has a new scale. It is announced like a new size, or nothing
    /// would be painted at the new density.
    pub fn scale_factor_changed(self) -> (commands: Vec<BrowserCommand>)
        ensures
            commands@ == (if self.host {
                seq![
                    BrowserCommand::NotifyScreenInfoChanged,
                    BrowserCommand::WasResized,
                    BrowserCommand::Invalidate,
                ]
            } else {
                Seq::<BrowserCommand>::empty()
            }),
    {
        let mut commands: Vec<BrowserCommand> = Vec::new();
        if self.host {
            commands.push(BrowserCommand::NotifyScreenInfoChanged);
            commands.push(BrowserCommand::WasResized);
            commands.push(BrowserCommand::Invalidate);
        }
        assert(commands@ =~= if self.host {
            seq![
                BrowserCommand::NotifyScreenInfoChanged,
                BrowserCommand::WasResized,
                BrowserCommand::Invalidate,
            ]
        } else {
            Seq::<BrowserCommand>::empty()
        });
        commands
    }

    /// Step the zoom one notch, or return it to the default.
    pub fn zoom(self, command: ZoomCommand) -> (commands: Commands)
        ensures
            performs(
                commands,
                self.host,
                seq![BrowserCommand::Zoom(command)],
                "cef_browser_host_t::zoom"@,
            ),
    {
        perform(self.host, BrowserCommand::Zoom(command), "cef_browser_host_t::zoom")
    }

    /// Render the page to a PDF. Completion arrives as an event.
    pub fn print_to_pdf(self, path: String) -> (commands: Commands)
        ensures
            performs(
                commands,
                self.host,
                seq![BrowserCommand::PrintToPdf(path)],
                "cef_browser_host_t::print_to_pdf"@,
            ),
    {
        perform(self.host, BrowserCommand::PrintToPdf(path), "cef_browser_host_t::print_to_pdf")
    }

    /// Search the page. `find_next` steps through the matches of the same text.
    pub fn find(
        self,
        text: String,
        forward: bool,
        match_case: bool,
        find_next: bool,
    ) -> (commands: Commands)
        ensures
            performs(
                commands,
                self.host,
                seq![BrowserCommand::Find { text, forward, match_case, find_next }],
                "cef_browser_host_t::find"@,
            ),
    {
        perform(
            self.host,
            BrowserCommand::Find { text, forward, match_case, find_next },
            "cef_browser_host_t::find",
        )
    }

    pub fn stop_finding(self, clear_selection: bool) -> (commands: Commands)
        ensures
            performs(
                commands,
                self.host,
                seq![BrowserCommand::StopFinding { clear_selection }],
                "cef_browser_host_t::stop_finding"@,
            ),
    {
        perform(
            self.host,
            BrowserCommand::StopFinding { clear_selection },
            "cef_browser_host_t::stop_finding",
        )
    }

    /// Open the DevTools window. On macOS that would take the browser down.
    pub fn open_devtools(self, platform: Platform) -> (commands: Commands)
        ensures
            if platform == Platform::Macos {
                commands matches Err(error) && is_unsupported(
                    error,
                    "DevTools crashes CEF 148 for windowless browsers on macOS"@,
                )
            } else {
                performs(
                    commands,
                    self.host,
                    seq![BrowserCommand::ShowDevTools],
                    "cef_browser_host_t::show_dev_tools"@,
                )
            },
    {
        if platform == Platform::Macos {
            return Err(
                WeldError::PlatformUnsupported(
                    "DevTools crashes CEF 148 for windowless browsers on macOS",
                ),
            );
        }
        perform(self.host, BrowserCommand::ShowDevTools, "cef_browser_host_t::show_dev_tools")
    }

    /// Open the native print dialog. On Linux there is none: printing needs a
    /// handler and a printer UI that only an embedder can have.
    pub fn print(self, platform: Platform) -> (commands: Commands)
        ensures
            if platform == Platform::Linux {
                commands matches Err(error) && is_unsupported(
                    error,
                    "Linux CEF requires an embedder-owned print handler and printer UI"@,
                )
            } else {
                performs(
                    commands,
                    self.host,
                    seq![BrowserCommand::Print],
                    "cef_browser_host_t::print"@,
                )
            },
    {
        if platform == Platform::Linux {
            return Err(
                WeldError::PlatformUnsupported(
                    "Linux CEF requires an embedder-owned print handler and printer UI",
                ),
            );
        }
        perform(self.host, BrowserCommand::Print, "cef_browser_host_t::print")
    }

    /// Hand one step of an OS drag to the browser. Its place is in
    /// device-independent pixels. `created` says whether the browser has an
    /// object to put entering data in.
    pub fn send_drag_input(self, event: DragInput, created: bool, platform: Platform) -> (command:
        Result<DragCommand, WeldError>)
        ensures
            self.host ==> drag_sent(event, created, platform, command),
            !self.host ==> (command matches Err(error) && is_browser_op(
                error,
                "cef_browser_host_t drag target input"@
                    + ": requires `cef-runtime` feature or pending wiring"@,
            )),
    {
        if self.host {
            send_drag(event, created, platform)
        } else {
            Err(pending("cef_browser_host_t drag target input"))
        }
    }

    /// The system drag that the page started is over. Its place is in
    /// device-independent pixels.
    pub fn finish_drag_source(
        self,
        x: i32,
        y: i32,
        operation: DragOperations,
    ) -> (commands: Commands)
        ensures
            performs(
                commands,
                self.host,
                seq![
                    BrowserCommand::DragSourceEnded { x, y, operation },
                    BrowserCommand::DragSourceSystemDragEnded,
                ],
                "cef_browser_host_t drag source completion"@,
            ),
    {
        perform_both(
            self.host,
            BrowserCommand::DragSourceEnded { x, y, operation },
            BrowserCommand::DragSourceSystemDragEnded,
            "cef_browser_host_t drag source completion",
        )
    }

    /// Set or update the text being composed. `selection` is a range of it.
    pub fn ime_set_composition(self, text: String, selection: (u32, u32)) -> (commands:
        Commands)
        ensures
            performs_or_lacks(
                commands,
                self.host,
                seq![
                    BrowserCommand::ImeSetComposition {
                        text,
                        replacement: no_replacement(),
                        selection: TextRange { from: selection.0, to: selection.1 },
                    },
                ],
                "IME requires the cef-runtime feature"@,
            ),
    {
        perform_or_lack(
            self.host,
            BrowserCommand::ImeSetComposition {
                text,
                replacement: TextRange { from: u32::MAX, to: u32::MAX },
                selection: TextRange { from: selection.0, to: selection.1 },
            },
            "IME requires the cef-runtime feature",
        )
    }

    /// Commit the composition, or insert the text where there is none.
    pub fn ime_commit_text(self, text: String) -> (commands: Commands)
        ensures
            performs_or_lacks(
                commands,
                self.host,
                seq![BrowserCommand::ImeCommitText { text, replacement: no_replacement() }],
                "IME requires the cef-runtime feature"@,
            ),
    {
        perform_or_lack(
            self.host,
            BrowserCommand::ImeCommitText {
                text,
                replacement: TextRange { from: u32::MAX, to: u32::MAX },
            },
            "IME requires the cef-runtime feature",
        )
    }

    /// Finish composing and keep what is there.
    pub fn ime_finish_composing(self, keep_selection: bool) -> (commands:
        Commands)
        ensures
            performs_or_lacks(
                commands,
                self.host,
                seq![BrowserCommand::ImeFinishComposing { keep_selection }],
                "IME requires the cef-runtime feature"@,
            ),
    {
        perform_or_lack(
            self.host,
            BrowserCommand::ImeFinishComposing { keep_selection },
            "IME requires the cef-runtime feature",
        )
    }

    /// Abandon the composition.
    pub fn ime_cancel_composition(self) -> (commands: Commands)
        ensures
            performs_or_lacks(
                commands,
                self.host,
                seq![BrowserCommand::ImeCancelComposition],
                "IME requires the cef-runtime feature"@,
            ),
    {
        perform_or_lack(
            self.host,
            BrowserCommand::ImeCancelComposition,
            "IME requires the cef-runtime feature",
        )
    }
}

/// What needs a browser is asked of one that is there, in full and in order, and
/// fails by name where there is none.
pub proof fn law_a_request_needs_a_browser(
    ready: bool,
    first: BrowserCommand,
    second: BrowserCommand,
    op: &str,
    what: &'static str,
    one: Commands,
    both: Commands,
    lacking: Commands,
)
    requires
        call_ensures(perform, (ready, first, op), one),
        call_ensures(perform_both, (ready, first, second, op), both),
        call_ensures(perform_or_lack, (ready, first, what), lacking),
    ensures
        one is Ok <==> ready,
        both is Ok <==> ready,
        lacking is Ok <==> ready,
        one matches Ok(commands) ==> commands@ == seq![first],
        both matches Ok(commands) ==> commands@ == seq![first, second],
        lacking matches Ok(commands) ==> commands@ == seq![first],
        one matches Err(error) ==> (error matches WeldError::BrowserOp(text) && text@ == op@
            + ": requires `cef-runtime` feature or pending wiring"@),
        both matches Err(error) ==> (error matches WeldError::BrowserOp(text) && text@ == op@
            + ": requires `cef-runtime` feature or pending wiring"@),
        lacking matches Err(error) ==> (error matches WeldError::PlatformUnsupported(text) && text@
            == what@),
{
}

/// Navigation is asked of the part of the browser that navigates: an address of
/// the main frame, the rest of the browser itself.
pub proof fn law_navigation_is_asked_of_the_browser(
    link: BrowserLink,
    url: String,
    script: String,
    source: String,
)
    ensures
        forall|asked: Commands| #[trigger]
            call_ensures(BrowserLink::navigate_to_url, (link, url), asked) ==> {
                &&& asked is Ok <==> link.main_frame
                &&& asked matches Ok(commands) ==> commands@ == seq![BrowserCommand::LoadUrl(url)]
                &&& asked matches Err(error) ==> error is BrowserOp
            },
        forall|asked: Commands| #[trigger]
            call_ensures(BrowserLink::navigate_to_string, (link, url), asked) ==> {
                &&& asked is Ok <==> link.main_frame
                &&& asked matches Ok(commands) ==> commands@ == seq![BrowserCommand::LoadUrl(url)]
                &&& asked matches Err(error) ==> error is BrowserOp
            },
        forall|asked: Commands| #[trigger]
            call_ensures(BrowserLink::execute_script, (link, script, source), asked) ==> {
                &&& asked is Ok <==> link.main_frame
                &&& asked matches Ok(commands) ==> commands@ == seq![
                    BrowserCommand::ExecuteJavaScript { code: script, url: source },
                ]
                &&& asked matches Err(error) ==> error is BrowserOp
            },
        forall|asked: Commands| #[trigger]
            call_ensures(BrowserLink::reload, (link,), asked) ==> {
                &&& asked is Ok <==> link.browser
                &&& asked matches Ok(commands) ==> commands@ == seq![BrowserCommand::Reload]
                &&& asked matches Err(error) ==> error is BrowserOp
            },
        forall|asked: Commands| #[trigger]
            call_ensures(BrowserLink::stop, (link,), asked) ==> {
                &&& asked is Ok <==> link.browser
                &&& asked matches Ok(commands) ==> commands@ == seq![BrowserCommand::StopLoad]
                &&& asked matches Err(error) ==> error is BrowserOp
            },
        forall|asked: Commands| #[trigger]
            call_ensures(BrowserLink::go_back, (link,), asked) ==> {
                &&& asked is Ok <==> link.browser
                &&& asked matches Ok(commands) ==> commands@ == seq![BrowserCommand::GoBack]
                &&& asked matches Err(error) ==> error is BrowserOp
            },
        forall|asked: Commands| #[trigger]
            call_ensures(BrowserLink::go_forward, (link,), asked) ==> {
                &&& asked is Ok <==> link.browser
                &&& asked matches Ok(commands) ==> commands@ == seq![BrowserCommand::GoForward]
                &&& asked matches Err(error) ==> error is BrowserOp
            },
{
}

/// A view that is shown is not hidden, and one that is repainted is laid out
/// first. A changed scale is told before either.
pub proof fn law_painting_is_asked_of_the_host(link: BrowserLink, visible: bool)
    ensures
        forall|asked: Commands| #[trigger]
            call_ensures(BrowserLink::set_visible, (link, visible), asked) ==> {
                &&& asked is Ok <==> link.host
                &&& asked matches Ok(commands) ==> commands@ == seq![
                    BrowserCommand::WasHidden(!visible),
                ]
                &&& asked matches Err(error) ==> error is PlatformUnsupported
            },
        forall|asked: Commands| #[trigger]
            call_ensures(BrowserLink::request_repaint, (link,), asked) ==> {
                &&& asked is Ok <==> link.host
                &&& asked matches Ok(commands) ==> commands@ == seq![
                    BrowserCommand::WasResized,
                    BrowserCommand::Invalidate,
                ]
                &&& asked matches Err(error) ==> error is BrowserOp
            },
        forall|asked: Commands| #[trigger]
            call_ensures(BrowserLink::move_focus, (link,), asked) ==> {
                &&& asked is Ok <==> link.host
                &&& asked matches Ok(commands) ==> commands@ == seq![BrowserCommand::SetFocus]
                &&& asked matches Err(error) ==> error is BrowserOp
            },
        forall|commands: Vec<BrowserCommand>| #[trigger]
            call_ensures(BrowserLink::scale_factor_changed, (link,), commands) ==> (link.host
                ==> commands@ == seq![
                BrowserCommand::NotifyScreenInfoChanged,
                BrowserCommand::WasResized,
                BrowserCommand::Invalidate,
            ]) && (!link.host ==> commands@.len() == 0),
{
}

/// Zooming, printing to a file and finding are asked for as the host wants them.
/// Only the platforms that have DevTools and a printer are asked for those.
pub proof fn law_page_tools_are_asked_of_the_host(
    link: BrowserLink,
    platform: Platform,
    zoom: ZoomCommand,
    path: String,
    text: String,
    forward: bool,
    match_case: bool,
    find_next: bool,
    clear_selection: bool,
)
    ensures
        forall|asked: Commands| #[trigger]
            call_ensures(BrowserLink::zoom, (link, zoom), asked) ==> {
                &&& asked is Ok <==> link.host
                &&& asked matches Ok(commands) ==> commands@ == seq![BrowserCommand::Zoom(zoom)]
                &&& asked matches Err(error) ==> error is BrowserOp
            },
        forall|asked: Commands| #[trigger]
            call_ensures(BrowserLink::print_to_pdf, (link, path), asked) ==> {
                &&& asked is Ok <==> link.host
                &&& asked matches Ok(commands) ==> commands@ == seq![
                    BrowserCommand::PrintToPdf(path),
                ]
                &&& asked matches Err(error) ==> error is BrowserOp
            },
        forall|asked: Commands| #[trigger]
            call_ensures(BrowserLink::find, (link, text, forward, match_case, find_next), asked) ==> {
                &&& asked is Ok <==> link.host
                &&& asked matches Ok(commands) ==> commands@ == seq![
                    BrowserCommand::Find { text, forward, match_case, find_next },
                ]
                &&& asked matches Err(error) ==> error is BrowserOp
            },
        forall|asked: Commands| #[trigger]
            call_ensures(BrowserLink::stop_finding, (link, clear_selection), asked) ==> {
                &&& asked is Ok <==> link.host
                &&& asked matches Ok(commands) ==> commands@ == seq![
                    BrowserCommand::StopFinding { clear_selection },
                ]
                &&& asked matches Err(error) ==> error is BrowserOp
            },
        forall|asked: Commands| #[trigger]
            call_ensures(BrowserLink::open_devtools, (link, platform), asked) ==> (asked is Ok
                <==> link.host && platform != Platform::Macos) && (asked matches Ok(commands)
                ==> commands@ == seq![BrowserCommand::ShowDevTools]) && (platform
                == Platform::Macos ==> asked->Err_0 is PlatformUnsupported),
        forall|asked: Commands| #[trigger]
            call_ensures(BrowserLink::print, (link, platform), asked) ==> (asked is Ok
                <==> link.host && platform != Platform::Linux) && (asked matches Ok(commands)
                ==> commands@ == seq![BrowserCommand::Print]) && (platform == Platform::Linux
                ==> asked->Err_0 is PlatformUnsupported),
{
}

/// Composed text replaces nothing, which is said by a range that is invalid at both
/// ends, and the selection is the host's.
pub proof fn law_composed_text_replaces_nothing(
    link: BrowserLink,
    text: String,
    from: u32,
    to: u32,
    keep_selection: bool,
)
    ensures
        forall|asked: Commands| #[trigger]
            call_ensures(BrowserLink::ime_set_composition, (link, text, (from, to)), asked) ==> {
                &&& asked is Ok <==> link.host
                &&& asked matches Ok(commands) ==> commands@ == seq![
                    BrowserCommand::ImeSetComposition {
                        text,
                        replacement: TextRange { from: 0xffff_ffff, to: 0xffff_ffff },
                        selection: TextRange { from, to },
                    },
                ]
                &&& asked matches Err(error) ==> error is PlatformUnsupported
            },
        forall|asked: Commands| #[trigger]
            call_ensures(BrowserLink::ime_commit_text, (link, text), asked) ==> {
                &&& asked is Ok <==> link.host
                &&& asked matches Ok(commands) ==> commands@ == seq![
                    BrowserCommand::ImeCommitText {
                        text,
                        replacement: TextRange { from: 0xffff_ffff, to: 0xffff_ffff },
                    },
                ]
                &&& asked matches Err(error) ==> error is PlatformUnsupported
            },
        forall|asked: Commands| #[trigger]
            call_ensures(BrowserLink::ime_finish_composing, (link, keep_selection), asked) ==> {
                &&& asked is Ok <==> link.host
                &&& asked matches Ok(commands) ==> commands@ == seq![
                    BrowserCommand::ImeFinishComposing { keep_selection },
                ]
                &&& asked matches Err(error) ==> error is PlatformUnsupported
            },
        forall|asked: Commands| #[trigger]
            call_ensures(BrowserLink::ime_cancel_composition, (link,), asked) ==> {
                &&& asked is Ok <==> link.host
                &&& asked matches Ok(commands) ==> commands@ == seq![
                    BrowserCommand::ImeCancelComposition,
                ]
                &&& asked matches Err(error) ==> error is PlatformUnsupported
            },
{
}

/// The browser is sent the click that the mouse made: up where it was released,
/// down where it was pressed.
pub proof fn law_clicks_reach_the_browser(
    link: BrowserLink,
    event: MouseEvent,
    asked: Commands,
)
    requires
        call_ensures(BrowserLink::send_mouse_input, (link, event), asked),
    ensures
        asked is Ok <==> link.host,
        asked matches Ok(commands) ==> {
            &&& commands@.len() == 1
            &&& event.action == MouseAction::Pressed || event.action == MouseAction::Released
                ==> (commands@[0] matches BrowserCommand::Pointer(
                PointerInput::Click { at, button, up, count },
            ) && at.x == event.x && at.y == event.y && button == event.button && (up
                <==> event.action == MouseAction::Released) && count == 1)
        },
{
}

/// The browser is sent the key that was pressed, as it was.
pub proof fn law_keys_reach_the_browser(link: BrowserLink, event: KeyEvent, asked: Commands)
    requires
        call_ensures(BrowserLink::send_keyboard_input, (link, event), asked),
    ensures
        asked is Ok <==> link.host,
        asked matches Ok(commands) ==> {
            &&& commands@.len() == 1
            &&& commands@[0] matches BrowserCommand::Key(key) && key.kind == event.kind
                && key.windows_key_code == event.windows_key_code && key.native_key_code
                == event.native_key_code
        },
{
}

/// A drag that the page started ends where the host says, with what came of it, and
/// only then as a whole.
pub proof fn law_a_drag_source_ends_once(
    link: BrowserLink,
    x: i32,
    y: i32,
    operation: DragOperations,
)
    ensures
        forall|asked: Commands| #[trigger]
            call_ensures(BrowserLink::finish_drag_source, (link, x, y, operation), asked) ==> {
                &&& asked is Ok <==> link.host
                &&& asked matches Ok(commands) ==> commands@ == seq![
                    BrowserCommand::DragSourceEnded { x, y, operation },
                    BrowserCommand::DragSourceSystemDragEnded,
                ]
                &&& asked matches Err(error) ==> error is BrowserOp
            },
{
}

/// A message for the page is run as a script of the main frame.
pub proof fn law_a_message_is_run_in_the_main_frame(
    link: BrowserLink,
    message: &str,
    script: String,
    asked: Commands,
)
    requires
        call_ensures(web_message_script, (message,), script),
        call_ensures(BrowserLink::post_web_message, (link, message), asked),
    ensures
        asked is Ok <==> link.main_frame,
        asked matches Ok(commands) ==> commands@.len() == 1 && (
        commands@[0] matches BrowserCommand::ExecuteJavaScript { code, url } && code@ == script@
            && url@ == "weld://post_web_message"@),
        asked matches Err(error) ==> error is BrowserOp,
{
}

/// A drag reaches the browser where there is one, as the host made it.
pub proof fn law_drags_reach_the_browser(
    link: BrowserLink,
    event: DragInput,
    created: bool,
    platform: Platform,
    command: Result<DragCommand, WeldError>,
)
    requires
        call_ensures(BrowserLink::send_drag_input, (link, event, created, platform), command),
    ensures
        !link.host ==> (command matches Err(error) && error is BrowserOp),
        link.host && event.kind == DragEventKind::Leave ==> command is Ok && command->Ok_0 is Leave,
        link.host && event.kind == DragEventKind::Over ==> (command matches Ok(
            DragCommand::Over { at, allowed },
        ) && at.x == event.x && at.y == event.y && allowed == event.allowed_operations),
        link.host && event.kind == DragEventKind::Drop ==> (command matches Ok(
            DragCommand::Drop { at },
        ) && at.x == event.x && at.y == event.y),
        link.host && event.kind == DragEventKind::Enter && command is Ok
            ==> command->Ok_0 is Enter,
{
}

} // verus!
