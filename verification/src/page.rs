//! What a surface knows of its page: everything but the frames.
//!
//! Producers differ in how frames reach the host and agree on the rest. A page
//! holds what waits for an answer and what the host has not polled yet. Its verbs
//! say what to ask of the browser.
//!
//! Its type parameters are what only the platform knows: the callbacks that
//! answer an auth challenge (`A`), a permission prompt (`P`) and a media request
//! (`M`).
use vstd::prelude::*;
use vstd::string::*;
use crate::auth::AuthChallenges;
use crate::commands::{performs_or_lacks, BrowserCommand, BrowserLink, Commands};
use crate::cookies::{manager, CookieJar, CookieManagerPath, FinishOnDrop};
use crate::cursor::LatestCursor;
use crate::devtools::DevToolsChannel;
use crate::downloads::{no_downloads, Downloads, DownloadsView};
use crate::error::{browser_op, is_browser_op, is_unsupported, WeldError};
use crate::events::{
    AuthId, CefSurfaceEvent, PermissionId, SnapshotPngCompletion, SnapshotRequestId, WebEventQueue,
    WebRequestId,
};
use crate::ime::LatestComposition;
use crate::permissions::Permissions;
use crate::platform::Platform;
use crate::popup::PopupState;
use crate::profile::text_of;
use crate::scripts::PendingScripts;
use crate::snapshot::{admission_refusal, next_message_id, SnapshotChannel, MAX_ADMITTED_CAPTURES};
use crate::surface::{CefSurfaceConfig, CursorShape, ImeComposition};
use crate::text::decimal;

verus! {

/// What a surface knows of its page.
#[derive(Debug)]
pub struct Page<A, P, M> {
    pub events: WebEventQueue,
    pub scripts: PendingScripts,
    pub cookies: CookieJar,
    pub downloads: Downloads,
    pub auth: AuthChallenges<A>,
    pub permissions: Permissions<P, M>,
    pub devtools: DevToolsChannel,
    /// Whether the browser's protocol messages are observed.
    pub observing: bool,
    pub snapshots: SnapshotChannel,
    pub next_snapshot_id: i32,
    pub cursor: LatestCursor,
    pub ime: LatestComposition,
    pub popup: PopupState,
}

/// How far the making of a message to the renderer got.
#[derive(Clone, Copy, Debug, PartialEq, Eq, Structural)]
pub enum ScriptMessagePath {
    NoFrame,
    NoMessage,
    NoArguments,
    Complete,
}

impl<A, P, M> Page<A, P, M> {
    /// The invariants of the page's parts.
    pub open spec fn well_formed(&self) -> bool {
        &&& self.scripts.well_formed()
        &&& self.devtools.well_formed()
        &&& self.snapshots.well_formed()
    }

    /// Whether the page is that of a surface with this configuration to which
    /// nothing has happened yet.
    pub open spec fn is_new(&self, surface: CefSurfaceConfig, platform: Platform) -> bool {
        &&& self.well_formed()
        &&& self.events@ == Seq::<CefSurfaceEvent>::empty()
        &&& self.scripts@ == Seq::<WebRequestId>::empty()
        &&& self.cookies@ is None
        &&& self.downloads@ == (DownloadsView {
            dir: text_of(surface.download_dir),
            ..no_downloads(platform)
        })
        &&& self.auth.enabled() == surface.handle_auth_challenges
        &&& self.auth.last_id() == 0
        &&& self.auth.pending().dom() == Set::<AuthId>::empty()
        &&& self.permissions.enabled() == surface.handle_permission_requests
        &&& self.permissions.last_id() == 0
        &&& self.permissions.pending().dom() == Set::<PermissionId>::empty()
        &&& self.devtools.enabled() == surface.devtools_protocol
        &&& self.devtools.queued() == Seq::<String>::empty()
        &&& self.devtools.lost() == 0
        &&& !self.observing
        &&& self.snapshots.waiting() == Set::<i32>::empty()
        &&& self.snapshots.results() == Seq::<SnapshotPngCompletion>::empty()
        &&& self.next_snapshot_id == 1
        &&& self.cursor@ is None
        &&& self.ime@ is None
        &&& self.popup.placement() is None
    }

    /// The page of a new surface.
    pub fn new(surface: CefSurfaceConfig, platform: Platform) -> (page: Self)
        ensures
            page.is_new(surface, platform),
    {
        let mut auth = AuthChallenges::default();
        auth.set_enabled(surface.handle_auth_challenges);
        let mut permissions = Permissions::default();
        permissions.set_enabled(surface.handle_permission_requests);
        let mut devtools = DevToolsChannel::default();
        devtools.set_enabled(surface.devtools_protocol);
        let mut downloads = Downloads::new(platform);
        downloads.set_dir(surface.download_dir);
        let page = Page {
            events: WebEventQueue::default(),
            scripts: PendingScripts::new(),
            cookies: CookieJar::new(),
            downloads,
            auth,
            permissions,
            devtools,
            observing: false,
            snapshots: SnapshotChannel::default(),
            next_snapshot_id: 1,
            cursor: LatestCursor::default(),
            ime: LatestComposition::default(),
            popup: PopupState::default(),
        };
        assert(page.auth.pending().dom() =~= Set::<AuthId>::empty());
        assert(page.permissions.pending().dom() =~= Set::<PermissionId>::empty());
        page
    }

    // ── Scripts, cookies ──────────────────────────────────────────────────────

    /// Ask for the value of a script. The request is in flight once the message
    /// to the renderer can be sent; `path` says how far its making got.
    pub fn request_script_result(
        &mut self,
        path: ScriptMessagePath,
        id: WebRequestId,
        script: String,
    ) -> (command: Result<BrowserCommand, WeldError>)
        requires
            old(self).well_formed(),
        ensures
            final(self).well_formed(),
            *final(self) == (Page { scripts: final(self).scripts, ..*old(self) }),
            match command {
                Ok(command) => {
                    &&& path == ScriptMessagePath::Complete
                    &&& !old(self).scripts@.contains(id)
                    &&& final(self).scripts@ == old(self).scripts@.push(id)
                    &&& command matches BrowserCommand::SendEvalRequest { id: text, script: code }
                        && text@ == decimal(id@ as nat) && code == script
                },
                Err(error) => {
                    &&& final(self).scripts@ == old(self).scripts@
                    &&& match path {
                        ScriptMessagePath::NoFrame => is_browser_op(
                            error,
                            "browser has no main frame yet"@,
                        ),
                        ScriptMessagePath::NoMessage => is_browser_op(
                            error,
                            "could not create a process message"@,
                        ),
                        ScriptMessagePath::NoArguments => is_browser_op(
                            error,
                            "process message has no argument list"@,
                        ),
                        ScriptMessagePath::Complete => old(self).scripts@.contains(id)
                            && is_browser_op(
                            error,
                            "that script request id is already in flight"@,
                        ),
                    }
                },
            },
    {
        match path {
            ScriptMessagePath::NoFrame => Err(browser_op("browser has no main frame yet")),
            ScriptMessagePath::NoMessage => Err(browser_op("could not create a process message")),
            ScriptMessagePath::NoArguments => Err(
                browser_op("process message has no argument list"),
            ),
            ScriptMessagePath::Complete => match self.scripts.begin(id) {
                Ok(()) => Ok(BrowserCommand::SendEvalRequest { id: id.to_text(), script }),
                Err(error) => Err(error),
            },
        }
    }

    /// The browser took or refused the message of a script request. A refused
    /// request is no longer in flight.
    pub fn script_sent(&mut self, id: WebRequestId, accepted: bool) -> (outcome: Result<
        (),
        WeldError,
    >)
        requires
            old(self).well_formed(),
        ensures
            final(self).well_formed(),
            *final(self) == (Page { scripts: final(self).scripts, ..*old(self) }),
            outcome is Ok <==> accepted,
            match outcome {
                Ok(()) => final(self).scripts@ == old(self).scripts@,
                Err(error) => !final(self).scripts@.contains(id) && final(self).scripts@
                    == crate::scripts::without(old(self).scripts@, id) && is_browser_op(
                    error,
                    "CEF rejected the script process message"@,
                ),
            },
    {
        if accepted {
            return Ok(());
        }
        self.scripts.abort(id);
        Err(browser_op("CEF rejected the script process message"))
    }

    /// Start a cookie read and get the guard that ends it. `path` says whether
    /// the browser's own cookies can be reached.
    pub fn request_cookies(&mut self, path: CookieManagerPath, id: WebRequestId) -> (guard: Result<
        FinishOnDrop,
        WeldError,
    >)
        ensures
            *final(self) == (Page { cookies: final(self).cookies, ..*old(self) }),
            match guard {
                Ok(guard) => {
                    &&& path == CookieManagerPath::Complete
                    &&& old(self).cookies@ is None
                    &&& final(self).cookies.reads(id)
                    &&& (final(self).cookies@->0).1.len() == 0
                    &&& guard.id() == id && guard.armed() && guard.handles() == 1
                },
                Err(error) => {
                    &&& final(self).cookies@ == old(self).cookies@
                    &&& match path {
                        CookieManagerPath::NoHost => is_browser_op(
                            error,
                            "browser has no CEF host for its cookie context"@,
                        ),
                        CookieManagerPath::NoContext => is_browser_op(
                            error,
                            "browser has no CEF request context for cookies"@,
                        ),
                        CookieManagerPath::NoManager => is_browser_op(
                            error,
                            "CEF request context has no cookie manager"@,
                        ),
                        CookieManagerPath::Complete => old(self).cookies@ is Some && is_browser_op(
                            error,
                            "a cookie read is already in flight"@,
                        ),
                    }
                },
            },
    {
        match manager(path) {
            Ok(()) => self.cookies.begin_visit(id),
            Err(error) => Err(error),
        }
    }
}

impl<A, P, M> Page<A, P, M> {
    // ── Cursor and composition ────────────────────────────────────────────────

    /// The cursor shape the page asks for, if it changed since the last call.
    pub fn poll_cursor_shape(&mut self) -> (shape: Option<CursorShape>)
        ensures
            shape == old(self).cursor@,
            final(self).cursor@ is None,
            *final(self) == (Page { cursor: final(self).cursor, ..*old(self) }),
    {
        self.cursor.take()
    }

    /// Where the text being composed sits, if it moved since the last call.
    pub fn poll_ime_composition(&mut self) -> (composition: Option<ImeComposition>)
        ensures
            composition == old(self).ime@,
            final(self).ime@ is None,
            *final(self) == (Page { ime: final(self).ime, ..*old(self) }),
    {
        self.ime.take()
    }

    // ── The DevTools protocol and captures ────────────────────────────────────

    /// What it takes to observe the browser's protocol messages: nothing where
    /// they are observed already.
    ///
    /// Lazy on purpose: there is nothing to register with until the browser has
    /// a host.
    pub fn ensure_devtools_observer(&self, link: BrowserLink) -> (commands: Commands)
        ensures
            performs_or_lacks(
                commands,
                self.observing || link.host,
                if self.observing {
                    Seq::empty()
                } else {
                    seq![BrowserCommand::AddDevToolsObserver]
                },
                "the browser is not ready yet"@,
            ),
    {
        let mut commands: Vec<BrowserCommand> = Vec::new();
        if self.observing {
            assert(commands@ =~= Seq::empty());
            return Ok(commands);
        }
        if !link.host {
            return Err(WeldError::PlatformUnsupported("the browser is not ready yet"));
        }
        commands.push(BrowserCommand::AddDevToolsObserver);
        assert(commands@ =~= seq![BrowserCommand::AddDevToolsObserver]);
        Ok(commands)
    }

    /// The observer was registered, or was not.
    pub fn observer_added(&mut self, registered: bool)
        ensures
            *final(self) == (Page { observing: registered, ..*old(self) }),
    {
        self.observing = registered;
    }

    /// What it takes to use the protocol, which the configuration has to ask for.
    pub fn ensure_devtools(&self, link: BrowserLink) -> (commands: Commands)
        ensures
            if !self.devtools.enabled() {
                commands matches Err(error) && is_unsupported(
                    error,
                    "set CefSurfaceConfig::devtools_protocol to use the DevTools protocol"@,
                )
            } else {
                performs_or_lacks(
                    commands,
                    self.observing || link.host,
                    if self.observing {
                        Seq::empty()
                    } else {
                        seq![BrowserCommand::AddDevToolsObserver]
                    },
                    "the browser is not ready yet"@,
                )
            },
    {
        if !self.devtools.is_enabled() {
            return Err(
                WeldError::PlatformUnsupported(
                    "set CefSurfaceConfig::devtools_protocol to use the DevTools protocol",
                ),
            );
        }
        self.ensure_devtools_observer(link)
    }

    /// Send one protocol message, unparsed.
    pub fn send_devtools_message(&self, link: BrowserLink, json: String) -> (commands: Commands)
        ensures
            if !self.devtools.enabled() {
                commands matches Err(error) && is_unsupported(
                    error,
                    "set CefSurfaceConfig::devtools_protocol to use the DevTools protocol"@,
                )
            } else {
                performs_or_lacks(
                    commands,
                    link.host,
                    if self.observing {
                        seq![BrowserCommand::SendDevToolsMessage(json)]
                    } else {
                        seq![
                            BrowserCommand::AddDevToolsObserver,
                            BrowserCommand::SendDevToolsMessage(json),
                        ]
                    },
                    "the browser is not ready yet"@,
                )
            },
    {
        match self.ensure_devtools(link) {
            Err(error) => Err(error),
            Ok(mut commands) => {
                if !link.host {
                    return Err(WeldError::PlatformUnsupported("the browser is not ready yet"));
                }
                commands.push(BrowserCommand::SendDevToolsMessage(json));
                assert(commands@ =~= if self.observing {
                    seq![BrowserCommand::SendDevToolsMessage(json)]
                } else {
                    seq![
                        BrowserCommand::AddDevToolsObserver,
                        BrowserCommand::SendDevToolsMessage(json),
                    ]
                });
                Ok(commands)
            },
        }
    }

    /// Take the next protocol message. Where the protocol is asked for and not
    /// observed yet, it is to be observed from now on, so that a host that only
    /// listens receives too.
    pub fn poll_devtools_message(&mut self, link: BrowserLink) -> (polled: (
        Option<String>,
        Vec<BrowserCommand>,
    ))
        requires
            old(self).well_formed(),
        ensures
            final(self).well_formed(),
            *final(self) == (Page { devtools: final(self).devtools, ..*old(self) }),
            final(self).devtools.enabled() == old(self).devtools.enabled(),
            final(self).devtools.lost() == old(self).devtools.lost(),
            match polled.0 {
                Some(message) => old(self).devtools.queued().len() > 0 && message
                    == old(self).devtools.queued().first() && final(self).devtools.queued()
                    == old(self).devtools.queued().drop_first(),
                None => old(self).devtools.queued().len() == 0 && final(self).devtools.queued()
                    == old(self).devtools.queued(),
            },
            polled.1@ == (if old(self).devtools.enabled() && !old(self).observing && link.host {
                seq![BrowserCommand::AddDevToolsObserver]
            } else {
                Seq::<BrowserCommand>::empty()
            }),
    {
        let commands: Vec<BrowserCommand> = match self.ensure_devtools(link) {
            Ok(commands) => commands,
            Err(_) => Vec::new(),
        };
        assert(commands@ =~= if self.devtools.enabled() && !self.observing && link.host {
            seq![BrowserCommand::AddDevToolsObserver]
        } else {
            Seq::<BrowserCommand>::empty()
        });
        (self.devtools.pop(), commands)
    }

    pub fn devtools_dropped(&self) -> (dropped: u64)
        ensures
            dropped == self.devtools.lost(),
    {
        self.devtools.dropped()
    }

    /// Start a capture. The commands are to be performed whether the capture was
    /// admitted or not.
    pub fn request_snapshot_png(&mut self, link: BrowserLink) -> (outcome: (
        Vec<BrowserCommand>,
        Result<SnapshotRequestId, WeldError>,
    ))
        requires
            old(self).well_formed(),
        ensures
            final(self).well_formed(),
            *final(self) == (Page {
                snapshots: final(self).snapshots,
                next_snapshot_id: final(self).next_snapshot_id,
                ..*old(self)
            }),
            final(self).snapshots.results() == old(self).snapshots.results(),
            ({
                let id = old(self).next_snapshot_id;
                let observe = if old(self).observing {
                    Seq::empty()
                } else {
                    seq![BrowserCommand::AddDevToolsObserver]
                };
                let before = old(self).snapshots;
                let admissible = !before.waiting().contains(id) && before.waiting().len()
                    + before.results().len() < MAX_ADMITTED_CAPTURES;
                if !link.host {
                    &&& outcome.0@ == Seq::<BrowserCommand>::empty()
                    &&& outcome.1 matches Err(error) && is_unsupported(
                        error,
                        "the browser is not ready yet"@,
                    )
                    &&& final(self).next_snapshot_id == id
                    &&& final(self).snapshots.waiting() == old(self).snapshots.waiting()
                } else if admissible {
                    &&& outcome.0@ == observe.push(
                        BrowserCommand::CaptureScreenshot { message_id: id },
                    )
                    &&& outcome.1 matches Ok(request) && request@ == id
                    &&& final(self).next_snapshot_id == next_message_id(id)
                    &&& final(self).snapshots.waiting() == old(self).snapshots.waiting().insert(id)
                } else {
                    &&& outcome.0@ == observe
                    &&& outcome.1 matches Err(error) && is_browser_op(
                        error,
                        admission_refusal(old(self).snapshots.waiting(), id),
                    )
                    &&& final(self).next_snapshot_id == next_message_id(id)
                    &&& final(self).snapshots.waiting() == old(self).snapshots.waiting()
                }
            }),
    {
        let mut commands: Vec<BrowserCommand> = Vec::new();
        if !link.host {
            assert(commands@ =~= Seq::<BrowserCommand>::empty());
            return (
                commands,
                Err(WeldError::PlatformUnsupported("the browser is not ready yet")),
            );
        }
        let ghost observe = if self.observing {
            Seq::empty()
        } else {
            seq![BrowserCommand::AddDevToolsObserver]
        };
        if !self.observing {
            commands.push(BrowserCommand::AddDevToolsObserver);
        }
        assert(commands@ =~= observe);
        let message_id: i32 = self.next_snapshot_id;
        let id = SnapshotRequestId::from_cef_message_id(message_id);
        self.next_snapshot_id = if message_id == i32::MAX {
            1
        } else {
            message_id + 1
        };
        match self.snapshots.begin(id) {
            Ok(()) => {
                commands.push(BrowserCommand::CaptureScreenshot { message_id });
                (commands, Ok(id))
            },
            Err(error) => (commands, Err(error)),
        }
    }

    /// Take the oldest capture that completed.
    pub fn poll_snapshot_png(&mut self) -> (completion: Option<SnapshotPngCompletion>)
        requires
            old(self).well_formed(),
        ensures
            final(self).well_formed(),
            *final(self) == (Page { snapshots: final(self).snapshots, ..*old(self) }),
            final(self).snapshots.waiting() == old(self).snapshots.waiting(),
            match completion {
                Some(completion) => old(self).snapshots.results().len() > 0 && completion
                    == old(self).snapshots.results().first() && final(self).snapshots.results()
                    == old(self).snapshots.results().drop_first(),
                None => old(self).snapshots.results().len() == 0
                    && final(self).snapshots.results() == old(self).snapshots.results(),
            },
    {
        self.snapshots.take()
    }

    // ── Events and the end ────────────────────────────────────────────────────

    /// Take the oldest event.
    pub fn poll_web_event(&mut self) -> (event: Option<CefSurfaceEvent>)
        ensures
            *final(self) == (Page { events: final(self).events, ..*old(self) }),
            match event {
                Some(event) => old(self).events@.len() > 0 && event == old(self).events@.first()
                    && final(self).events@ == old(self).events@.drop_first(),
                None => old(self).events@.len() == 0 && final(self).events@ == old(self).events@,
            },
    {
        self.events.poll()
    }

    /// Settle whatever is in flight with a reason.
    pub fn settle_all(&mut self, reason: &str)
        requires
            old(self).well_formed(),
        ensures
            final(self).well_formed(),
            *final(self) == (Page {
                events: final(self).events,
                scripts: final(self).scripts,
                cookies: final(self).cookies,
                ..*old(self)
            }),
            settled_all(*old(self), *final(self), reason@),
    {
        self.scripts.fail_all(&mut self.events, reason);
        let ghost failed = self.events@;
        self.cookies.fail_active(&mut self.events, reason);
        proof {
            let n = old(self).events@.len() as int;
            let k = old(self).scripts@.len() as int;
            assert(self.events@.take(n) =~= failed.take(n));
            assert forall|i: int| 0 <= i < k implies crate::scripts::fails(
                #[trigger] self.events@[n + i],
                old(self).scripts@[i],
                reason@,
            ) by {
                assert(self.events@[n + i] == failed[n + i]);
            }
        }
    }
}

/// Whether everything in flight in `before` is settled in `after`: each script
/// in order, then the cookie read.
pub open spec fn settled_all<A, P, M>(
    before: Page<A, P, M>,
    after: Page<A, P, M>,
    reason: Seq<char>,
) -> bool {
    let n = before.events@.len() as int;
    let scripts = before.scripts@;
    &&& after.scripts@ == Seq::<WebRequestId>::empty()
    &&& after.cookies@ is None
    &&& after.events@.len() == n + scripts.len() + (if before.cookies@ is Some {
        1int
    } else {
        0int
    })
    &&& after.events@.take(n) == before.events@
    &&& forall|i: int|
        0 <= i < scripts.len() ==> crate::scripts::fails(
            #[trigger] after.events@[n + i],
            scripts[i],
            reason,
        )
    &&& before.cookies@ matches Some((id, _)) ==> crate::cookies::gives_up(
        after.events@.last(),
        id,
        reason,
    )
}

/// A new page has told nothing, waits for nothing and shows nothing. It asks the host
/// exactly what its surface says it may ask.
pub proof fn law_a_page_starts_empty<A, P, M>(
    surface: CefSurfaceConfig,
    platform: Platform,
    page: Page<A, P, M>,
)
    requires
        call_ensures(Page::<A, P, M>::new, (surface, platform), page),
    ensures
        page.events@.len() == 0,
        page.scripts@.len() == 0,
        page.cookies@ is None,
        page.auth.enabled() <==> surface.handle_auth_challenges,
        page.permissions.enabled() <==> surface.handle_permission_requests,
        page.devtools.enabled() <==> surface.devtools_protocol,
        page.devtools.queued().len() == 0,
        page.downloads@.dir is Some <==> surface.download_dir is Some,
        surface.download_dir matches Some(dir) ==> page.downloads@.dir == Some(dir@),
        page.downloads@.platform == platform,
        page.downloads@.started.len() == 0,
        forall|id: AuthId| !#[trigger] page.auth.pending().contains_key(id),
        forall|id: PermissionId| !#[trigger] page.permissions.pending().contains_key(id),
        forall|id: i32| !#[trigger] page.snapshots.waiting().contains(id),
        page.snapshots.results().len() == 0,
        page.next_snapshot_id == 1,
        !page.observing,
        page.cursor@ is None,
        page.ime@ is None,
        page.popup.placement() is None,
{
    assert forall|id: AuthId| !#[trigger] page.auth.pending().contains_key(id) by {
        assert(!page.auth.pending().dom().contains(id));
    }
    assert forall|id: PermissionId| !#[trigger] page.permissions.pending().contains_key(id) by {
        assert(!page.permissions.pending().dom().contains(id));
    }
}

/// A page that settles tells the host of everything that was open that it failed, and
/// why: each script in order, then the cookies. Nothing stays open, and nothing that
/// was told before is lost.
pub proof fn law_nothing_stays_open<A, P, M>(
    before: Page<A, P, M>,
    after: Page<A, P, M>,
    reason: &str,
)
    requires
        before.well_formed(),
        exists|page: &mut Page<A, P, M>|
            *page == before && *final(page) == after && #[trigger] call_ensures(
                Page::<A, P, M>::settle_all,
                (page, reason),
                (),
            ),
    ensures
        after.scripts@.len() == 0,
        after.cookies@ is None,
        after.events@.take(before.events@.len() as int) == before.events@,
        after.events@.len() == before.events@.len() + before.scripts@.len() + (
        if before.cookies@ is Some {
            1int
        } else {
            0int
        }),
        forall|i: int|
            0 <= i < before.scripts@.len() ==> (
            #[trigger] after.events@[before.events@.len() + i] matches
                CefSurfaceEvent::ScriptCompleted { id, result } && id == before.scripts@[i]
                && result is Err && result->Err_0@ == reason@),
        before.cookies@ matches Some((id, _)) ==> (
        after.events@.last() matches CefSurfaceEvent::CookiesCompleted { id: settled, result }
            && settled == id && result is Err && result->Err_0@ == reason@),
{
}

/// A script is sent exactly where the browser can be reached and none is open under
/// its id. It is sent as it is, under that id, which is then open.
pub proof fn law_a_script_is_sent_as_it_is<A, P, M>(
    before: Page<A, P, M>,
    after: Page<A, P, M>,
    path: ScriptMessagePath,
    id: WebRequestId,
    script: String,
    command: Result<BrowserCommand, WeldError>,
)
    requires
        before.well_formed(),
        exists|page: &mut Page<A, P, M>|
            *page == before && *final(page) == after && #[trigger] call_ensures(
                Page::<A, P, M>::request_script_result,
                (page, path, id, script),
                command,
            ),
    ensures
        command is Ok <==> path == ScriptMessagePath::Complete && !before.scripts@.contains(id),
        command matches Ok(command) ==> (command matches BrowserCommand::SendEvalRequest {
            id: text,
            script: code,
        } && text@ == decimal(id@ as nat) && code == script),
        command is Ok ==> after.scripts@ == before.scripts@.push(id),
        command matches Err(error) ==> error is BrowserOp && after.scripts@ == before.scripts@,
        after.events@ == before.events@,
{
}

/// A script that was not taken is not open any longer.
pub proof fn law_a_refused_script_is_not_open<A, P, M>(
    before: Page<A, P, M>,
    after: Page<A, P, M>,
    id: WebRequestId,
    accepted: bool,
    outcome: Result<(), WeldError>,
)
    requires
        before.well_formed(),
        exists|page: &mut Page<A, P, M>|
            *page == before && *final(page) == after && #[trigger] call_ensures(
                Page::<A, P, M>::script_sent,
                (page, id, accepted),
                outcome,
            ),
    ensures
        outcome is Ok <==> accepted,
        accepted ==> after.scripts@ == before.scripts@,
        !accepted ==> !after.scripts@.contains(id) && outcome->Err_0 is BrowserOp,
{
}

/// Cookies are read exactly where they can be reached and no other read is open.
pub proof fn law_one_read_of_cookies_at_a_time<A, P, M>(
    before: Page<A, P, M>,
    after: Page<A, P, M>,
    path: CookieManagerPath,
    id: WebRequestId,
    guard: Result<FinishOnDrop, WeldError>,
)
    requires
        exists|page: &mut Page<A, P, M>|
            *page == before && *final(page) == after && #[trigger] call_ensures(
                Page::<A, P, M>::request_cookies,
                (page, path, id),
                guard,
            ),
    ensures
        guard is Ok <==> path == CookieManagerPath::Complete && before.cookies@ is None,
        guard is Ok ==> (after.cookies@ matches Some((reading, batch)) && reading == id
            && batch.len() == 0),
        guard matches Ok(guard) ==> guard.id() == id && guard.armed() && guard.handles() == 1,
        guard matches Err(error) ==> error is BrowserOp && after.cookies@ == before.cookies@,
{
}

/// A protocol message is sent as it is, where the host asked for the protocol and the
/// browser is there, after an observer for the answers.
pub proof fn law_a_protocol_message_is_observed<A, P, M>(
    page: Page<A, P, M>,
    link: BrowserLink,
    json: String,
    asked: Commands,
)
    requires
        call_ensures(Page::<A, P, M>::send_devtools_message, (&page, link, json), asked),
    ensures
        asked is Ok <==> page.devtools.enabled() && link.host,
        asked matches Err(error) ==> error is PlatformUnsupported,
        asked matches Ok(commands) ==> commands@.last() == BrowserCommand::SendDevToolsMessage(json)
            && (page.observing ==> commands@.len() == 1) && (!page.observing ==> commands@.len()
            == 2 && commands@[0] == BrowserCommand::AddDevToolsObserver),
{
}

/// A capture is asked for under the next id, which then waits for it. No more than
/// sixteen are admitted, no id is used while it waits, and ids start over at 1.
pub proof fn law_a_capture_is_asked_for_once<A, P, M>(
    before: Page<A, P, M>,
    after: Page<A, P, M>,
    link: BrowserLink,
    outcome: (Vec<BrowserCommand>, Result<SnapshotRequestId, WeldError>),
)
    requires
        before.well_formed(),
        exists|page: &mut Page<A, P, M>|
            *page == before && *final(page) == after && #[trigger] call_ensures(
                Page::<A, P, M>::request_snapshot_png,
                (page, link),
                outcome,
            ),
    ensures
        outcome.1 is Ok <==> link.host && !before.snapshots.waiting().contains(
            before.next_snapshot_id,
        ) && before.snapshots.waiting().len() + before.snapshots.results().len() < 16,
        outcome.1 matches Ok(request) ==> request@ == before.next_snapshot_id
            && after.snapshots.waiting() == before.snapshots.waiting().insert(request@)
            && outcome.0@.last() == (BrowserCommand::CaptureScreenshot { message_id: request@ }),
        outcome.1 is Err ==> after.snapshots.waiting() == before.snapshots.waiting(),
        !link.host ==> outcome.0@.len() == 0 && after.next_snapshot_id == before.next_snapshot_id,
        link.host && before.next_snapshot_id < 0x7fff_ffff ==> after.next_snapshot_id
            == before.next_snapshot_id + 1,
        link.host && before.next_snapshot_id == 0x7fff_ffff ==> after.next_snapshot_id == 1,
{
}

/// What a page has for its host is handed over once, the oldest first.
pub proof fn law_a_page_is_polled_in_order<A, P, M>()
    ensures
        forall|page: &mut Page<A, P, M>, event: Option<CefSurfaceEvent>| #[trigger]
            call_ensures(Page::<A, P, M>::poll_web_event, (page,), event) ==> (event is None
                <==> page.events@.len() == 0) && (event matches Some(event) ==> event
                == page.events@[0] && final(page).events@ == page.events@.skip(1)),
        forall|page: &mut Page<A, P, M>, shape: Option<CursorShape>| #[trigger]
            call_ensures(Page::<A, P, M>::poll_cursor_shape, (page,), shape) ==> shape
                == page.cursor@ && final(page).cursor@ is None,
        forall|page: &mut Page<A, P, M>, composition: Option<ImeComposition>| #[trigger]
            call_ensures(Page::<A, P, M>::poll_ime_composition, (page,), composition)
                ==> composition == page.ime@ && final(page).ime@ is None,
{
}

/// An observer is added once, where there is a browser to observe, and only where the
/// host asked for the protocol. Messages are handed over the oldest first.
pub proof fn law_an_observer_is_added_once<A, P, M>(
    page: Page<A, P, M>,
    link: BrowserLink,
    observed: Commands,
    ensured: Commands,
)
    requires
        call_ensures(Page::<A, P, M>::ensure_devtools_observer, (&page, link), observed),
        call_ensures(Page::<A, P, M>::ensure_devtools, (&page, link), ensured),
    ensures
        page.observing ==> (observed matches Ok(commands) && commands@.len() == 0),
        !page.observing && link.host ==> (observed matches Ok(commands) && commands@ == seq![
            BrowserCommand::AddDevToolsObserver,
        ]),
        !page.observing && !link.host ==> (observed matches Err(error)
            && error is PlatformUnsupported),
        !page.devtools.enabled() ==> (ensured matches Err(error) && error is PlatformUnsupported),
        page.devtools.enabled() ==> (ensured is Ok <==> observed is Ok) && (
        ensured matches Ok(commands) ==> commands@ == observed->Ok_0@),
        forall|page: &mut Page<A, P, M>, registered: bool| #[trigger]
            call_ensures(Page::<A, P, M>::observer_added, (page, registered), ()) ==> (
            final(page).observing <==> registered),
        forall|page: &mut Page<A, P, M>, polled: (Option<String>, Vec<BrowserCommand>)| #[trigger]
            call_ensures(Page::<A, P, M>::poll_devtools_message, (page, link), polled) ==> {
                &&& polled.0 is None <==> page.devtools.queued().len() == 0
                &&& polled.0 matches Some(message) ==> message == page.devtools.queued()[0]
                &&& polled.1@.len() == 0 <==> !page.devtools.enabled() || page.observing
                    || !link.host
            },
        forall|page: &mut Page<A, P, M>, done: Option<SnapshotPngCompletion>| #[trigger]
            call_ensures(Page::<A, P, M>::poll_snapshot_png, (page,), done) ==> {
                &&& done is None <==> page.snapshots.results().len() == 0
                &&& done matches Some(done) ==> done == page.snapshots.results()[0]
                &&& done is Some ==> final(page).snapshots.results()
                    == page.snapshots.results().skip(1)
            },
{
}

} // verus!
