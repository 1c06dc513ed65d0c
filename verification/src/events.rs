//! What a surface reports to its host, and the queue it is reported through.
use vstd::prelude::*;
use vstd::string::*;
use std::collections::VecDeque;
use crate::error::WeldError;
use crate::permissions::PermissionKind;
use crate::surface::{
    ContextMenuTarget, Cookie, DragOperations, DragPayload, ProcessTerminationStatus,
};
use crate::text::{
    chars_of, decimal, digit_char, digit_value, digits_value, is_number, parse_unsigned,
    push_decimal, unsigned_value,
};

verus! {

/// Identifies one download for as long as it runs.
pub type DownloadId = u32;

/// Identifies one auth challenge until it is answered.
pub type AuthId = u32;

/// Identifies one permission request until it is answered.
pub type PermissionId = u32;

/// Identifies one request of the host whose answer arrives as an event. The host
/// picks it.
#[derive(Clone, Copy, Debug, PartialEq, Eq, Structural)]
pub struct WebRequestId(u64);

impl View for WebRequestId {
    type V = u64;

    closed spec fn view(&self) -> u64 {
        self.0
    }
}

impl WebRequestId {
    /// The request with this id.
    pub closed spec fn of(id: u64) -> WebRequestId {
        WebRequestId(id)
    }

    pub fn new(id: u64) -> (request: Self)
        ensures
            request == WebRequestId::of(id),
            request@ == id,
    {
        WebRequestId(id)
    }

    pub fn get(self) -> (id: u64)
        ensures
            id == self@,
    {
        self.0
    }

    /// The id in decimal, as it travels between processes.
    pub fn to_text(self) -> (text: String)
        ensures
            text@ == decimal(self@ as nat),
    {
        let mut text = String::new();
        push_decimal(&mut text, self.0);
        assert(Seq::<char>::empty() + decimal(self@ as nat) =~= decimal(self@ as nat));
        text
    }

    /// The id that `text` writes in decimal.
    pub fn from_text(text: &str) -> (request: Option<Self>)
        ensures
            match request {
                Some(request) => unsigned_value(text@, 10, u64::MAX as int) == Some(
                    request@ as int,
                ) && request == WebRequestId::of(request@),
                None => unsigned_value(text@, 10, u64::MAX as int) is None,
            },
    {
        match parse_unsigned(&chars_of(text), 10, u64::MAX) {
            Some(id) => Some(WebRequestId(id)),
            None => None,
        }
    }
}

/// The decimal digits of a number are digits, and write that number.
pub proof fn lemma_decimal(n: nat)
    ensures
        decimal(n).len() > 0,
        decimal(n)[0] != '+',
        is_number(decimal(n), 10),
        digits_value(decimal(n), 10) == n,
    decreases n,
{
    reveal_strlit("0123456789abcdef");
    assert forall|d: int| 0 <= d < 10 implies digit_value(#[trigger] digit_char(d)) == d
        && digit_char(d) != '+' by {
    }
    let d = (n % 10) as int;
    if n < 10 {
        assert(decimal(n) == seq![digit_char(n as int)]);
        assert(decimal(n).drop_last() == Seq::<char>::empty());
        assert(digits_value(decimal(n).drop_last(), 10) == 0);
        assert(digit_value(decimal(n).last()) == n);
    } else {
        let head = decimal(n / 10);
        lemma_decimal(n / 10);
        assert(decimal(n).drop_last() == head);
        assert(decimal(n).last() == digit_char(d));
        assert(decimal(n)[0] == head[0]);
        assert forall|i: int| 0 <= i < decimal(n).len() implies digit_value(
            #[trigger] decimal(n)[i],
        ) < 10 by {
            if i < head.len() {
                assert(decimal(n)[i] == head[i]);
            }
        }
    }
}

/// An id survives the trip through text.
pub proof fn law_request_ids_survive_text(id: u64)
    ensures
        unsigned_value(decimal(id as nat), 10, u64::MAX as int) == Some(id as int),
{
    lemma_decimal(id as nat);
}

/// Identifies one capture until it completes.
#[derive(Clone, Copy, Debug, PartialEq, Eq, Structural)]
pub struct SnapshotRequestId(i32);

impl View for SnapshotRequestId {
    type V = i32;

    closed spec fn view(&self) -> i32 {
        self.0
    }
}

impl SnapshotRequestId {
    /// The request whose DevTools message has this id.
    pub fn from_cef_message_id(message_id: i32) -> (request: Self)
        ensures
            request@ == message_id,
    {
        SnapshotRequestId(message_id)
    }

    /// The id of the request's DevTools message.
    pub fn cef_message_id(self) -> (message_id: i32)
        ensures
            message_id == self@,
    {
        self.0
    }
}

/// A capture that completed: the PNG, or why there is none.
#[derive(Debug)]
pub struct SnapshotPngCompletion {
    pub id: SnapshotRequestId,
    pub result: Result<Vec<u8>, WeldError>,
}

/// What the browser reports of its page.
#[derive(Clone, Debug)]
#[non_exhaustive]
#[allow(inconsistent_fields)]
pub enum NavigationEvent {
    LoadStart { url: String },
    LoadEnd { url: String, http_status: i32 },
    LoadError { url: String, error_code: i32, error_text: String },
    TitleChanged { title: String },
    AddressChanged { url: String },
    /// The render process died. The browser survives, and the next navigation
    /// gets a fresh renderer. `status` decides whether reloading is sensible.
    ContentProcessTerminated {
        status: ProcessTerminationStatus,
        /// The error code, 0 where there is none.
        error_code: i32,
        /// The description, empty where there is none.
        error_string: String,
    },
    NewWindowRequested { url: String, user_gesture: bool },
    /// A PDF export finished. `ok` is false where the file could not be written.
    PdfPrintFinished { path: String, ok: bool },
    /// The page began a drag that the host's native drag loop must drive.
    DragStarted { payload: DragPayload, allowed_operations: DragOperations, x: i32, y: i32 },
    /// How a page search is going. Several arrive for one search.
    FindResult {
        /// How many matches so far.
        count: i32,
        /// Which match is highlighted, 1-based. 0 when there is none.
        active_match: i32,
        /// The last update for this search.
        final_update: bool,
    },
    /// The user right-clicked, and the host should draw its own menu.
    ContextMenuRequested {
        x: i32,
        y: i32,
        /// What was under the cursor. More than one at once is normal.
        targets: Vec<ContextMenuTarget>,
        /// The link's address, when the click was on a link.
        link_url: String,
        /// The media element's source, when the click was on one.
        source_url: String,
        /// The page's own address.
        page_url: String,
        /// Any selected text under the cursor.
        selection_text: String,
    },
    /// A page asked for something Chromium gates behind a prompt.
    PermissionRequested {
        id: PermissionId,
        /// The origin asking.
        origin: String,
        permissions: Vec<PermissionKind>,
        /// The raw bit mask.
        raw: u32,
    },
    /// A server or proxy demanded credentials. Carries none.
    AuthChallenged {
        id: AuthId,
        /// The address whose load triggered the challenge.
        origin_url: String,
        /// Host the credentials are for.
        host: String,
        port: u16,
        realm: String,
        /// e.g. `basic`, `digest`, `negotiate`.
        scheme: String,
        /// True when a proxy is asking rather than the origin server.
        is_proxy: bool,
    },
    /// A download began, and its destination is chosen.
    DownloadStarted {
        id: DownloadId,
        url: String,
        suggested_filename: String,
        destination_path: String,
        /// What the server announced, when it announced anything.
        total_bytes_expected: Option<u64>,
    },
    /// Throttled progress, at most ten a second per download, plus a final one
    /// when it finishes. `bytes_received` is cumulative.
    DownloadProgress {
        id: DownloadId,
        bytes_received: u64,
        total_bytes_expected: Option<u64>,
    },
    /// A download ended. `error` is `Some` when it failed.
    DownloadFinished { id: DownloadId, destination_path: String, error: Option<String> },
    /// A download was cancelled, by the host or by the browser.
    DownloadCancelled { id: DownloadId, destination_path: String },
    ConsoleMessage { level: i32, message: String, source: String, line: i32 },
}

/// What a host polls from a surface.
#[derive(Debug)]
#[allow(inconsistent_fields)]
pub enum CefSurfaceEvent {
    Navigation(NavigationEvent),
    /// A message the page posted to the host.
    WebMessage(String),
    /// A script request settled: its JSON value, or why there is none.
    ScriptCompleted { id: WebRequestId, result: Result<String, String> },
    /// A cookie read settled. An empty list means the store had none.
    CookiesCompleted { id: WebRequestId, result: Result<Vec<Cookie>, String> },
}

/// The events a host has not polled yet, oldest first.
#[derive(Debug)]
pub struct WebEventQueue {
    events: VecDeque<CefSurfaceEvent>,
}

impl View for WebEventQueue {
    type V = Seq<CefSurfaceEvent>;

    closed spec fn view(&self) -> Seq<CefSurfaceEvent> {
        self.events@
    }
}

impl Default for WebEventQueue {
    fn default() -> (queue: Self)
        ensures
            queue@ == Seq::<CefSurfaceEvent>::empty(),
    {
        WebEventQueue { events: VecDeque::new() }
    }
}

/// Whether `after` is `before` and one more event.
pub open spec fn one_more(before: WebEventQueue, after: WebEventQueue) -> bool {
    &&& after@.len() == before@.len() + 1
    &&& after@.drop_last() == before@
}

impl WebEventQueue {
    /// Report an event after all those already waiting.
    pub fn push(&mut self, event: CefSurfaceEvent)
        ensures
            final(self)@ == old(self)@.push(event),
    {
        self.events.push_back(event);
    }

    /// Report an event of the page.
    pub fn push_navigation(&mut self, event: NavigationEvent)
        ensures
            final(self)@ == old(self)@.push(CefSurfaceEvent::Navigation(event)),
    {
        self.push(CefSurfaceEvent::Navigation(event));
    }

    /// Take the oldest event, if any is waiting.
    pub fn poll(&mut self) -> (event: Option<CefSurfaceEvent>)
        ensures
            match event {
                Some(event) => old(self)@.len() > 0 && event == old(self)@.first() && final(self)@
                    == old(self)@.drop_first(),
                None => old(self)@.len() == 0 && final(self)@ == old(self)@,
            },
    {
        let event = self.events.pop_front();
        assert(event is Some ==> self@ =~= old(self)@.drop_first());
        event
    }
}

/// Events come out in the order in which they went in, and none comes out twice.
pub proof fn law_events_come_out_in_order(
    before: WebEventQueue,
    pushed: WebEventQueue,
    after: WebEventQueue,
    event: CefSurfaceEvent,
    polled: Option<CefSurfaceEvent>,
)
    requires
        exists|queue: &mut WebEventQueue|
            *queue == before && *final(queue) == pushed && #[trigger] call_ensures(
                WebEventQueue::push,
                (queue, event),
                (),
            ),
        exists|queue: &mut WebEventQueue|
            *queue == pushed && *final(queue) == after && #[trigger] call_ensures(
                WebEventQueue::poll,
                (queue,),
                polled,
            ),
    ensures
        polled is Some,
        seq![polled->0] + after@ == before@ + seq![event],
{
    assert(seq![polled->0] + after@ =~= pushed@);
    assert(pushed@ =~= before@ + seq![event]);
}

/// A request id is the number that it was made of.
pub proof fn law_a_request_id_is_its_number(id: u64, request: WebRequestId, read: u64)
    requires
        call_ensures(WebRequestId::new, (id,), request),
        call_ensures(WebRequestId::get, (request,), read),
    ensures
        read == id,
{
}

/// A request id that is written as text is read back as the same id.
pub proof fn law_a_request_id_is_read_back(
    id: WebRequestId,
    text: String,
    written: &str,
    read: Option<WebRequestId>,
)
    requires
        call_ensures(WebRequestId::to_text, (id,), text),
        written@ == text@,
        call_ensures(WebRequestId::from_text, (written,), read),
    ensures
        read matches Some(read) && read@ == id@,
        text@.len() > 0,
        forall|i: int| 0 <= i < text@.len() ==> '0' <= #[trigger] text@[i] <= '9',
{
    lemma_decimal(id@ as nat);
    assert forall|i: int| 0 <= i < text@.len() implies '0' <= #[trigger] text@[i] <= '9' by {
        assert(digit_value(text@[i]) < 10);
    }
}

/// A capture is known by the number of its message, and a navigation event goes behind
/// those that wait.
pub proof fn law_events_are_queued_as_they_are(
    message_id: i32,
    request: SnapshotRequestId,
    read: i32,
    event: NavigationEvent,
)
    requires
        call_ensures(SnapshotRequestId::from_cef_message_id, (message_id,), request),
        call_ensures(SnapshotRequestId::cef_message_id, (request,), read),
    ensures
        read == message_id,
        forall|queue: &mut WebEventQueue| #[trigger]
            call_ensures(WebEventQueue::push_navigation, (queue, event), ()) ==> final(queue)@
                == queue@.push(CefSurfaceEvent::Navigation(event)),
{
}

} // verus!
