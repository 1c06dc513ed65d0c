//! What the browser's reports come to.
//!
//! Each handler takes what the browser says and updates the surface: it queues
//! what the host should know and answers what the browser asked.
use vstd::prelude::*;
use vstd::string::*;
use crate::cursor::{from_cef, has_shape};
use crate::drag::{payload_from_cef, readable, text_if, OfferedDrag};
use crate::events::{one_more, CefSurfaceEvent, NavigationEvent, WebRequestId};
use crate::page::{settled_all, Page};
use crate::popup::length;
use crate::scripts::{fails, lemma_without_lacks, without, EVAL_RESULT};
use crate::surface::{
    context_menu_targets, spec_termination_status, targets_of, termination_status,
    ContextMenuTarget, DragFile, DragOperations, DragPayload, ImeComposition, PopupRect,
};
use crate::text::{same_text, unsigned_value};

verus! {

/// Name of the message in which a page talks to its host.
pub const WEB_MESSAGE: &'static str = "weld.message";

/// The arguments of a message between processes.
#[derive(Debug)]
pub struct MessageArguments {
    /// The text at the first place: an id in decimal, or what a page says.
    pub first: String,
    /// The number at the second place: not zero where a script succeeded.
    pub second: i32,
    /// The text at the third place: what a script came to.
    pub third: String,
}

/// What a right-click was on, as the browser reports it.
#[derive(Debug)]
pub struct MenuParams {
    pub x: i32,
    pub y: i32,
    pub flags: u32,
    pub link_url: String,
    pub source_url: String,
    pub page_url: String,
    pub selection_text: String,
}

/// How many planes of a painted frame are to be taken: all that it says it has,
/// if it has as many. `None` ignores the frame.
pub fn painted_planes(plane_count: i32, available: usize) -> (count: Option<usize>)
    ensures
        match count {
            Some(count) => count == plane_count && 0 < count <= available,
            None => plane_count <= 0 || plane_count > available,
        },
{
    if plane_count <= 0 {
        return None;
    }
    let count: u32 = plane_count as u32;
    if count as u64 > available as u64 {
        None
    } else {
        Some(count as usize)
    }
}

/// Whether `after` is `before` but for its events, of which it has one more.
pub open spec fn reported_one<A, P, M>(
    before: Page<A, P, M>,
    after: Page<A, P, M>,
) -> bool {
    &&& one_more(before.events, after.events)
    &&& after == (Page { events: after.events, ..before })
}

/// Whether `after` is `before` with the report of an event of the page.
pub open spec fn reported<A, P, M>(
    before: Page<A, P, M>,
    after: Page<A, P, M>,
    event: NavigationEvent,
) -> bool {
    &&& after.events@ == before.events@.push(CefSurfaceEvent::Navigation(event))
    &&& after == (Page { events: after.events, ..before })
}

impl<A, P, M> Page<A, P, M> {
    // ── Popup, cursor and composition ─────────────────────────────────────────

    /// The popup widget is placed, in device-independent pixels. A negative side
    /// counts as none.
    pub fn on_popup_size(&mut self, x: i32, y: i32, width: i32, height: i32)
        ensures
            final(self).popup.rect() == (PopupRect {
                x,
                y,
                width: length(width),
                height: length(height),
            }),
            final(self).popup.shown() == old(self).popup.shown(),
            *final(self) == (Page { popup: final(self).popup, ..*old(self) }),
    {
        self.popup.on_popup_size(x, y, width, height);
    }

    /// The composed text moved to `bounds`, in physical pixels.
    pub fn on_ime_composition_range_changed(
        &mut self,
        bounds: PopupRect,
        selected: Option<(u32, u32)>,
    )
        ensures
            final(self).ime@ == Some(
                ImeComposition {
                    bounds,
                    selection_start: match selected {
                        Some((start, _)) => start,
                        None => 0,
                    },
                    selection_end: match selected {
                        Some((_, end)) => end,
                        None => 0,
                    },
                },
            ),
            *final(self) == (Page { ime: final(self).ime, ..*old(self) }),
    {
        let (selection_start, selection_end): (u32, u32) = match selected {
            Some(range) => range,
            None => (0, 0),
        };
        self.ime.set(ImeComposition { bounds, selection_start, selection_end });
    }

    /// The page asks for a cursor.
    pub fn on_cursor_change(&mut self, type_: i32)
        ensures
            final(self).cursor@ matches Some(shape) && has_shape(type_, shape),
            *final(self) == (Page { cursor: final(self).cursor, ..*old(self) }),
    {
        self.cursor.set(from_cef(type_));
    }

    // ── Loading ───────────────────────────────────────────────────────────────

    /// A frame started to load. Only the main frame is reported.
    pub fn on_load_start(&mut self, is_main: bool, url: String)
        ensures
            if is_main {
                reported(*old(self), *final(self), NavigationEvent::LoadStart { url })
            } else {
                *final(self) == *old(self)
            },
    {
        if is_main {
            self.events.push_navigation(NavigationEvent::LoadStart { url });
        }
    }

    /// A frame finished loading. Only the main frame is reported.
    pub fn on_load_end(&mut self, is_main: bool, url: String, http_status: i32)
        ensures
            if is_main {
                reported(*old(self), *final(self), NavigationEvent::LoadEnd { url, http_status })
            } else {
                *final(self) == *old(self)
            },
    {
        if is_main {
            self.events.push_navigation(NavigationEvent::LoadEnd { url, http_status });
        }
    }

    /// A frame failed to load. Only the main frame is reported.
    pub fn on_load_error(
        &mut self,
        is_main: bool,
        url: String,
        error_code: i32,
        error_text: String,
    )
        ensures
            if is_main {
                reported(
                    *old(self),
                    *final(self),
                    NavigationEvent::LoadError { url, error_code, error_text },
                )
            } else {
                *final(self) == *old(self)
            },
    {
        if is_main {
            self.events.push_navigation(NavigationEvent::LoadError { url, error_code, error_text });
        }
    }

    /// A frame has a new address. Only the main frame is reported.
    pub fn on_address_change(&mut self, is_main: bool, url: String)
        ensures
            if is_main {
                reported(*old(self), *final(self), NavigationEvent::AddressChanged { url })
            } else {
                *final(self) == *old(self)
            },
    {
        if is_main {
            self.events.push_navigation(NavigationEvent::AddressChanged { url });
        }
    }

    /// The page has a new title.
    pub fn on_title_change(&mut self, title: String)
        ensures
            reported(*old(self), *final(self), NavigationEvent::TitleChanged { title }),
    {
        self.events.push_navigation(NavigationEvent::TitleChanged { title });
    }

    /// The page wrote to its console.
    pub fn on_console_message(&mut self, level: i32, message: String, source: String, line: i32)
        ensures
            reported(
                *old(self),
                *final(self),
                NavigationEvent::ConsoleMessage { level, message, source, line },
            ),
    {
        self.events.push_navigation(
            NavigationEvent::ConsoleMessage { level, message, source, line },
        );
    }

    /// The page wants a new browser. There is one surface per producer and
    /// nowhere to put a second browser, so the wish is reported and denied.
    pub fn on_before_popup(&mut self, url: String, user_gesture: bool) -> (deny: bool)
        ensures
            deny,
            reported(
                *old(self),
                *final(self),
                NavigationEvent::NewWindowRequested { url, user_gesture },
            ),
    {
        self.events.push_navigation(NavigationEvent::NewWindowRequested { url, user_gesture });
        true
    }

    /// A page search made progress.
    pub fn on_find_result(&mut self, count: i32, active_match: i32, final_update: bool)
        ensures
            reported(
                *old(self),
                *final(self),
                NavigationEvent::FindResult { count, active_match, final_update },
            ),
    {
        self.events.push_navigation(
            NavigationEvent::FindResult { count, active_match, final_update },
        );
    }

    /// A PDF export finished.
    pub fn on_pdf_print_finished(&mut self, path: String, ok: bool)
        ensures
            reported(*old(self), *final(self), NavigationEvent::PdfPrintFinished { path, ok }),
    {
        self.events.push_navigation(NavigationEvent::PdfPrintFinished { path, ok });
    }

    // ── Processes ─────────────────────────────────────────────────────────────

    /// A message arrived from another process. `None` stands for a message
    /// without arguments. Returns whether the message was one of ours: only the
    /// renderer sends those.
    ///
    /// An answer to a script request settles it; a message of the page is
    /// reported to the host.
    pub fn on_process_message_received(
        &mut self,
        from_renderer: bool,
        name: &str,
        arguments: Option<MessageArguments>,
    ) -> (handled: bool)
        requires
            old(self).well_formed(),
        ensures
            final(self).well_formed(),
            handled == (from_renderer && (name@ == EVAL_RESULT@ || name@ == WEB_MESSAGE@)),
            *final(self) == (Page {
                events: final(self).events,
                scripts: final(self).scripts,
                ..*old(self)
            }),
            match arguments {
                Some(arguments) if handled => if name@ == EVAL_RESULT@ {
                    script_answered(*old(self), *final(self), arguments)
                } else {
                    &&& final(self).events@ == old(self).events@.push(
                        CefSurfaceEvent::WebMessage(arguments.first),
                    )
                    &&& final(self).scripts@ == old(self).scripts@
                },
                _ => *final(self) == *old(self),
            },
    {
        proof {
            reveal_strlit("weld.eval.result");
            reveal_strlit("weld.message");
        }
        if !from_renderer {
            return false;
        }
        if same_text(name, EVAL_RESULT) {
            match arguments {
                Some(arguments) => match WebRequestId::from_text(arguments.first.as_str()) {
                    Some(id) => {
                        let result: Result<String, String> = if arguments.second != 0 {
                            Ok(arguments.third)
                        } else {
                            Err(arguments.third)
                        };
                        self.scripts.complete(&mut self.events, id, result);
                    },
                    None => {},
                },
                None => {},
            }
            return true;
        }
        if !same_text(name, WEB_MESSAGE) {
            return false;
        }
        match arguments {
            Some(arguments) => {
                self.events.push(CefSurfaceEvent::WebMessage(arguments.first));
            },
            None => {},
        }
        true
    }

    /// The render process died. The host is told, and no script request waits
    /// for it any longer.
    pub fn on_render_process_terminated(
        &mut self,
        status: i32,
        error_code: i32,
        error_string: String,
    )
        requires
            old(self).well_formed(),
        ensures
            final(self).well_formed(),
            *final(self) == (Page {
                events: final(self).events,
                scripts: final(self).scripts,
                ..*old(self)
            }),
            final(self).scripts@ == Seq::<WebRequestId>::empty(),
            ({
                let n = old(self).events@.len() as int;
                let scripts = old(self).scripts@;
                &&& final(self).events@.len() == n + 1 + scripts.len()
                &&& final(self).events@.take(n) == old(self).events@
                &&& final(self).events@[n] == CefSurfaceEvent::Navigation(
                    NavigationEvent::ContentProcessTerminated {
                        status: spec_termination_status(status),
                        error_code,
                        error_string,
                    },
                )
                &&& forall|i: int|
                    0 <= i < scripts.len() ==> fails(
                        #[trigger] final(self).events@[n + 1 + i],
                        scripts[i],
                        "renderer exited"@,
                    )
            }),
    {
        let status = termination_status(status);
        self.events.push_navigation(
            NavigationEvent::ContentProcessTerminated { status, error_code, error_string },
        );
        let ghost told = self.events@;
        self.scripts.fail_all(&mut self.events, "renderer exited");
        proof {
            let n = old(self).events@.len() as int;
            assert(self.events@.take(n + 1) == told);
            assert(self.events@.take(n) =~= told.take(n));
            assert(told.take(n) =~= old(self).events@);
            assert(self.events@[n] == self.events@.take(n + 1)[n]);
        }
    }

    /// The browser is closing. Whatever is in flight is settled.
    pub fn on_before_close(&mut self)
        requires
            old(self).well_formed(),
        ensures
            final(self).well_formed(),
            *final(self) == (Page {
                events: final(self).events,
                scripts: final(self).scripts,
                cookies: final(self).cookies,
                ..*old(self)
            }),
            settled_all(*old(self), *final(self), "browser closed"@),
    {
        self.settle_all("browser closed");
    }

    // ── Drags and menus ───────────────────────────────────────────────────────

    /// The page began a drag, at a place in physical pixels. Returns whether the
    /// host's own drag loop takes over, which it does.
    pub fn start_dragging(&mut self, offered: OfferedDrag, allowed: u32, x: i32, y: i32) -> (taken:
        bool)
        ensures
            taken,
            reported_one(*old(self), *final(self)),
            final(self).events@.last() matches CefSurfaceEvent::Navigation(
                NavigationEvent::DragStarted { payload, allowed_operations, x: at_x, y: at_y },
            ) && allowed_operations == DragOperations(allowed) && at_x == x && at_y == y
                && payload.files@ == (if offered.is_file {
                readable(offered.paths@)
            } else {
                Seq::<DragFile>::empty()
            }) && payload.link_url == text_if(offered.is_link, offered.link_url)
                && payload.link_title == text_if(offered.is_link, offered.link_title)
                && payload.fragment_text == text_if(offered.is_fragment, offered.fragment_text)
                && payload.fragment_html == text_if(offered.is_fragment, offered.fragment_html)
                && payload.fragment_base_url == text_if(
                offered.is_fragment,
                offered.fragment_base_url,
            ),
    {
        let payload = payload_from_cef(offered);
        self.events.push_navigation(
            NavigationEvent::DragStarted {
                payload,
                allowed_operations: DragOperations(allowed),
                x,
                y,
            },
        );
        assert(self.events@.drop_last() =~= old(self).events@);
        true
    }

    /// The user right-clicked, at a place in physical pixels.
    pub fn on_before_context_menu(&mut self, params: MenuParams)
        ensures
            reported_one(*old(self), *final(self)),
            final(self).events@.last() matches CefSurfaceEvent::Navigation(
                NavigationEvent::ContextMenuRequested {
                    x,
                    y,
                    targets,
                    link_url,
                    source_url,
                    page_url,
                    selection_text,
                },
            ) && x == params.x && y == params.y && targets@ == targets_of(params.flags)
                && link_url == params.link_url && source_url == params.source_url && page_url
                == params.page_url && selection_text == params.selection_text,
    {
        let targets = context_menu_targets(params.flags);
        self.events.push_navigation(
            NavigationEvent::ContextMenuRequested {
                x: params.x,
                y: params.y,
                targets,
                link_url: params.link_url,
                source_url: params.source_url,
                page_url: params.page_url,
                selection_text: params.selection_text,
            },
        );
        assert(self.events@.drop_last() =~= old(self).events@);
    }
}

/// What the renderer's answer to a script request comes to: it settles the
/// request it names, if that is in flight.
pub open spec fn script_answered<A, P, M>(
    before: Page<A, P, M>,
    after: Page<A, P, M>,
    arguments: MessageArguments,
) -> bool {
    match unsigned_value(arguments.first@, 10, u64::MAX as int) {
        None => after == before,
        Some(number) => {
            let id = WebRequestId::of(number as u64);
            &&& after.scripts@ == without(before.scripts@, id)
            &&& after.events@ == (if before.scripts@.contains(id) {
                before.events@.push(
                    CefSurfaceEvent::ScriptCompleted {
                        id,
                        result: if arguments.second != 0 {
                            Ok(arguments.third)
                        } else {
                            Err(arguments.third)
                        },
                    },
                )
            } else {
                before.events@
            })
        },
    }
}

/// What happens to the main frame is told to the host as it happened, and what
/// happens to another frame is not.
pub proof fn law_the_main_frame_is_told<A, P, M>(
    is_main: bool,
    url: String,
    code: i32,
    text: String,
)
    ensures
        forall|page: &mut Page<A, P, M>| #[trigger]
            call_ensures(Page::<A, P, M>::on_load_start, (page, is_main, url), ()) ==> {
                &&& is_main ==> final(page).events@ == page.events@.push(
                    CefSurfaceEvent::Navigation(
                        NavigationEvent::LoadStart { url },
                    ),
                )
                &&& !is_main ==> *final(page) == *page
            },
        forall|page: &mut Page<A, P, M>| #[trigger]
            call_ensures(Page::<A, P, M>::on_load_end, (page, is_main, url, code), ()) ==> {
                &&& is_main ==> final(page).events@ == page.events@.push(
                    CefSurfaceEvent::Navigation(
                        NavigationEvent::LoadEnd { url, http_status: code },
                    ),
                )
                &&& !is_main ==> *final(page) == *page
            },
        forall|page: &mut Page<A, P, M>| #[trigger]
            call_ensures(Page::<A, P, M>::on_load_error, (page, is_main, url, code, text), ()) ==> {
                &&& is_main ==> final(page).events@ == page.events@.push(
                    CefSurfaceEvent::Navigation(
                        NavigationEvent::LoadError { url, error_code: code, error_text: text },
                    ),
                )
                &&& !is_main ==> *final(page) == *page
            },
        forall|page: &mut Page<A, P, M>| #[trigger]
            call_ensures(Page::<A, P, M>::on_address_change, (page, is_main, url), ()) ==> {
                &&& is_main ==> final(page).events@ == page.events@.push(
                    CefSurfaceEvent::Navigation(
                        NavigationEvent::AddressChanged { url },
                    ),
                )
                &&& !is_main ==> *final(page) == *page
            },
{
}

/// Titles, messages on the console, what was found and what was printed are told to
/// the host as they are.
pub proof fn law_pages_are_told<A, P, M>(
    text: String,
    source: String,
    level: i32,
    line: i32,
    flag: bool,
)
    ensures
        forall|page: &mut Page<A, P, M>| #[trigger]
            call_ensures(Page::<A, P, M>::on_title_change, (page, text), ())
                ==> final(page).events@ == page.events@.push(
                CefSurfaceEvent::Navigation(
                    NavigationEvent::TitleChanged { title: text },
                ),
            ),
        forall|page: &mut Page<A, P, M>| #[trigger]
            call_ensures(Page::<A, P, M>::on_console_message, (page, level, text, source, line), ())
                ==> final(page).events@ == page.events@.push(
                CefSurfaceEvent::Navigation(
                    NavigationEvent::ConsoleMessage { level, message: text, source, line },
                ),
            ),
        forall|page: &mut Page<A, P, M>| #[trigger]
            call_ensures(Page::<A, P, M>::on_find_result, (page, level, line, flag), ())
                ==> final(page).events@ == page.events@.push(
                CefSurfaceEvent::Navigation(
                    NavigationEvent::FindResult {
                        count: level,
                        active_match: line,
                        final_update: flag,
                    },
                ),
            ),
        forall|page: &mut Page<A, P, M>| #[trigger]
            call_ensures(Page::<A, P, M>::on_pdf_print_finished, (page, text, flag), ())
                ==> final(page).events@ == page.events@.push(
                CefSurfaceEvent::Navigation(
                    NavigationEvent::PdfPrintFinished { path: text, ok: flag },
                ),
            ),
        forall|page: &mut Page<A, P, M>, deny: bool| #[trigger]
            call_ensures(Page::<A, P, M>::on_before_popup, (page, text, flag), deny) ==> deny
                && final(page).events@ == page.events@.push(
                CefSurfaceEvent::Navigation(
                    NavigationEvent::NewWindowRequested { url: text, user_gesture: flag },
                ),
            ),
{
}

/// An answer of the page settles the request that it names, if that is still open:
/// with the value where the page says that it succeeded, with the error otherwise.
/// It settles no other.
pub proof fn law_an_answer_settles_its_request<A, P, M>(
    before: Page<A, P, M>,
    after: Page<A, P, M>,
    arguments: MessageArguments,
    id: WebRequestId,
    handled: bool,
)
    requires
        before.well_formed(),
        id == WebRequestId::of(id@),
        unsigned_value(arguments.first@, 10, u64::MAX as int) == Some(id@ as int),
        exists|page: &mut Page<A, P, M>|
            *page == before && *final(page) == after && #[trigger] call_ensures(
                Page::<A, P, M>::on_process_message_received,
                (page, true, EVAL_RESULT, Some(arguments)),
                handled,
            ),
    ensures
        handled,
        before.scripts@.contains(id) ==> {
            &&& after.events@.drop_last() == before.events@
            &&& after.events@.last() matches CefSurfaceEvent::ScriptCompleted {
                id: settled,
                result,
            } && settled == id && (result is Ok <==> arguments.second != 0) && (result matches Ok(
                value,
            ) ==> value == arguments.third) && (result matches Err(error) ==> error
                == arguments.third)
        },
        !before.scripts@.contains(id) ==> after.events@ == before.events@,
        !after.scripts@.contains(id),
{
    lemma_without_lacks(before.scripts@, id);
}

/// A message of the page reaches the host as it was sent, and one that did not come
/// from the page's process reaches nobody.
pub proof fn law_messages_of_the_page_are_told<A, P, M>(
    before: Page<A, P, M>,
    after: Page<A, P, M>,
    from_renderer: bool,
    arguments: MessageArguments,
    handled: bool,
)
    requires
        before.well_formed(),
        exists|page: &mut Page<A, P, M>|
            *page == before && *final(page) == after && #[trigger] call_ensures(
                Page::<A, P, M>::on_process_message_received,
                (page, from_renderer, "weld.message", Some(arguments)),
                handled,
            ),
    ensures
        handled <==> from_renderer,
        from_renderer ==> after.events@ == before.events@.push(
            CefSurfaceEvent::WebMessage(arguments.first),
        ),
        !from_renderer ==> after == before,
{
    reveal_strlit("weld.message");
    reveal_strlit("weld.eval.result");
    assert("weld.message"@.len() != EVAL_RESULT@.len());
}

/// Where a page's process is lost the host is told how, and every request that was
/// open is failed.
pub proof fn law_a_lost_process_fails_its_requests<A, P, M>(
    before: Page<A, P, M>,
    after: Page<A, P, M>,
    status: i32,
    error_code: i32,
    error_string: String,
    i: int,
)
    requires
        before.well_formed(),
        0 <= i < before.scripts@.len(),
        exists|page: &mut Page<A, P, M>|
            *page == before && *final(page) == after && #[trigger] call_ensures(
                Page::<A, P, M>::on_render_process_terminated,
                (page, status, error_code, error_string),
                (),
            ),
    ensures
        after.scripts@.len() == 0,
        after.events@.len() == before.events@.len() + 1 + before.scripts@.len(),
        after.events@[before.events@.len() as int] matches CefSurfaceEvent::Navigation(
            NavigationEvent::ContentProcessTerminated {
                status: told,
                error_code: code,
                error_string: text,
            },
        ) && told == spec_termination_status(status) && code == error_code && text == error_string,
        after.events@[before.events@.len() + 1 + i] matches CefSurfaceEvent::ScriptCompleted {
            id,
            result,
        } && id == before.scripts@[i] && result is Err && result->Err_0@ == "renderer exited"@,
{
}

/// A menu that a page asks for is told with its place, what it is for, its addresses and
/// what was selected.
pub proof fn law_a_menu_is_told_as_it_was_asked_for<A, P, M>(
    before: Page<A, P, M>,
    after: Page<A, P, M>,
    params: MenuParams,
    named: Vec<ContextMenuTarget>,
)
    requires
        call_ensures(context_menu_targets, (params.flags,), named),
        exists|page: &mut Page<A, P, M>|
            *page == before && *final(page) == after && #[trigger] call_ensures(
                Page::<A, P, M>::on_before_context_menu,
                (page, params),
                (),
            ),
    ensures
        after.events@.len() == before.events@.len() + 1,
        after.events@.last() matches CefSurfaceEvent::Navigation(
            NavigationEvent::ContextMenuRequested {
                x,
                y,
                link_url,
                source_url,
                page_url,
                selection_text,
                targets,
            },
        ) && targets@ == named@ && x == params.x && y == params.y && link_url == params.link_url && source_url
            == params.source_url && page_url == params.page_url && selection_text
            == params.selection_text,
{
}

/// A drag that a page starts is taken and told, where it started and with what the
/// page allows.
pub proof fn law_a_started_drag_is_told<A, P, M>(
    before: Page<A, P, M>,
    after: Page<A, P, M>,
    offered: OfferedDrag,
    allowed: u32,
    at_x: i32,
    at_y: i32,
    taken: bool,
    told: DragPayload,
)
    requires
        call_ensures(payload_from_cef, (offered,), told),
        exists|page: &mut Page<A, P, M>|
            *page == before && *final(page) == after && #[trigger] call_ensures(
                Page::<A, P, M>::start_dragging,
                (page, offered, allowed, at_x, at_y),
                taken,
            ),
    ensures
        taken,
        after.events@.len() == before.events@.len() + 1,
        after.events@.last() matches CefSurfaceEvent::Navigation(
            NavigationEvent::DragStarted { payload, allowed_operations, x, y },
        ) && x == at_x && y == at_y && allowed_operations.0 == allowed && payload.files@
            == told.files@ && payload.link_url == told.link_url && payload.link_title
            == told.link_title && payload.fragment_text == told.fragment_text
            && payload.fragment_html == told.fragment_html && payload.fragment_base_url
            == told.fragment_base_url,
{
}

/// Planes are read only where there is a plane and no more of them than there is
/// room for, and then all of them.
pub proof fn law_painted_planes_are_read_in_full(
    plane_count: i32,
    available: usize,
    count: Option<usize>,
)
    requires
        call_ensures(painted_planes, (plane_count, available), count),
    ensures
        count is Some <==> 0 < plane_count <= available,
        count matches Some(count) ==> count == plane_count,
{
}

/// A page keeps where its popup is, how it is composed and which cursor it wants.
pub proof fn law_a_page_keeps_what_it_shows<A, P, M>(
    x: i32,
    y: i32,
    width: i32,
    height: i32,
    bounds: PopupRect,
    start: u32,
    end: u32,
)
    ensures
        forall|page: &mut Page<A, P, M>| #[trigger]
            call_ensures(Page::<A, P, M>::on_popup_size, (page, x, y, width, height), ()) ==> {
                let rect = final(page).popup.rect();
                &&& rect.x == x && rect.y == y
                &&& width >= 0 ==> rect.width == width
                &&& height >= 0 ==> rect.height == height
                &&& width < 0 ==> rect.width == 0
                &&& height < 0 ==> rect.height == 0
            },
        forall|page: &mut Page<A, P, M>| #[trigger]
            call_ensures(
                Page::<A, P, M>::on_ime_composition_range_changed,
                (page, bounds, Some((start, end))),
                (),
            ) ==> (final(page).ime@ matches Some(composition) && composition.bounds == bounds
                && composition.selection_start == start && composition.selection_end == end),
        forall|page: &mut Page<A, P, M>| #[trigger]
            call_ensures(
                Page::<A, P, M>::on_ime_composition_range_changed,
                (page, bounds, None),
                (),
            ) ==> (final(page).ime@ matches Some(composition) && composition.bounds == bounds
                && composition.selection_start == 0 && composition.selection_end == 0),
{
}

/// A page that closes fails everything that is open on it, and says that the browser
/// closed.
pub proof fn law_a_closing_page_fails_what_is_open<A, P, M>(
    before: Page<A, P, M>,
    after: Page<A, P, M>,
)
    requires
        before.well_formed(),
        exists|page: &mut Page<A, P, M>|
            *page == before && *final(page) == after && #[trigger] call_ensures(
                Page::<A, P, M>::on_before_close,
                (page,),
                (),
            ),
    ensures
        after.scripts@.len() == 0,
        after.cookies@ is None,
        forall|i: int|
            0 <= i < before.scripts@.len() ==> (
            #[trigger] after.events@[before.events@.len() + i] matches
                CefSurfaceEvent::ScriptCompleted { id, result } && id == before.scripts@[i]
                && result is Err && result->Err_0@ == "browser closed"@),
        before.cookies@ matches Some((id, _)) ==> (
        after.events@.last() matches CefSurfaceEvent::CookiesCompleted { id: settled, result }
            && settled == id && result is Err && result->Err_0@ == "browser closed"@),
        after.events@.take(before.events@.len() as int) == before.events@,
{
}

/// A page that wants a cursor keeps the shape that goes with its type.
pub proof fn law_a_page_keeps_its_cursor<A, P, M>(type_: i32)
    ensures
        forall|page: &mut Page<A, P, M>| #[trigger]
            call_ensures(Page::<A, P, M>::on_cursor_change, (page, type_), ()) ==> {
                &&& final(page).cursor@ is Some
                &&& final(page).cursor@->0 is Default <==> type_ == 0
                &&& final(page).cursor@->0 is Pointer <==> type_ == 2
                &&& final(page).cursor@->0 is Text <==> type_ == 3 || type_ == 30
                &&& final(page).cursor@->0 is Wait <==> type_ == 4
            },
{
}

} // verus!
