//! Cookie reads and writes.
//!
//! Reads are asynchronous: cookies arrive one at a time through a visitor, so a
//! host asks first and is told later. A blocking getter would wait on the very
//! loop that delivers the answer.
//!
//! The browser calls the visitor once per cookie, and never at all when there
//! are none. Completion cannot be told from those calls alone, but the visitor
//! is released when the walk ends either way, so that release is the signal.
use vstd::prelude::*;
use vstd::string::*;
use crate::error::{browser_op, is_browser_op, WeldError};
use crate::events::{CefSurfaceEvent, WebEventQueue, WebRequestId};
use crate::surface::{Cookie, SameSite};
use crate::text::joined3;

verus! {

/// Collects a visitor's cookies until the read finishes, then hands the batch to
/// the host exactly once. One read is in flight at a time.
#[derive(Debug)]
pub struct CookieJar {
    state: Option<(WebRequestId, Vec<Cookie>)>,
}

impl View for CookieJar {
    type V = Option<(WebRequestId, Seq<Cookie>)>;

    /// The read in flight and what it has collected.
    closed spec fn view(&self) -> Option<(WebRequestId, Seq<Cookie>)> {
        match self.state {
            Some((id, batch)) => Some((id, batch@)),
            None => None,
        }
    }
}

/// The event that answers a read with a batch.
pub open spec fn delivers(event: CefSurfaceEvent, id: WebRequestId, batch: Seq<Cookie>) -> bool {
    event matches CefSurfaceEvent::CookiesCompleted { id: settled, result: Ok(cookies) } && settled
        == id && cookies@ == batch
}

/// The event that ends a read without an answer.
pub open spec fn gives_up(event: CefSurfaceEvent, id: WebRequestId, reason: Seq<char>) -> bool {
    event matches CefSurfaceEvent::CookiesCompleted { id: settled, result: Err(text) } && settled
        == id && text@ == reason
}

impl CookieJar {
    /// Whether the read of `id` is in flight.
    pub open spec fn reads(&self, id: WebRequestId) -> bool {
        self@ matches Some((active, _)) && active == id
    }

    pub fn new() -> (jar: Self)
        ensures
            jar@ is None,
    {
        CookieJar { state: None }
    }

    /// Start a read, unless one is in flight.
    pub fn begin(&mut self, id: WebRequestId) -> (accepted: Result<(), WeldError>)
        ensures
            match accepted {
                Ok(()) => old(self)@ is None && final(self)@ == Some((id, Seq::<Cookie>::empty())),
                Err(error) => old(self)@ is Some && final(self)@ == old(self)@ && is_browser_op(
                    error,
                    "a cookie read is already in flight"@,
                ),
            },
    {
        if self.state.is_some() {
            return Err(browser_op("a cookie read is already in flight"));
        }
        self.state = Some((id, Vec::new()));
        Ok(())
    }

    /// Add a cookie to the read in flight. Without one it is dropped.
    pub fn push(&mut self, cookie: Cookie)
        ensures
            final(self)@ == match old(self)@ {
                Some((id, batch)) => Some((id, batch.push(cookie))),
                None => None,
            },
    {
        match self.state.take() {
            Some((id, mut batch)) => {
                batch.push(cookie);
                self.state = Some((id, batch));
            },
            None => {},
        }
    }

    /// Publish what the read of `id` collected as its answer. Does nothing where
    /// that read is not in flight.
    pub fn finish(&mut self, events: &mut WebEventQueue, id: WebRequestId)
        ensures
            !final(self).reads(id),
            if old(self).reads(id) {
                &&& final(self)@ is None
                &&& final(events)@.len() == old(events)@.len() + 1
                &&& final(events)@.drop_last() == old(events)@
                &&& delivers(final(events)@.last(), id, (old(self)@->0).1)
            } else {
                &&& final(self)@ == old(self)@
                &&& final(events)@ == old(events)@
            },
    {
        match self.state.take() {
            Some((active, batch)) => {
                if active == id {
                    events.push(CefSurfaceEvent::CookiesCompleted { id, result: Ok(batch) });
                    assert(events@.drop_last() =~= old(events)@);
                } else {
                    self.state = Some((active, batch));
                }
            },
            None => {},
        }
    }

    /// Forget the read of `id`, without an answer.
    pub fn abort(&mut self, id: WebRequestId)
        ensures
            final(self)@ == (if old(self).reads(id) {
                None
            } else {
                old(self)@
            }),
    {
        let active = match &self.state {
            Some((active, _)) => *active == id,
            None => false,
        };
        if active {
            self.state = None;
        }
    }

    /// End the read in flight, if any, with an error.
    pub fn fail_active(&mut self, events: &mut WebEventQueue, reason: &str)
        ensures
            final(self)@ is None,
            match old(self)@ {
                Some((id, _)) => {
                    &&& final(events)@.len() == old(events)@.len() + 1
                    &&& final(events)@.drop_last() == old(events)@
                    &&& gives_up(final(events)@.last(), id, reason@)
                },
                None => final(events)@ == old(events)@,
            },
    {
        match self.state.take() {
            Some((id, _)) => {
                events.push(
                    CefSurfaceEvent::CookiesCompleted { id, result: Err(reason.to_owned()) },
                );
                assert(events@.drop_last() =~= old(events)@);
            },
            None => {},
        }
    }

    /// Start a read and get the guard that ends it.
    pub fn begin_visit(&mut self, id: WebRequestId) -> (guard: Result<FinishOnDrop, WeldError>)
        ensures
            match guard {
                Ok(guard) => {
                    &&& old(self)@ is None
                    &&& final(self)@ == Some((id, Seq::<Cookie>::empty()))
                    &&& guard.id() == id
                    &&& guard.armed()
                    &&& guard.handles() == 1
                },
                Err(error) => old(self)@ is Some && final(self)@ == old(self)@ && is_browser_op(
                    error,
                    "a cookie read is already in flight"@,
                ),
            },
    {
        match self.begin(id) {
            Ok(()) => Ok(FinishOnDrop::new(id)),
            Err(error) => Err(error),
        }
    }

    /// The browser took or refused the visit that was just begun. A refused one
    /// ends without an answer.
    pub fn visit_answered(&mut self, guard: &mut FinishOnDrop, accepted: bool) -> (outcome: Result<
        (),
        WeldError,
    >)
        ensures
            final(guard).id() == old(guard).id(),
            final(guard).handles() == old(guard).handles(),
            outcome is Ok <==> accepted,
            match outcome {
                Ok(()) => final(self)@ == old(self)@ && final(guard).armed() == old(guard).armed(),
                Err(error) => {
                    &&& !final(self).reads(old(guard).id())
                    &&& final(self)@ == (if old(self).reads(old(guard).id()) {
                        None
                    } else {
                        old(self)@
                    })
                    &&& !final(guard).armed()
                    &&& is_browser_op(error, "CEF refused the cookie visit"@)
                },
            },
    {
        if accepted {
            return Ok(());
        }
        guard.disarm();
        self.abort(guard.id);
        Err(browser_op("CEF refused the cookie visit"))
    }
}

/// Publishes a read's batch when the last handle to its visitor goes.
#[derive(Debug)]
pub struct FinishOnDrop {
    id: WebRequestId,
    armed: bool,
    handles: u64,
}

impl FinishOnDrop {
    /// The read that the guard ends.
    pub closed spec fn id(&self) -> WebRequestId {
        self.id
    }

    /// Whether the guard still publishes.
    pub closed spec fn armed(&self) -> bool {
        self.armed
    }

    /// How many handles to the visitor there are.
    pub closed spec fn handles(&self) -> u64 {
        self.handles
    }

    pub fn new(id: WebRequestId) -> (guard: Self)
        ensures
            guard.id() == id,
            guard.armed(),
            guard.handles() == 1,
    {
        FinishOnDrop { id, armed: true, handles: 1 }
    }

    /// There is one more handle.
    pub fn share(&mut self)
        requires
            0 < old(self).handles() < u64::MAX,
        ensures
            final(self).handles() == old(self).handles() + 1,
            final(self).id() == old(self).id(),
            final(self).armed() == old(self).armed(),
    {
        self.handles = self.handles + 1;
    }

    /// A handle goes. With the last one the read is over, and its batch is
    /// published unless the guard was disarmed.
    pub fn release(&mut self, jar: &mut CookieJar, events: &mut WebEventQueue)
        requires
            old(self).handles() > 0,
        ensures
            final(self).handles() == old(self).handles() - 1,
            final(self).id() == old(self).id(),
            final(self).armed() == old(self).armed(),
            if old(self).handles() == 1 && old(self).armed() && old(jar).reads(old(self).id()) {
                &&& final(jar)@ is None
                &&& final(events)@.len() == old(events)@.len() + 1
                &&& final(events)@.drop_last() == old(events)@
                &&& delivers(final(events)@.last(), old(self).id(), (old(jar)@->0).1)
            } else {
                &&& final(jar)@ == old(jar)@
                &&& final(events)@ == old(events)@
            },
    {
        self.handles = self.handles - 1;
        if self.handles == 0 && self.armed {
            jar.finish(events, self.id);
        }
    }

    /// The guard publishes nothing from here on.
    pub fn disarm(&mut self)
        ensures
            !final(self).armed(),
            final(self).id() == old(self).id(),
            final(self).handles() == old(self).handles(),
    {
        self.armed = false;
    }
}

/// How often `events` settle the read of `id`, with an answer or without.
pub open spec fn reads_settled(events: Seq<CefSurfaceEvent>, id: WebRequestId) -> nat
    decreases events.len(),
{
    if events.len() == 0 {
        0
    } else {
        reads_settled(events.drop_last(), id) + match events.last() {
            CefSurfaceEvent::CookiesCompleted { id: settled, .. } if settled == id => 1nat,
            _ => 0nat,
        }
    }
}

/// Whether the read of `id` is in flight, as a number.
pub open spec fn read_in_flight(
    state: Option<(WebRequestId, Seq<Cookie>)>,
    id: WebRequestId,
) -> nat {
    match state {
        Some((active, _)) if active == id => 1,
        _ => 0,
    }
}

/// A read that was accepted is settled once, by its answer or by giving up: what
/// was settled and what is still in flight stay the same together. An empty
/// batch settles a read like any other.
pub proof fn law_a_read_settles_once(
    state: Option<(WebRequestId, Seq<Cookie>)>,
    before: Seq<CefSurfaceEvent>,
    after: Seq<CefSurfaceEvent>,
    reason: Seq<char>,
    id: WebRequestId,
)
    requires
        state is Some,
        after.len() == before.len() + 1,
        after.drop_last() == before,
        delivers(after.last(), (state->0).0, (state->0).1) || gives_up(
            after.last(),
            (state->0).0,
            reason,
        ),
    ensures
        reads_settled(after, id) == reads_settled(before, id) + read_in_flight(state, id),
{
}

// ── The browser's own cookies ─────────────────────────────────────────────────

/// `CEF_COOKIE_SAME_SITE_UNSPECIFIED`.
pub const SAME_SITE_UNSPECIFIED: i32 = 0;

/// `CEF_COOKIE_SAME_SITE_NO_RESTRICTION`.
pub const SAME_SITE_NO_RESTRICTION: i32 = 1;

/// `CEF_COOKIE_SAME_SITE_LAX_MODE`.
pub const SAME_SITE_LAX_MODE: i32 = 2;

/// `CEF_COOKIE_SAME_SITE_STRICT_MODE`.
pub const SAME_SITE_STRICT_MODE: i32 = 3;

/// A cookie as the browser carries it.
#[derive(Debug)]
pub struct RawCookie {
    pub name: String,
    pub value: String,
    pub domain: String,
    pub path: String,
    pub secure: i32,
    pub httponly: i32,
    pub has_expires: i32,
    /// Microseconds of base time. Means nothing where `has_expires` is zero.
    pub expires: i64,
    pub same_site: i32,
}

/// The same-site mode of a raw value.
pub open spec fn same_site_of(raw: i32) -> Option<SameSite> {
    if raw == SAME_SITE_STRICT_MODE {
        Some(SameSite::Strict)
    } else if raw == SAME_SITE_LAX_MODE {
        Some(SameSite::Lax)
    } else if raw == SAME_SITE_NO_RESTRICTION {
        Some(SameSite::NoRestriction)
    } else {
        None
    }
}

/// The raw value of a same-site mode.
pub open spec fn raw_same_site(mode: Option<SameSite>) -> i32 {
    match mode {
        Some(SameSite::Strict) => SAME_SITE_STRICT_MODE,
        Some(SameSite::Lax) => SAME_SITE_LAX_MODE,
        Some(SameSite::NoRestriction) => SAME_SITE_NO_RESTRICTION,
        None => SAME_SITE_UNSPECIFIED,
    }
}

/// The cookie that the browser's cookie stands for.
pub open spec fn cookie_of(raw: RawCookie) -> Cookie {
    Cookie {
        name: raw.name,
        value: raw.value,
        domain: raw.domain,
        path: raw.path,
        secure: raw.secure != 0,
        http_only: raw.httponly != 0,
        same_site: same_site_of(raw.same_site),
        expires: if raw.has_expires != 0 {
            Some(raw.expires)
        } else {
            None
        },
        partitioned: false,
    }
}

/// The browser's form of a cookie.
pub open spec fn raw_of(cookie: Cookie) -> RawCookie {
    RawCookie {
        name: cookie.name,
        value: cookie.value,
        domain: cookie.domain,
        path: cookie.path,
        secure: if cookie.secure {
            1
        } else {
            0
        },
        httponly: if cookie.http_only {
            1
        } else {
            0
        },
        has_expires: if cookie.expires is Some {
            1
        } else {
            0
        },
        expires: match cookie.expires {
            Some(expires) => expires,
            None => 0,
        },
        same_site: raw_same_site(cookie.same_site),
    }
}

/// The cookie that the browser's cookie stands for.
pub fn from_cef(raw: RawCookie) -> (cookie: Cookie)
    ensures
        cookie == cookie_of(raw),
        cookie.name == raw.name,
        cookie.value == raw.value,
        cookie.domain == raw.domain,
        cookie.path == raw.path,
{
    Cookie {
        name: raw.name,
        value: raw.value,
        domain: raw.domain,
        path: raw.path,
        secure: raw.secure != 0,
        http_only: raw.httponly != 0,
        same_site: if raw.same_site == SAME_SITE_STRICT_MODE {
            Some(SameSite::Strict)
        } else if raw.same_site == SAME_SITE_LAX_MODE {
            Some(SameSite::Lax)
        } else if raw.same_site == SAME_SITE_NO_RESTRICTION {
            Some(SameSite::NoRestriction)
        } else {
            None
        },
        expires: if raw.has_expires != 0 {
            Some(raw.expires)
        } else {
            None
        },
        partitioned: false,
    }
}

/// The browser's form of a cookie.
pub fn to_cef(cookie: Cookie) -> (raw: RawCookie)
    ensures
        raw == raw_of(cookie),
        raw.name == cookie.name,
        raw.value == cookie.value,
        raw.domain == cookie.domain,
        raw.path == cookie.path,
{
    RawCookie {
        name: cookie.name,
        value: cookie.value,
        domain: cookie.domain,
        path: cookie.path,
        secure: if cookie.secure {
            1
        } else {
            0
        },
        httponly: if cookie.http_only {
            1
        } else {
            0
        },
        has_expires: if cookie.expires.is_some() {
            1
        } else {
            0
        },
        expires: match cookie.expires {
            Some(expires) => expires,
            None => 0,
        },
        same_site: match cookie.same_site {
            Some(SameSite::Strict) => SAME_SITE_STRICT_MODE,
            Some(SameSite::Lax) => SAME_SITE_LAX_MODE,
            Some(SameSite::NoRestriction) => SAME_SITE_NO_RESTRICTION,
            None => SAME_SITE_UNSPECIFIED,
        },
    }
}

/// A cookie that is written reads back as it was, as long as it is not
/// partitioned: the browser's form cannot say so.
pub proof fn law_cookies_survive_the_browser(cookie: Cookie)
    requires
        !cookie.partitioned,
    ensures
        cookie_of(raw_of(cookie)) == cookie,
{
}

/// Which part of the way to a browser's cookies exists.
#[derive(Clone, Copy, Debug, PartialEq, Eq, Structural)]
pub enum CookieManagerPath {
    NoHost,
    NoContext,
    NoManager,
    Complete,
}

/// Cookies are reached through the browser's own context, never through one that
/// browsers share.
pub fn manager(path: CookieManagerPath) -> (found: Result<(), WeldError>)
    ensures
        match path {
            CookieManagerPath::NoHost => found matches Err(error) && is_browser_op(
                error,
                "browser has no CEF host for its cookie context"@,
            ),
            CookieManagerPath::NoContext => found matches Err(error) && is_browser_op(
                error,
                "browser has no CEF request context for cookies"@,
            ),
            CookieManagerPath::NoManager => found matches Err(error) && is_browser_op(
                error,
                "CEF request context has no cookie manager"@,
            ),
            CookieManagerPath::Complete => found is Ok,
        },
{
    match path {
        CookieManagerPath::NoHost => Err(
            browser_op("browser has no CEF host for its cookie context"),
        ),
        CookieManagerPath::NoContext => Err(
            browser_op("browser has no CEF request context for cookies"),
        ),
        CookieManagerPath::NoManager => Err(browser_op("CEF request context has no cookie manager")),
        CookieManagerPath::Complete => Ok(()),
    }
}

/// What writing a cookie for `url` came to.
pub fn set_answered(url: &str, accepted: bool) -> (outcome: Result<(), WeldError>)
    ensures
        outcome is Ok <==> accepted,
        outcome matches Err(error) ==> is_browser_op(
            error,
            "CEF rejected the cookie for "@ + url@
                + "; check the domain and path against the URL"@,
        ),
{
    if accepted {
        Ok(())
    } else {
        Err(
            WeldError::BrowserOp(
                joined3(
                    "CEF rejected the cookie for ",
                    url,
                    "; check the domain and path against the URL",
                ),
            ),
        )
    }
}

/// What deleting cookies came to.
pub fn delete_answered(accepted: bool) -> (outcome: Result<(), WeldError>)
    ensures
        outcome is Ok <==> accepted,
        outcome matches Err(error) ==> is_browser_op(error, "CEF refused the cookie delete"@),
{
    if accepted {
        Ok(())
    } else {
        Err(browser_op("CEF refused the cookie delete"))
    }
}

/// A cookie is written as what it is: its own name, value, domain and path, its
/// own flags, the time it expires if it does, and the mode it was given.
pub proof fn law_a_cookie_is_written_as_it_is(cookie: Cookie, raw: RawCookie)
    requires
        call_ensures(to_cef, (cookie,), raw),
    ensures
        raw.name == cookie.name,
        raw.value == cookie.value,
        raw.domain == cookie.domain,
        raw.path == cookie.path,
        raw.secure != 0 <==> cookie.secure,
        raw.httponly != 0 <==> cookie.http_only,
        raw.has_expires != 0 <==> cookie.expires is Some,
        cookie.expires matches Some(at) ==> raw.expires == at,
        cookie.expires is None ==> raw.expires == 0,
        raw.same_site == 3 <==> cookie.same_site == Some(SameSite::Strict),
        raw.same_site == 2 <==> cookie.same_site == Some(SameSite::Lax),
        raw.same_site == 1 <==> cookie.same_site == Some(SameSite::NoRestriction),
        raw.same_site == 0 <==> cookie.same_site is None,
{
}

/// A cookie is read as what it is: its own name, value, domain and path, its own
/// flags, the time it expires if it does, and the mode that it names.
pub proof fn law_a_cookie_is_read_as_it_is(raw: RawCookie, cookie: Cookie)
    requires
        call_ensures(from_cef, (raw,), cookie),
    ensures
        cookie.name == raw.name,
        cookie.value == raw.value,
        cookie.domain == raw.domain,
        cookie.path == raw.path,
        cookie.secure <==> raw.secure != 0,
        cookie.http_only <==> raw.httponly != 0,
        cookie.expires is Some <==> raw.has_expires != 0,
        cookie.expires matches Some(at) ==> at == raw.expires,
        cookie.same_site == Some(SameSite::Strict) <==> raw.same_site == 3,
        cookie.same_site == Some(SameSite::Lax) <==> raw.same_site == 2,
        cookie.same_site == Some(SameSite::NoRestriction) <==> raw.same_site == 1,
        !cookie.partitioned,
{
}

/// The read in flight is answered with what it collected, in order, and with
/// nothing else. A read that is not in flight is not answered.
pub proof fn law_a_read_is_answered_with_its_cookies(
    before: CookieJar,
    after: CookieJar,
    told_before: WebEventQueue,
    told: WebEventQueue,
    id: WebRequestId,
)
    requires
        exists|jar: &mut CookieJar, events: &mut WebEventQueue|
            *jar == before && *final(jar) == after && *events == told_before && *final(events)
                == told && #[trigger] call_ensures(CookieJar::finish, (jar, events, id), ()),
    ensures
        before@ matches Some((active, batch)) && active == id ==> {
            &&& after@ is None
            &&& told@.drop_last() == told_before@
            &&& told@.last() matches CefSurfaceEvent::CookiesCompleted { id: settled, result }
                && settled == id && result is Ok && result->Ok_0@ == (before@->0).1
        },
        !(before@ matches Some((active, _)) && active == id) ==> after@ == before@ && told@
            == told_before@,
{
}

/// A cookie that is collected goes behind those of the same read.
pub proof fn law_cookies_are_collected_in_order(before: CookieJar, after: CookieJar, cookie: Cookie)
    requires
        exists|jar: &mut CookieJar|
            *jar == before && *final(jar) == after && #[trigger] call_ensures(
                CookieJar::push,
                (jar, cookie),
                (),
            ),
    ensures
        before@ is None ==> after@ is None,
        before@ matches Some((id, batch)) ==> (after@ matches Some((same, more)) && same == id
            && more.len() == batch.len() + 1 && more.last() == cookie && more.drop_last() == batch),
{
    if let Some((id, batch)) = before@ {
        assert(batch.push(cookie).drop_last() =~= batch);
    }
}

/// Giving up tells the host of the read in flight why, and leaves none.
pub proof fn law_giving_up_says_why(
    before: CookieJar,
    after: CookieJar,
    told_before: WebEventQueue,
    told: WebEventQueue,
    reason: &str,
)
    requires
        exists|jar: &mut CookieJar, events: &mut WebEventQueue|
            *jar == before && *final(jar) == after && *events == told_before && *final(events)
                == told && #[trigger] call_ensures(
                CookieJar::fail_active,
                (jar, events, reason),
                (),
            ),
    ensures
        after@ is None,
        before@ is None ==> told@ == told_before@,
        before@ matches Some((id, _)) ==> {
            &&& told@.drop_last() == told_before@
            &&& told@.last() matches CefSurfaceEvent::CookiesCompleted { id: settled, result }
                && settled == id && result is Err && result->Err_0@ == reason@
        },
{
}

/// The last handle of a read that is still armed answers it; no other does, and
/// nothing answers one that was disarmed.
pub proof fn law_the_last_handle_answers(
    before: FinishOnDrop,
    after: FinishOnDrop,
    jar_before: CookieJar,
    jar: CookieJar,
    told_before: WebEventQueue,
    told: WebEventQueue,
)
    requires
        before.handles() > 0,
        exists|guard: &mut FinishOnDrop, cookies: &mut CookieJar, events: &mut WebEventQueue|
            *guard == before && *final(guard) == after && *cookies == jar_before && *final(cookies)
                == jar && *events == told_before && *final(events) == told
                && #[trigger] call_ensures(FinishOnDrop::release, (guard, cookies, events), ()),
    ensures
        after.handles() == before.handles() - 1,
        before.handles() > 1 || !before.armed() ==> told@ == told_before@ && jar@ == jar_before@,
        before.handles() == 1 && before.armed() && (jar_before@ matches Some((id, _)) && id
            == before.id()) ==> {
            &&& jar@ is None
            &&& told@.len() == told_before@.len() + 1
            &&& told@.last() matches CefSurfaceEvent::CookiesCompleted { id, result } && id
                == before.id() && result is Ok && result->Ok_0@ == (jar_before@->0).1
        },
{
}

/// A visit that was refused is not waited for any longer, and its handles answer
/// nothing. One that was taken goes on.
pub proof fn law_a_refused_visit_answers_nothing(
    before: CookieJar,
    after: CookieJar,
    guard_before: FinishOnDrop,
    guard: FinishOnDrop,
    accepted: bool,
    outcome: Result<(), WeldError>,
)
    requires
        exists|jar: &mut CookieJar, handle: &mut FinishOnDrop|
            *jar == before && *final(jar) == after && *handle == guard_before && *final(handle)
                == guard && #[trigger] call_ensures(
                CookieJar::visit_answered,
                (jar, handle, accepted),
                outcome,
            ),
    ensures
        outcome is Ok <==> accepted,
        accepted ==> after@ == before@ && guard.armed() == guard_before.armed(),
        !accepted ==> !guard.armed() && !(after@ matches Some((id, _)) && id == guard_before.id()),
        guard.id() == guard_before.id(),
{
}

/// A write or a delete succeeded exactly where the browser took it, and cookies are
/// reached exactly where the way to them is complete.
pub proof fn law_cookie_answers_are_the_browsers(
    url: &str,
    accepted: bool,
    path: CookieManagerPath,
    set: Result<(), WeldError>,
    deleted: Result<(), WeldError>,
    found: Result<(), WeldError>,
)
    requires
        call_ensures(set_answered, (url, accepted), set),
        call_ensures(delete_answered, (accepted,), deleted),
        call_ensures(manager, (path,), found),
    ensures
        set is Ok <==> accepted,
        deleted is Ok <==> accepted,
        found is Ok <==> path == CookieManagerPath::Complete,
        set matches Err(error) ==> error is BrowserOp,
        deleted matches Err(error) ==> error is BrowserOp,
        found matches Err(error) ==> error is BrowserOp,
{
}

} // verus!
