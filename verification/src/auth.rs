//! HTTP authentication challenges.
//!
//! A server (or a proxy) demands credentials, and the host is asked for them.
//! The answer may come later, so the challenge is held and the host replies on
//! its own schedule.
//!
//! Holding it has a cost, which is why answering is opt-in. An unanswered
//! challenge keeps the request open indefinitely, so a host that never wired
//! the event up would hang every authenticated request instead of failing it.
//! With answering off, a challenge is reported and declined at once, which is an
//! ordinary authentication failure to the page.
//!
//! No event carries a user name or a password. The credentials the host supplies
//! go straight to the browser.
use vstd::prelude::*;
use vstd::string::*;
use std::collections::HashMap;
use crate::error::{is_unsupported, WeldError};
use crate::events::{one_more, AuthId, CefSurfaceEvent, NavigationEvent, WebEventQueue};
use crate::ids::{following, IdCounter};

verus! {

/// A challenge as it arrives.
#[derive(Debug)]
pub struct Challenge {
    pub origin_url: String,
    pub is_proxy: bool,
    pub host: String,
    pub port: i32,
    pub realm: String,
    pub scheme: String,
}

/// What to do about a challenge that was just reported.
#[derive(Debug)]
pub enum ChallengeAction<C> {
    /// There is no callback, so there is nothing to answer.
    Unanswerable,
    /// The challenge waits for the host.
    Held,
    /// Decline the challenge now.
    DeclineNow(C),
}

/// `port` moved into the range of port numbers.
pub open spec fn clamped_port(port: i32) -> int {
    if port < 0 {
        0
    } else if port > 0xffff {
        0xffff
    } else {
        port as int
    }
}

/// The auth challenges of one surface.
#[derive(Debug)]
pub struct AuthChallenges<C> {
    ids: IdCounter,
    enabled: bool,
    pending: HashMap<AuthId, C>,
}

impl<C> Default for AuthChallenges<C> {
    fn default() -> (challenges: Self)
        ensures
            challenges.last_id() == 0,
            !challenges.enabled(),
            challenges.pending() == Map::<AuthId, C>::empty(),
    {
        AuthChallenges { ids: IdCounter::default(), enabled: false, pending: HashMap::new() }
    }
}

impl<C> AuthChallenges<C> {
    /// The last id that was handed out.
    pub closed spec fn last_id(&self) -> u32 {
        self.ids@
    }

    /// Whether the host answers challenges itself.
    pub closed spec fn enabled(&self) -> bool {
        self.enabled
    }

    /// The challenges that wait for the host.
    pub closed spec fn pending(&self) -> Map<AuthId, C> {
        self.pending@
    }

    pub fn set_enabled(&mut self, enabled: bool)
        ensures
            final(self).enabled() == enabled,
            final(self).last_id() == old(self).last_id(),
            final(self).pending() == old(self).pending(),
    {
        self.enabled = enabled;
    }

    pub fn is_enabled(&self) -> (enabled: bool)
        ensures
            enabled == self.enabled(),
    {
        self.enabled
    }

    /// The id the host will answer with.
    pub fn next_id(&mut self) -> (id: AuthId)
        ensures
            id == following(old(self).last_id()),
            id != 0,
            final(self).last_id() == id,
            final(self).enabled() == old(self).enabled(),
            final(self).pending() == old(self).pending(),
    {
        self.ids.next()
    }

    /// Hold a challenge until the host answers it.
    pub fn hold(&mut self, id: AuthId, callback: C)
        ensures
            final(self).pending() == old(self).pending().insert(id, callback),
            final(self).last_id() == old(self).last_id(),
            final(self).enabled() == old(self).enabled(),
    {
        broadcast use vstd::std_specs::hash::group_hash_axioms;

        self.pending.insert(id, callback);
    }

    /// Take a held challenge, which is then no longer held.
    pub fn take(&mut self, id: AuthId) -> (callback: Option<C>)
        ensures
            callback == (if old(self).pending().contains_key(id) {
                Some(old(self).pending()[id])
            } else {
                None
            }),
            final(self).pending() == old(self).pending().remove(id),
            final(self).last_id() == old(self).last_id(),
            final(self).enabled() == old(self).enabled(),
    {
        broadcast use vstd::std_specs::hash::group_hash_axioms;

        let callback = self.pending.remove(&id);
        assert(self.pending() =~= old(self).pending().remove(id));
        callback
    }

    /// How many challenges wait for the host. A number that only grows means
    /// the host is told about challenges and never answers.
    pub fn outstanding(&self) -> (count: usize)
        ensures
            count == self.pending().len(),
    {
        broadcast use vstd::std_specs::hash::group_hash_axioms;

        self.pending.len()
    }

    /// A server or proxy demanded credentials. The challenge is reported, and
    /// then held for the host or declined at once.
    pub fn auth_credentials(
        &mut self,
        events: &mut WebEventQueue,
        challenge: Challenge,
        callback: Option<C>,
    ) -> (action: ChallengeAction<C>)
        ensures
            one_more(*old(events), *final(events)),
            final(events)@.last() matches CefSurfaceEvent::Navigation(
                NavigationEvent::AuthChallenged {
                    id,
                    origin_url,
                    host,
                    port,
                    realm,
                    scheme,
                    is_proxy,
                },
            ) && id == following(old(self).last_id()) && origin_url == challenge.origin_url && host
                == challenge.host && port == clamped_port(challenge.port) && realm
                == challenge.realm && scheme == challenge.scheme && is_proxy == challenge.is_proxy,
            final(self).last_id() == following(old(self).last_id()),
            final(self).enabled() == old(self).enabled(),
            action == match callback {
                None => ChallengeAction::Unanswerable,
                Some(callback) => if old(self).enabled() {
                    ChallengeAction::Held
                } else {
                    ChallengeAction::DeclineNow(callback)
                },
            },
            final(self).pending() == (if callback is Some && old(self).enabled() {
                old(self).pending().insert(following(old(self).last_id()), callback->0)
            } else {
                old(self).pending()
            }),
    {
        let id: AuthId = self.next_id();
        let port: u16 = if challenge.port < 0 {
            0
        } else if challenge.port > 0xffff {
            0xffff
        } else {
            challenge.port as u16
        };
        events.push_navigation(
            NavigationEvent::AuthChallenged {
                id,
                origin_url: challenge.origin_url,
                host: challenge.host,
                port,
                realm: challenge.realm,
                scheme: challenge.scheme,
                is_proxy: challenge.is_proxy,
            },
        );
        assert(events@.drop_last() =~= old(events)@);
        match callback {
            None => ChallengeAction::Unanswerable,
            Some(callback) => if self.is_enabled() {
                self.hold(id, callback);
                ChallengeAction::Held
            } else {
                ChallengeAction::DeclineNow(callback)
            },
        }
    }

    /// Take the callback of a held challenge, to answer or to decline it. A
    /// challenge is answered once: an id that is not held, or not any more, is
    /// an error rather than a silent no-op.
    pub fn answer_auth(&mut self, id: AuthId) -> (callback: Result<C, WeldError>)
        ensures
            final(self).pending() == old(self).pending().remove(id),
            !final(self).pending().contains_key(id),
            final(self).last_id() == old(self).last_id(),
            final(self).enabled() == old(self).enabled(),
            match callback {
                Ok(callback) => old(self).pending().contains_key(id) && callback
                    == old(self).pending()[id],
                Err(error) => !old(self).pending().contains_key(id) && is_unsupported(
                    error,
                    "no auth challenge is waiting on that id"@,
                ),
            },
    {
        match self.take(id) {
            None => Err(WeldError::PlatformUnsupported("no auth challenge is waiting on that id")),
            Some(callback) => Ok(callback),
        }
    }
}

/// A challenge is told to the host as the server made it, under an id that is not
/// zero. The port is the one that was named, held to what a port can be.
pub proof fn law_a_challenge_is_told_as_it_came<C>(
    before: AuthChallenges<C>,
    after: AuthChallenges<C>,
    told_before: WebEventQueue,
    told: WebEventQueue,
    challenge: Challenge,
    callback: Option<C>,
    action: ChallengeAction<C>,
)
    requires
        exists|challenges: &mut AuthChallenges<C>, events: &mut WebEventQueue|
            *challenges == before && *final(challenges) == after && *events == told_before
                && *final(events) == told && #[trigger] call_ensures(
                AuthChallenges::<C>::auth_credentials,
                (challenges, events, challenge, callback),
                action,
            ),
    ensures
        told@.len() == told_before@.len() + 1,
        told@.drop_last() == told_before@,
        told@.last() matches CefSurfaceEvent::Navigation(
            NavigationEvent::AuthChallenged {
                id,
                origin_url,
                host,
                port,
                realm,
                scheme,
                is_proxy,
            },
        ) && id != 0 && origin_url == challenge.origin_url && host == challenge.host && realm
            == challenge.realm && scheme == challenge.scheme && is_proxy == challenge.is_proxy && (0
            <= challenge.port <= 0xffff ==> port == challenge.port) && (challenge.port < 0 ==> port
            == 0) && (challenge.port > 0xffff ==> port == 0xffff),
        callback is None ==> action is Unanswerable && after.pending() == before.pending(),
        callback is Some ==> !(action is Unanswerable),
{
}

/// A challenge that the host answers waits for it, under the id that was told, and
/// the answer goes to the one that asked. With answering off it is declined at
/// once, and nothing waits.
pub proof fn law_a_challenge_waits_for_its_answer<C>(
    before: AuthChallenges<C>,
    held: AuthChallenges<C>,
    after: AuthChallenges<C>,
    told_before: WebEventQueue,
    told: WebEventQueue,
    challenge: Challenge,
    asked: C,
    action: ChallengeAction<C>,
    answered: Result<C, WeldError>,
)
    requires
        exists|challenges: &mut AuthChallenges<C>, events: &mut WebEventQueue|
            *challenges == before && *final(challenges) == held && *events == told_before
                && *final(events) == told && #[trigger] call_ensures(
                AuthChallenges::<C>::auth_credentials,
                (challenges, events, challenge, Some(asked)),
                action,
            ),
        exists|challenges: &mut AuthChallenges<C>, id: AuthId|
            *challenges == held && *final(challenges) == after && (
            told@.last() matches CefSurfaceEvent::Navigation(
                NavigationEvent::AuthChallenged { id: named, .. },
            ) && named == id) && #[trigger] call_ensures(
                AuthChallenges::<C>::answer_auth,
                (challenges, id),
                answered,
            ),
    ensures
        before.enabled() ==> action is Held && answered == Ok::<C, WeldError>(asked),
        !before.enabled() ==> action == ChallengeAction::DeclineNow(asked) && held.pending()
            == before.pending(),
{
}

/// Only a challenge that waits can be answered, and only once.
pub proof fn law_a_challenge_is_answered_once<C>(
    before: AuthChallenges<C>,
    after: AuthChallenges<C>,
    id: AuthId,
    answered: Result<C, WeldError>,
)
    requires
        exists|challenges: &mut AuthChallenges<C>|
            *challenges == before && *final(challenges) == after && #[trigger] call_ensures(
                AuthChallenges::<C>::answer_auth,
                (challenges, id),
                answered,
            ),
    ensures
        answered is Ok <==> before.pending().contains_key(id),
        answered matches Ok(callback) ==> callback == before.pending()[id],
        answered matches Err(error) ==> error is PlatformUnsupported,
        !after.pending().contains_key(id),
        forall|other: AuthId|
            other != id ==> (#[trigger] after.pending().contains_key(other)
                <==> before.pending().contains_key(other)),
{
}

} // verus!
