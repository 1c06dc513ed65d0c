//! Script requests: evaluated in the renderer, answered through an event.
//!
//! A script's value has to be fetched from the renderer process over a message
//! channel, so a request is accepted first and settles later. Every accepted
//! request settles exactly once: with the renderer's answer, or with the reason
//! why none will come.
use vstd::prelude::*;
use vstd::string::*;
use crate::error::{browser_op, is_browser_op, WeldError};
use crate::events::{CefSurfaceEvent, WebEventQueue, WebRequestId};
use crate::text::joined3;

verus! {

/// Name of the message that asks the renderer to evaluate a script.
pub const EVAL_REQUEST: &'static str = "weld.eval";

/// Name of the message in which the renderer answers.
pub const EVAL_RESULT: &'static str = "weld.eval.result";

/// Accepted script requests that have not settled yet, in the order in which
/// they were accepted.
#[derive(Debug)]
pub struct PendingScripts {
    ids: Vec<WebRequestId>,
}

impl View for PendingScripts {
    type V = Seq<WebRequestId>;

    closed spec fn view(&self) -> Seq<WebRequestId> {
        self.ids@
    }
}

/// The event that settles a request.
pub open spec fn settles(event: CefSurfaceEvent, id: WebRequestId) -> bool {
    event matches CefSurfaceEvent::ScriptCompleted { id: settled, .. } && settled == id
}

/// The event that settles a request with an error.
pub open spec fn fails(event: CefSurfaceEvent, id: WebRequestId, reason: Seq<char>) -> bool {
    event matches CefSurfaceEvent::ScriptCompleted { id: settled, result: Err(text) } && settled
        == id && text@ == reason
}

impl PendingScripts {
    /// No request is in flight twice.
    pub open spec fn well_formed(&self) -> bool {
        self@.no_duplicates()
    }

    pub fn new() -> (scripts: Self)
        ensures
            scripts@ == Seq::<WebRequestId>::empty(),
            scripts.well_formed(),
    {
        PendingScripts { ids: Vec::new() }
    }

    /// Where `id` stands among the requests in flight.
    fn position(&self, id: WebRequestId) -> (position: Option<usize>)
        ensures
            match position {
                Some(i) => i < self@.len() && self@[i as int] == id,
                None => !self@.contains(id),
            },
    {
        let mut i: usize = 0;
        while i < self.ids.len()
            invariant
                i <= self.ids.len(),
                forall|k: int| 0 <= k < i ==> #[trigger] self.ids@[k] != id,
            decreases self.ids.len() - i,
        {
            if self.ids[i] == id {
                return Some(i);
            }
            i += 1;
        }
        None
    }

    /// Accept a request, unless one with its id is in flight.
    pub fn begin(&mut self, id: WebRequestId) -> (accepted: Result<(), WeldError>)
        requires
            old(self).well_formed(),
        ensures
            final(self).well_formed(),
            match accepted {
                Ok(()) => !old(self)@.contains(id) && final(self)@ == old(self)@.push(id),
                Err(error) => old(self)@.contains(id) && final(self)@ == old(self)@
                    && is_browser_op(error, "that script request id is already in flight"@),
            },
    {
        if self.position(id).is_some() {
            return Err(browser_op("that script request id is already in flight"));
        }
        self.ids.push(id);
        Ok(())
    }

    /// Take a request out of those in flight.
    fn settle(&mut self, id: WebRequestId) -> (accepted: bool)
        requires
            old(self).well_formed(),
        ensures
            final(self).well_formed(),
            accepted == old(self)@.contains(id),
            final(self)@ == without(old(self)@, id),
    {
        match self.position(id) {
            Some(i) => {
                proof {
                    lemma_without(old(self)@, id, i as int);
                }
                let _ = self.ids.remove(i);
                true
            },
            None => {
                proof {
                    lemma_without_absent(old(self)@, id);
                }
                false
            },
        }
    }

    /// Settle a request with the renderer's answer. An answer to a request that
    /// is not in flight is dropped.
    pub fn complete(
        &mut self,
        events: &mut WebEventQueue,
        id: WebRequestId,
        result: Result<String, String>,
    )
        requires
            old(self).well_formed(),
        ensures
            final(self).well_formed(),
            final(self)@ == without(old(self)@, id),
            !final(self)@.contains(id),
            final(events)@ == (if old(self)@.contains(id) {
                old(events)@.push(CefSurfaceEvent::ScriptCompleted { id, result })
            } else {
                old(events)@
            }),
    {
        proof {
            lemma_without_lacks(self@, id);
        }
        if self.settle(id) {
            events.push(CefSurfaceEvent::ScriptCompleted { id, result });
        }
    }

    /// Forget a request that never reached the renderer.
    pub fn abort(&mut self, id: WebRequestId)
        requires
            old(self).well_formed(),
        ensures
            final(self).well_formed(),
            final(self)@ == without(old(self)@, id),
            !final(self)@.contains(id),
    {
        proof {
            lemma_without_lacks(self@, id);
        }
        let _ = self.settle(id);
    }

    /// Settle every request in flight with an error, in the order in which they
    /// were accepted.
    pub fn fail_all(&mut self, events: &mut WebEventQueue, reason: &str)
        ensures
            final(self)@ == Seq::<WebRequestId>::empty(),
            final(self).well_formed(),
            final(events)@.len() == old(events)@.len() + old(self)@.len(),
            final(events)@.take(old(events)@.len() as int) == old(events)@,
            forall|i: int|
                0 <= i < old(self)@.len() ==> fails(
                    #[trigger] final(events)@[old(events)@.len() + i],
                    old(self)@[i],
                    reason@,
                ),
    {
        let mut i: usize = 0;
        assert(events@.take(events@.len() as int) =~= events@);
        while i < self.ids.len()
            invariant
                i <= self.ids.len(),
                self.ids@ == old(self)@,
                events@.len() == old(events)@.len() + i,
                events@.take(old(events)@.len() as int) == old(events)@,
                forall|k: int|
                    0 <= k < i ==> fails(
                        #[trigger] events@[old(events)@.len() + k],
                        old(self)@[k],
                        reason@,
                    ),
            decreases self.ids.len() - i,
        {
            let ghost before = events@;
            events.push(
                CefSurfaceEvent::ScriptCompleted {
                    id: self.ids[i],
                    result: Err(reason.to_owned()),
                },
            );
            assert(events@.take(old(events)@.len() as int) =~= before.take(
                old(events)@.len() as int,
            ));
            i += 1;
        }
        self.ids = Vec::new();
        assert(self@ =~= Seq::<WebRequestId>::empty());
    }
}

/// `ids` without `id`.
pub open spec fn without(ids: Seq<WebRequestId>, id: WebRequestId) -> Seq<WebRequestId> {
    ids.filter(|other: WebRequestId| other != id)
}

proof fn lemma_without_absent(ids: Seq<WebRequestId>, id: WebRequestId)
    requires
        !ids.contains(id),
    ensures
        without(ids, id) == ids,
    decreases ids.len(),
{
    reveal(Seq::filter);
    if ids.len() > 0 {
        let rest = ids.drop_last();
        assert(ids[ids.len() - 1] == ids.last());
        if rest.contains(id) {
            let k = choose|k: int| 0 <= k < rest.len() && rest[k] == id;
            assert(ids[k] == id);
        }
        lemma_without_absent(rest, id);
        assert(rest.push(ids.last()) =~= ids);
    }
}

proof fn lemma_without(ids: Seq<WebRequestId>, id: WebRequestId, i: int)
    requires
        ids.no_duplicates(),
        0 <= i < ids.len(),
        ids[i] == id,
    ensures
        without(ids, id) == ids.remove(i),
        ids.remove(i).no_duplicates(),
    decreases ids.len(),
{
    reveal(Seq::filter);
    let rest = ids.drop_last();
    if i == ids.len() - 1 {
        assert forall|k: int| 0 <= k < rest.len() implies rest[k] != id by {
            assert(ids[k] != ids[i]);
        }
        lemma_without_absent(rest, id);
        assert(ids.remove(i) =~= rest);
    } else {
        lemma_without(rest, id, i);
        assert(ids[ids.len() - 1] != ids[i]);
        assert(ids.remove(i) =~= rest.remove(i).push(ids.last()));
    }
}

pub proof fn lemma_without_lacks(ids: Seq<WebRequestId>, id: WebRequestId)
    ensures
        !without(ids, id).contains(id),
    decreases ids.len(),
{
    reveal(Seq::filter);
    if ids.len() > 0 {
        let rest = ids.drop_last();
        lemma_without_lacks(rest, id);
        if without(ids, id).contains(id) {
            let all = without(ids, id);
            let k = choose|k: int| 0 <= k < all.len() && all[k] == id;
            if ids.last() != id {
                if k < all.len() - 1 {
                    assert(without(rest, id)[k] == id);
                }
            }
        }
    }
}

/// How often `events` settle a request.
pub open spec fn settlements(events: Seq<CefSurfaceEvent>, id: WebRequestId) -> nat
    decreases events.len(),
{
    if events.len() == 0 {
        0
    } else {
        settlements(events.drop_last(), id) + if settles(events.last(), id) {
            1nat
        } else {
            0nat
        }
    }
}

/// Whether a request is in flight, as a number.
pub open spec fn in_flight(ids: Seq<WebRequestId>, id: WebRequestId) -> nat {
    if ids.contains(id) {
        1
    } else {
        0
    }
}

/// An answer settles the request it belongs to, once, and no other: for every
/// request, what was settled and what is still to settle stay the same together.
pub proof fn law_an_answer_settles_its_request_once(
    ids: Seq<WebRequestId>,
    events: Seq<CefSurfaceEvent>,
    answered: WebRequestId,
    result: Result<String, String>,
    id: WebRequestId,
)
    requires
        ids.no_duplicates(),
    ensures
        ({
            let after = if ids.contains(answered) {
                events.push(CefSurfaceEvent::ScriptCompleted { id: answered, result })
            } else {
                events
            };
            settlements(after, id) + in_flight(without(ids, answered), id) == settlements(
                events,
                id,
            ) + in_flight(ids, id)
        }),
{
    let event = CefSurfaceEvent::ScriptCompleted { id: answered, result };
    assert(events.push(event).drop_last() =~= events);
    if ids.contains(answered) {
        let i = choose|i: int| 0 <= i < ids.len() && ids[i] == answered;
        lemma_without(ids, answered, i);
        let rest = ids.remove(i);
        if id == answered {
            lemma_without_lacks(ids, answered);
        } else if ids.contains(id) {
            let k = choose|k: int| 0 <= k < ids.len() && ids[k] == id;
            assert(rest[if k < i { k } else { k - 1 }] == id);
        } else if rest.contains(id) {
            let k = choose|k: int| 0 <= k < rest.len() && rest[k] == id;
            assert(ids[if k < i { k } else { k + 1 }] == id);
        }
    } else {
        lemma_without_absent(ids, answered);
    }
}

/// Failing all requests settles each of them, once, and no other.
pub proof fn law_failing_all_settles_each_once(
    ids: Seq<WebRequestId>,
    before: Seq<CefSurfaceEvent>,
    after: Seq<CefSurfaceEvent>,
    reason: Seq<char>,
    id: WebRequestId,
)
    requires
        ids.no_duplicates(),
        after.len() == before.len() + ids.len(),
        after.take(before.len() as int) == before,
        forall|i: int|
            0 <= i < ids.len() ==> fails(#[trigger] after[before.len() + i], ids[i], reason),
    ensures
        settlements(after, id) == settlements(before, id) + in_flight(ids, id),
    decreases ids.len(),
{
    if ids.len() == 0 {
        assert(after.take(before.len() as int) =~= after);
    } else {
        let rest = ids.drop_last();
        let shorter = after.drop_last();
        assert(shorter.take(before.len() as int) =~= after.take(before.len() as int));
        assert forall|i: int| 0 <= i < rest.len() implies fails(
            #[trigger] shorter[before.len() + i],
            rest[i],
            reason,
        ) by {
            assert(after[before.len() + i] == shorter[before.len() + i]);
        }
        law_failing_all_settles_each_once(rest, before, shorter, reason, id);
        let last = ids.len() - 1;
        assert(fails(after[before.len() + last], ids[last], reason));
        assert(after.last() == after[before.len() + last]);
        assert(ids[last] == ids.last());
        if ids.contains(id) && id != ids.last() {
            let k = choose|k: int| 0 <= k < ids.len() && ids[k] == id;
            assert(rest[k] == id);
        }
        if rest.contains(id) {
            let k = choose|k: int| 0 <= k < rest.len() && rest[k] == id;
            assert(ids[k] == id);
        }
    }
}

/// Wrapped so that the renderer always returns a JSON string.
pub open spec fn wrapped(script: Seq<char>) -> Seq<char> {
    "(function() { var __weld = (function() { return ("@ + script
        + "); })(); return __weld === undefined ? \"null\" : JSON.stringify(__weld); })()"@
}

/// Wrap a script so that the renderer always returns a JSON string.
///
/// The indirection through a function keeps a bare expression working alongside
/// statements, and `JSON.stringify(undefined)` is itself `undefined` rather than
/// a string, so that case is normalised to JSON `null`.
pub fn wrap_script(script: &str) -> (code: String)
    ensures
        code@ == wrapped(script@),
{
    joined3(
        "(function() { var __weld = (function() { return (",
        script,
        "); })(); return __weld === undefined ? \"null\" : JSON.stringify(__weld); })()",
    )
}

/// What evaluating a script in the renderer came to.
#[derive(Debug)]
pub struct Evaluation {
    /// Whether the script ran to its end.
    pub ran: bool,
    /// The value, where it is a string.
    pub value: Option<String>,
    /// The message of the exception, where there is one.
    pub exception: Option<String>,
}

/// The renderer's answer: whether the script succeeded, and its JSON value or
/// the reason why there is none. `None` stands for a frame without a context to
/// evaluate in.
pub fn evaluation_reply(evaluation: Option<Evaluation>) -> (reply: (bool, String))
    ensures
        match evaluation {
            None => !reply.0 && reply.1@ == "frame has no V8 context"@,
            Some(Evaluation { ran: true, value: Some(value), .. }) => reply.0 && reply.1 == value,
            Some(Evaluation { ran: true, value: None, .. }) => reply.0 && reply.1@ == "null"@,
            Some(Evaluation { ran: false, exception: Some(message), .. }) => !reply.0 && reply.1
                == message,
            Some(Evaluation { ran: false, exception: None, .. }) => !reply.0 && reply.1@
                == "script evaluation failed"@,
        },
{
    match evaluation {
        None => (false, "frame has no V8 context".to_owned()),
        Some(evaluation) => if evaluation.ran {
            match evaluation.value {
                Some(value) => (true, value),
                None => (true, "null".to_owned()),
            }
        } else {
            match evaluation.exception {
                Some(message) => (false, message),
                None => (false, "script evaluation failed".to_owned()),
            }
        },
    }
}

/// A request that is answered is settled once, with its answer, and a request that is
/// not open is not.
pub proof fn law_a_request_is_settled_with_its_answer(
    before: PendingScripts,
    after: PendingScripts,
    told_before: WebEventQueue,
    told: WebEventQueue,
    id: WebRequestId,
    answer: Result<String, String>,
)
    requires
        before.well_formed(),
        exists|scripts: &mut PendingScripts, events: &mut WebEventQueue|
            *scripts == before && *final(scripts) == after && *events == told_before
                && *final(events) == told && #[trigger] call_ensures(
                PendingScripts::complete,
                (scripts, events, id, answer),
                (),
            ),
    ensures
        before@.contains(id) ==> told@.drop_last() == told_before@ && (
        told@.last() matches CefSurfaceEvent::ScriptCompleted { id: settled, result } && settled
            == id && result == answer),
        !before@.contains(id) ==> told@ == told_before@,
        !after@.contains(id),
        forall|other: WebRequestId|
            other != id ==> (#[trigger] after@.contains(other) <==> before@.contains(other)),
{
    lemma_without_keeps(before@, id);
}

proof fn lemma_without_keeps(ids: Seq<WebRequestId>, id: WebRequestId)
    ensures
        forall|other: WebRequestId|
            other != id ==> (#[trigger] without(ids, id).contains(other) <==> ids.contains(other)),
    decreases ids.len(),
{
    reveal(Seq::filter);
    if ids.len() > 0 {
        let rest = ids.drop_last();
        lemma_without_keeps(rest, id);
        assert(ids =~= rest.push(ids.last()));
        assert forall|other: WebRequestId| other != id implies (#[trigger] without(
            ids,
            id,
        ).contains(other) <==> ids.contains(other)) by {
            lemma_pushed_contains(rest, ids.last(), other);
            if ids.last() != id {
                assert(without(ids, id) =~= without(rest, id).push(ids.last()));
                lemma_pushed_contains(without(rest, id), ids.last(), other);
            } else {
                assert(without(ids, id) =~= without(rest, id));
            }
        }
    }
}

proof fn lemma_pushed_contains(s: Seq<WebRequestId>, y: WebRequestId, x: WebRequestId)
    ensures
        s.push(y).contains(x) <==> s.contains(x) || x == y,
{
    assert(s.push(y)[s.len() as int] == y);
    if s.contains(x) {
        let i = choose|i: int| 0 <= i < s.len() && s[i] == x;
        assert(s.push(y)[i] == x);
    }
    if s.push(y).contains(x) && x != y {
        let i = choose|i: int| 0 <= i < s.push(y).len() && s.push(y)[i] == x;
        assert(s[i] == x);
    }
}

/// A request is opened exactly where none is open under its id.
pub proof fn law_an_id_is_open_once(
    before: PendingScripts,
    after: PendingScripts,
    id: WebRequestId,
    accepted: Result<(), WeldError>,
)
    requires
        before.well_formed(),
        exists|scripts: &mut PendingScripts|
            *scripts == before && *final(scripts) == after && #[trigger] call_ensures(
                PendingScripts::begin,
                (scripts, id),
                accepted,
            ),
    ensures
        accepted is Ok <==> !before@.contains(id),
        accepted matches Err(error) ==> error is BrowserOp,
        accepted is Ok ==> after@ == before@ + seq![id],
        accepted is Err ==> after@ == before@,
{
    assert(before@.push(id) =~= before@ + seq![id]);
}

/// Failing all tells the host of every open request, in order, that it failed and
/// why, and leaves none open.
pub proof fn law_all_open_requests_are_failed(
    before: PendingScripts,
    after: PendingScripts,
    told_before: WebEventQueue,
    told: WebEventQueue,
    reason: &str,
    i: int,
)
    requires
        0 <= i < before@.len(),
        exists|scripts: &mut PendingScripts, events: &mut WebEventQueue|
            *scripts == before && *final(scripts) == after && *events == told_before
                && *final(events) == told && #[trigger] call_ensures(
                PendingScripts::fail_all,
                (scripts, events, reason),
                (),
            ),
    ensures
        after@.len() == 0,
        told@.len() == told_before@.len() + before@.len(),
        told@.take(told_before@.len() as int) == told_before@,
        told@[told_before@.len() + i] matches CefSurfaceEvent::ScriptCompleted { id, result } && id
            == before@[i] && result is Err && result->Err_0@ == reason@,
{
}

/// A script is evaluated inside a function of its own, and its value is returned as
/// JSON, `null` where there is none.
pub proof fn law_a_script_is_wrapped_in_a_function(script: &str, code: String)
    requires
        call_ensures(wrap_script, (script,), code),
    ensures
        code@ == "(function() { var __weld = (function() { return ("@ + script@
            + "); })(); return __weld === undefined ? \"null\" : JSON.stringify(__weld); })()"@,
{
}

/// The renderer says that a script succeeded exactly where it ran to its end, and then
/// what its value is; otherwise it says what was thrown.
pub proof fn law_the_renderer_says_how_it_went(
    evaluation: Option<Evaluation>,
    reply: (bool, String),
)
    requires
        call_ensures(evaluation_reply, (evaluation,), reply),
    ensures
        reply.0 <==> evaluation is Some && evaluation->0.ran,
        reply.0 ==> (evaluation->0.value matches Some(value) ==> reply.1 == value),
        reply.0 && evaluation->0.value is None ==> reply.1@ == "null"@,
        evaluation matches Some(evaluation) ==> (!evaluation.ran
            ==> (evaluation.exception matches Some(message) ==> reply.1 == message)),
{
}

/// A request to evaluate and its answer are told apart by their names.
pub proof fn law_requests_and_answers_are_named_apart()
    ensures
        EVAL_REQUEST@ == "weld.eval"@,
        EVAL_RESULT@ == "weld.eval.result"@,
        EVAL_REQUEST@ != EVAL_RESULT@,
{
    reveal_strlit("weld.eval");
    reveal_strlit("weld.eval.result");
    assert("weld.eval"@.len() != "weld.eval.result"@.len());
}

} // verus!
