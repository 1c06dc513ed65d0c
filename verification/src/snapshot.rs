//! One-shot PNG captures of the page.
//!
//! A capture is a DevTools method whose answer arrives later, under the id of
//! the message that asked for it. Keeping that private spares a host from
//! becoming a protocol client for the sake of a thumbnail.
//!
//! Admission counts captures that wait for an answer and answers that wait for
//! the host together, so every answer to an admitted capture has a place and
//! none is evicted.
use vstd::prelude::*;
use vstd::string::*;
use std::collections::{HashSet, VecDeque};
use base64::Engine;
use crate::error::{browser_op, is_browser_op, WeldError};
use crate::events::{SnapshotPngCompletion, SnapshotRequestId};
use crate::text::{joined, lossy_text, push_signed, signed_decimal, utf8_lossy};

verus! {

/// How many captures may be admitted and not yet polled.
pub const MAX_ADMITTED_CAPTURES: usize = 16;

// ── Reading an answer ─────────────────────────────────────────────────────────

/// The text of a member of the JSON object that `bytes` write: `Err` with a
/// description where they are not one JSON value, and `Ok(None)` where that value
/// is not an object, has no such member, or the member is not a string.
pub uninterp spec fn json_text_member(bytes: Seq<u8>, key: Seq<char>) -> Result<
    Option<Seq<char>>,
    Seq<char>,
>;

/// The bytes that `text` encodes in padded standard base64, or a description of
/// why it encodes none.
pub uninterp spec fn base64_bytes(text: Seq<char>) -> Result<Seq<u8>, Seq<char>>;

/// `serde_json::from_slice` into a `serde_json::Value`, of which `Value::get` and
/// `Value::as_str` pick one string. What comes out is fixed by the bytes and the
/// key, and so is the description of an error.
#[verifier::external_body]
pub(crate) fn read_json_text_member(bytes: &[u8], key: &str) -> (member: Result<
    Option<String>,
    String,
>)
    ensures
        match member {
            Ok(Some(text)) => json_text_member(bytes@, key@) == Ok::<
                Option<Seq<char>>,
                Seq<char>,
            >(Some(text@)),
            Ok(None) => json_text_member(bytes@, key@) == Ok::<Option<Seq<char>>, Seq<char>>(None),
            Err(error) => json_text_member(bytes@, key@) == Err::<
                Option<Seq<char>>,
                Seq<char>,
            >(error@),
        },
{
    match serde_json::from_slice::<serde_json::Value>(bytes) {
        Ok(value) => Ok(value.get(key).and_then(serde_json::Value::as_str).map(str::to_owned)),
        Err(error) => Err(error.to_string()),
    }
}

/// `base64::engine::general_purpose::STANDARD.decode`. What comes out is fixed by
/// the text, and so is the description of an error.
#[verifier::external_body]
pub(crate) fn decode_base64(text: &str) -> (decoded: Result<Vec<u8>, String>)
    ensures
        match decoded {
            Ok(bytes) => base64_bytes(text@) == Ok::<Seq<u8>, Seq<char>>(bytes@),
            Err(error) => base64_bytes(text@) == Err::<Seq<u8>, Seq<char>>(error@),
        },
{
    match base64::engine::general_purpose::STANDARD.decode(text) {
        Ok(bytes) => Ok(bytes),
        Err(error) => Err(error.to_string()),
    }
}

/// The bytes that every PNG starts with.
pub open spec fn png_magic() -> Seq<u8> {
    seq![0x89u8, 0x50u8, 0x4eu8, 0x47u8, 0x0du8, 0x0au8, 0x1au8, 0x0au8]
}

/// Whether `bytes` start like a PNG.
pub open spec fn starts_like_png(bytes: Seq<u8>) -> bool {
    bytes.len() >= 8 && bytes.take(8) == png_magic()
}

/// Whether `bytes` start like a PNG.
fn has_png_magic(bytes: &Vec<u8>) -> (found: bool)
    ensures
        found == starts_like_png(bytes@),
{
    if bytes.len() < 8 {
        return false;
    }
    let found = bytes[0] == 0x89 && bytes[1] == 0x50 && bytes[2] == 0x4e && bytes[3] == 0x47
        && bytes[4] == 0x0d && bytes[5] == 0x0a && bytes[6] == 0x1a && bytes[7] == 0x0a;
    proof {
        let head = bytes@.take(8);
        if found {
            assert(head =~= png_magic());
        } else if head == png_magic() {
            assert(head[0] == bytes@[0] && head[1] == bytes@[1] && head[2] == bytes@[2] && head[3]
                == bytes@[3] && head[4] == bytes@[4] && head[5] == bytes@[5] && head[6] == bytes@[6]
                && head[7] == bytes@[7]);
        }
    }
    found
}

/// What an answer comes to once its member was read: the encoded capture, or why
/// there is none.
pub fn encoded_capture(member: Result<Option<String>, String>) -> (encoded: Result<
    String,
    WeldError,
>)
    ensures
        match member {
            Ok(Some(text)) => encoded == Ok::<String, WeldError>(text),
            Ok(None) => encoded matches Err(error) && is_browser_op(
                error,
                "Page.captureScreenshot result has no PNG data field"@,
            ),
            Err(reason) => encoded matches Err(error) && is_browser_op(
                error,
                "invalid Page.captureScreenshot result: "@ + reason@,
            ),
        },
{
    match member {
        Ok(Some(text)) => Ok(text),
        Ok(None) => Err(browser_op("Page.captureScreenshot result has no PNG data field")),
        Err(reason) => Err(
            WeldError::BrowserOp(
                joined("invalid Page.captureScreenshot result: ", reason.as_str()),
            ),
        ),
    }
}

/// What a capture comes to once it was decoded: the PNG, or why it is none.
pub fn decoded_capture(decoded: Result<Vec<u8>, String>) -> (png: Result<Vec<u8>, WeldError>)
    ensures
        match decoded {
            Ok(bytes) => if starts_like_png(bytes@) {
                png == Ok::<Vec<u8>, WeldError>(bytes)
            } else {
                png matches Err(error) && is_browser_op(
                    error,
                    "Page.captureScreenshot returned bytes without PNG magic"@,
                )
            },
            Err(reason) => png matches Err(error) && is_browser_op(
                error,
                "invalid base64 PNG from Page.captureScreenshot: "@ + reason@,
            ),
        },
{
    match decoded {
        Ok(bytes) => if has_png_magic(&bytes) {
            Ok(bytes)
        } else {
            Err(browser_op("Page.captureScreenshot returned bytes without PNG magic"))
        },
        Err(reason) => Err(
            WeldError::BrowserOp(
                joined("invalid base64 PNG from Page.captureScreenshot: ", reason.as_str()),
            ),
        ),
    }
}

/// Whether `png` is what a successful answer comes to.
pub open spec fn is_capture(answer: Option<Seq<u8>>, png: Result<Vec<u8>, WeldError>) -> bool {
    match answer {
        None => png matches Err(error) && is_browser_op(
            error,
            "Page.captureScreenshot succeeded without a result payload"@,
        ),
        Some(bytes) => match json_text_member(bytes, "data"@) {
            Err(reason) => png matches Err(error) && is_browser_op(
                error,
                "invalid Page.captureScreenshot result: "@ + reason,
            ),
            Ok(None) => png matches Err(error) && is_browser_op(
                error,
                "Page.captureScreenshot result has no PNG data field"@,
            ),
            Ok(Some(text)) => match base64_bytes(text) {
                Err(reason) => png matches Err(error) && is_browser_op(
                    error,
                    "invalid base64 PNG from Page.captureScreenshot: "@ + reason,
                ),
                Ok(decoded) => if starts_like_png(decoded) {
                    png matches Ok(bytes) && bytes@ == decoded
                } else {
                    png matches Err(error) && is_browser_op(
                        error,
                        "Page.captureScreenshot returned bytes without PNG magic"@,
                    )
                },
            },
        },
    }
}

/// The PNG of a successful answer, or why it holds none.
pub fn decode_png(result: Option<&[u8]>) -> (png: Result<Vec<u8>, WeldError>)
    ensures
        is_capture(
            match result {
                Some(bytes) => Some(bytes@),
                None => None,
            },
            png,
        ),
{
    match result {
        None => Err(browser_op("Page.captureScreenshot succeeded without a result payload")),
        Some(bytes) => match encoded_capture(read_json_text_member(bytes, "data")) {
            Ok(encoded) => decoded_capture(decode_base64(encoded.as_str())),
            Err(error) => Err(error),
        },
    }
}

// ── The captures of one surface ───────────────────────────────────────────────

/// The captures that wait for an answer, and the answers that wait for the host.
#[derive(Debug)]
pub struct SnapshotChannel {
    waiting: HashSet<i32>,
    results: VecDeque<SnapshotPngCompletion>,
}

impl Default for SnapshotChannel {
    fn default() -> (channel: Self)
        ensures
            channel.well_formed(),
            channel.waiting() == Set::<i32>::empty(),
            channel.results() == Seq::<SnapshotPngCompletion>::empty(),
    {
        SnapshotChannel { waiting: HashSet::new(), results: VecDeque::new() }
    }
}

/// What an answer comes to: the PNG of a success, the reason of a failure.
pub open spec fn is_answer(
    success: bool,
    answer: Option<Seq<u8>>,
    png: Result<Vec<u8>, WeldError>,
) -> bool {
    if success {
        is_capture(answer, png)
    } else {
        png matches Err(error) && is_browser_op(
            error,
            "Page.captureScreenshot failed: "@ + match answer {
                Some(bytes) => utf8_lossy(bytes),
                None => "CEF supplied no error payload"@,
            },
        )
    }
}

/// Why a capture is not admitted: its id is waiting already, or else the backlog
/// is full.
pub open spec fn admission_refusal(waiting: Set<i32>, id: i32) -> Seq<char> {
    if waiting.contains(id) {
        "snapshot request id "@ + signed_decimal(id as int) + " is already pending"@
    } else {
        "PNG snapshot backlog is full (16 admitted captures); poll completed captures before requesting another"@
    }
}

impl SnapshotChannel {
    /// The message ids of the captures that wait for an answer.
    pub closed spec fn waiting(&self) -> Set<i32> {
        self.waiting@
    }

    /// The answers that wait for the host, oldest first.
    pub closed spec fn results(&self) -> Seq<SnapshotPngCompletion> {
        self.results@
    }

    /// No more is admitted than there is place for.
    pub open spec fn well_formed(&self) -> bool {
        &&& self.waiting().finite()
        &&& self.waiting().len() + self.results().len() <= MAX_ADMITTED_CAPTURES
    }

    /// Admit a capture, unless its id is waiting already or the backlog is full.
    pub fn begin(&mut self, id: SnapshotRequestId) -> (admitted: Result<(), WeldError>)
        requires
            old(self).well_formed(),
        ensures
            final(self).well_formed(),
            final(self).results() == old(self).results(),
            match admitted {
                Ok(()) => {
                    &&& !old(self).waiting().contains(id@)
                    &&& old(self).waiting().len() + old(self).results().len()
                        < MAX_ADMITTED_CAPTURES
                    &&& final(self).waiting() == old(self).waiting().insert(id@)
                },
                Err(error) => {
                    &&& final(self).waiting() == old(self).waiting()
                    &&& old(self).waiting().contains(id@) || old(self).waiting().len() + old(
                        self).results().len() == MAX_ADMITTED_CAPTURES
                    &&& is_browser_op(error, admission_refusal(old(self).waiting(), id@))
                },
            },
    {
        broadcast use vstd::std_specs::hash::group_hash_axioms;

        let message_id: i32 = id.cef_message_id();
        if self.waiting.contains(&message_id) {
            let mut reason = "snapshot request id ".to_owned();
            push_signed(&mut reason, message_id as i64);
            reason.append(" is already pending");
            return Err(WeldError::BrowserOp(reason));
        }
        if self.waiting.len() + self.results.len() >= MAX_ADMITTED_CAPTURES {
            return Err(
                browser_op(
                    "PNG snapshot backlog is full (16 admitted captures); poll completed captures before requesting another",
                ),
            );
        }
        self.waiting.insert(message_id);
        Ok(())
    }

    /// The browser answered the message with this id. An answer to a capture
    /// that does not wait for one is dropped.
    pub fn complete(&mut self, id: i32, success: bool, result: Option<&[u8]>)
        requires
            old(self).well_formed(),
        ensures
            final(self).well_formed(),
            final(self).waiting() == old(self).waiting().remove(id),
            if old(self).waiting().contains(id) {
                &&& final(self).results().len() == old(self).results().len() + 1
                &&& final(self).results().drop_last() == old(self).results()
                &&& final(self).results().last().id@ == id
                &&& is_answer(
                    success,
                    match result {
                        Some(bytes) => Some(bytes@),
                        None => None,
                    },
                    final(self).results().last().result,
                )
            } else {
                final(self).results() == old(self).results()
            },
    {
        broadcast use vstd::std_specs::hash::group_hash_axioms;

        let known = self.waiting.remove(&id);
        assert(self.waiting() =~= old(self).waiting().remove(id));
        if !known {
            return ;
        }
        let decoded: Result<Vec<u8>, WeldError> = if success {
            decode_png(result)
        } else {
            let reason: String = match result {
                Some(bytes) => lossy_text(bytes),
                None => "CEF supplied no error payload".to_owned(),
            };
            Err(WeldError::BrowserOp(joined("Page.captureScreenshot failed: ", reason.as_str())))
        };
        self.results.push_back(
            SnapshotPngCompletion {
                id: SnapshotRequestId::from_cef_message_id(id),
                result: decoded,
            },
        );
        assert(self.results().drop_last() =~= old(self).results());
    }

    /// Take the oldest answer.
    pub fn take(&mut self) -> (completion: Option<SnapshotPngCompletion>)
        requires
            old(self).well_formed(),
        ensures
            final(self).well_formed(),
            final(self).waiting() == old(self).waiting(),
            match completion {
                Some(completion) => old(self).results().len() > 0 && completion
                    == old(self).results().first() && final(self).results()
                    == old(self).results().drop_first(),
                None => old(self).results().len() == 0 && final(self).results()
                    == old(self).results(),
            },
    {
        let completion = self.results.pop_front();
        assert(completion is Some ==> self.results() =~= old(self).results().drop_first());
        completion
    }
}

/// The message id after `id`. Ids stay positive.
pub open spec fn next_message_id(id: i32) -> i32 {
    if id == i32::MAX {
        1
    } else {
        (id + 1) as i32
    }
}

/// A capture is handed out exactly where its bytes start as a PNG does, and then as
/// it is.
pub proof fn law_a_capture_is_a_png(
    decoded: Result<Vec<u8>, String>,
    png: Result<Vec<u8>, WeldError>,
)
    requires
        call_ensures(decoded_capture, (decoded,), png),
    ensures
        png is Ok <==> decoded is Ok && decoded->Ok_0@.len() >= 8 && decoded->Ok_0@.take(8) == seq![
            0x89u8,
            0x50u8,
            0x4eu8,
            0x47u8,
            0x0du8,
            0x0au8,
            0x1au8,
            0x0au8,
        ],
        png matches Ok(bytes) ==> bytes == decoded->Ok_0,
        png matches Err(error) ==> error is BrowserOp,
{
}

/// What an answer holds is taken out of it as it is, and an answer without it fails.
pub proof fn law_an_answer_holds_its_data(
    member: Result<Option<String>, String>,
    encoded: Result<String, WeldError>,
)
    requires
        call_ensures(encoded_capture, (member,), encoded),
    ensures
        encoded is Ok <==> member is Ok && member->Ok_0 is Some,
        encoded matches Ok(text) ==> Some(text) == member->Ok_0,
        encoded matches Err(error) ==> error is BrowserOp,
{
}

/// An answer is read through its `data`, which is base64. It becomes a capture
/// exactly where there is an answer, it has data, the data can be decoded, and what
/// comes out is a PNG.
pub proof fn law_an_answer_is_read_to_its_end(result: &[u8], png: Result<Vec<u8>, WeldError>)
    requires
        call_ensures(decode_png, (Some(result),), png),
    ensures
        png matches Ok(bytes) ==> (json_text_member(result@, "data"@) matches Ok(Some(text)) && (
        base64_bytes(text) matches Ok(decoded) && decoded == bytes@ && decoded.len() >= 8
            && decoded[0] == 0x89 && decoded[1] == 0x50 && decoded[2] == 0x4e && decoded[3]
            == 0x47)),
        json_text_member(result@, "data"@) matches Ok(Some(text)) ==> (base64_bytes(
            text,
        ) matches Ok(decoded) ==> (decoded.len() >= 8 && decoded.take(8) == seq![
            0x89u8,
            0x50u8,
            0x4eu8,
            0x47u8,
            0x0du8,
            0x0au8,
            0x1au8,
            0x0au8,
        ] ==> png is Ok)),
        json_text_member(result@, "data"@) is Err ==> png is Err,
        forall|none: Result<Vec<u8>, WeldError>| #[trigger]
            call_ensures(decode_png, (None,), none) ==> none is Err,
{
    if let Ok(bytes) = png {
        assert(bytes@.take(8)[0] == bytes@[0]);
        assert(bytes@.take(8)[1] == bytes@[1]);
        assert(bytes@.take(8)[2] == bytes@[2]);
        assert(bytes@.take(8)[3] == bytes@[3]);
    }
}

/// A capture is admitted where its id is not waiting and fewer than sixteen wait for
/// an answer or for the host. It then waits; one that is refused changes nothing.
pub proof fn law_sixteen_captures_are_admitted(
    before: SnapshotChannel,
    after: SnapshotChannel,
    id: SnapshotRequestId,
    admitted: Result<(), WeldError>,
)
    requires
        before.well_formed(),
        exists|channel: &mut SnapshotChannel|
            *channel == before && *final(channel) == after && #[trigger] call_ensures(
                SnapshotChannel::begin,
                (channel, id),
                admitted,
            ),
    ensures
        admitted is Ok <==> !before.waiting().contains(id@) && before.waiting().len()
            + before.results().len() < 16,
        admitted is Ok ==> after.waiting() == before.waiting().insert(id@),
        admitted is Err ==> after.waiting() == before.waiting(),
        admitted matches Err(error) ==> (error matches WeldError::BrowserOp(text) && (
        before.waiting().contains(id@) ==> text@ == "snapshot request id "@ + signed_decimal(
            id@ as int,
        ) + " is already pending"@)),
        after.results() == before.results(),
{
}

/// An answer goes to the capture that waits for it, once, and behind the answers that
/// are there already. One that nobody waits for is dropped. A failure is told as one.
pub proof fn law_an_answer_goes_to_its_capture(
    before: SnapshotChannel,
    after: SnapshotChannel,
    id: i32,
    success: bool,
    result: Option<&[u8]>,
)
    requires
        before.well_formed(),
        exists|channel: &mut SnapshotChannel|
            *channel == before && *final(channel) == after && #[trigger] call_ensures(
                SnapshotChannel::complete,
                (channel, id, success, result),
                (),
            ),
    ensures
        !after.waiting().contains(id),
        !before.waiting().contains(id) ==> after.results() == before.results(),
        before.waiting().contains(id) ==> {
            &&& after.results().len() == before.results().len() + 1
            &&& after.results().drop_last() == before.results()
            &&& after.results().last().id@ == id
            &&& !success ==> (after.results().last().result matches Err(WeldError::BrowserOp(text))
                && text@ == "Page.captureScreenshot failed: "@ + (match result {
                Some(bytes) => utf8_lossy(bytes@),
                None => "CEF supplied no error payload"@,
            }))
            &&& success && result is Some ==> (after.results().last().result matches Ok(png)
                ==> json_text_member(result->0@, "data"@) is Ok && png@.len() >= 8)
            &&& result is None ==> after.results().last().result is Err
        },
{
}

} // verus!
