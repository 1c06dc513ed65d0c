//! Permission requests: a page asks for the camera, the user's location, or
//! anything else Chromium gates behind a prompt.
//!
//! Requests come through two different callbacks — an ordinary prompt, and a
//! separate one for camera and microphone capture — and each takes a different
//! answer: the prompt wants accept or deny, media wants the *subset* of the
//! requested capture bits being granted. Both may be answered later, so a host
//! is given one id and one pair of verbs, and this module remembers which kind
//! it was.
//!
//! Answering is opt-in: an unanswered request holds the page waiting forever.
//! With answering off, a request is reported and denied at once.
use vstd::prelude::*;
use vstd::string::*;
use std::collections::HashMap;
use crate::bits::{
    bit, is_bit, law_every_set_bit_is_reported_once, report, reported,
};
use crate::error::{is_unsupported, WeldError};
use crate::events::{one_more, CefSurfaceEvent, NavigationEvent, PermissionId, WebEventQueue};
use crate::ids::{following, IdCounter};

verus! {

/// What a page asked for.
///
/// Anything without a name arrives as [`PermissionKind::Other`] carrying the
/// raw bit, so a host can still report it rather than see nothing.
#[derive(Clone, Copy, Debug, PartialEq, Eq, Structural)]
#[non_exhaustive]
pub enum PermissionKind {
    CameraStream,
    MicStream,
    Geolocation,
    Notifications,
    Clipboard,
    MidiSysex,
    PointerLock,
    KeyboardLock,
    IdleDetection,
    LocalFonts,
    StorageAccess,
    ProtectedMediaIdentifier,
    DesktopAudioCapture,
    DesktopVideoCapture,
    /// A bit this build does not name, kept so nothing is silently dropped.
    Other(u32),
}

// The bits of `cef_permission_request_types_t` that have a name.

pub const CAMERA_STREAM: u32 = 0x4;

pub const CLIPBOARD: u32 = 0x10;

pub const LOCAL_FONTS: u32 = 0x80;

pub const GEOLOCATION: u32 = 0x100;

pub const IDLE_DETECTION: u32 = 0x800;

pub const MIC_STREAM: u32 = 0x1000;

pub const MIDI_SYSEX: u32 = 0x2000;

pub const NOTIFICATIONS: u32 = 0x8000;

pub const KEYBOARD_LOCK: u32 = 0x1_0000;

pub const POINTER_LOCK: u32 = 0x2_0000;

pub const PROTECTED_MEDIA_IDENTIFIER: u32 = 0x4_0000;

pub const STORAGE_ACCESS: u32 = 0x10_0000;

// The bits of `cef_media_access_permission_types_t`. A different set on a
// different callback: bit 0 is audio capture here and has no name there.

pub const MEDIA_DEVICE_AUDIO: u32 = 0x1;

pub const MEDIA_DEVICE_VIDEO: u32 = 0x2;

pub const MEDIA_DESKTOP_AUDIO: u32 = 0x4;

pub const MEDIA_DESKTOP_VIDEO: u32 = 0x8;

/// The prompt bits that have a name, in the order in which they are reported.
pub open spec fn prompt_bits() -> Seq<u32> {
    seq![
        CAMERA_STREAM,
        MIC_STREAM,
        GEOLOCATION,
        NOTIFICATIONS,
        CLIPBOARD,
        MIDI_SYSEX,
        POINTER_LOCK,
        KEYBOARD_LOCK,
        LOCAL_FONTS,
        IDLE_DETECTION,
        STORAGE_ACCESS,
        PROTECTED_MEDIA_IDENTIFIER,
    ]
}

/// The media bits that have a name, in the order in which they are reported.
pub open spec fn media_bits() -> Seq<u32> {
    seq![MEDIA_DEVICE_AUDIO, MEDIA_DEVICE_VIDEO, MEDIA_DESKTOP_AUDIO, MEDIA_DESKTOP_VIDEO]
}

impl PermissionKind {
    /// The permission of one prompt bit.
    pub open spec fn of_prompt(b: u32) -> PermissionKind {
        if b == CAMERA_STREAM {
            PermissionKind::CameraStream
        } else if b == MIC_STREAM {
            PermissionKind::MicStream
        } else if b == GEOLOCATION {
            PermissionKind::Geolocation
        } else if b == NOTIFICATIONS {
            PermissionKind::Notifications
        } else if b == CLIPBOARD {
            PermissionKind::Clipboard
        } else if b == MIDI_SYSEX {
            PermissionKind::MidiSysex
        } else if b == POINTER_LOCK {
            PermissionKind::PointerLock
        } else if b == KEYBOARD_LOCK {
            PermissionKind::KeyboardLock
        } else if b == LOCAL_FONTS {
            PermissionKind::LocalFonts
        } else if b == IDLE_DETECTION {
            PermissionKind::IdleDetection
        } else if b == STORAGE_ACCESS {
            PermissionKind::StorageAccess
        } else if b == PROTECTED_MEDIA_IDENTIFIER {
            PermissionKind::ProtectedMediaIdentifier
        } else {
            PermissionKind::Other(b)
        }
    }

    /// The permission of one media bit.
    pub open spec fn of_media(b: u32) -> PermissionKind {
        if b == MEDIA_DEVICE_AUDIO {
            PermissionKind::MicStream
        } else if b == MEDIA_DEVICE_VIDEO {
            PermissionKind::CameraStream
        } else if b == MEDIA_DESKTOP_AUDIO {
            PermissionKind::DesktopAudioCapture
        } else if b == MEDIA_DESKTOP_VIDEO {
            PermissionKind::DesktopVideoCapture
        } else {
            PermissionKind::Other(b)
        }
    }

    /// The permission of one prompt bit.
    pub fn from_prompt_bit(b: u32) -> (kind: Self)
        ensures
            kind == PermissionKind::of_prompt(b),
    {
        if b == CAMERA_STREAM {
            PermissionKind::CameraStream
        } else if b == MIC_STREAM {
            PermissionKind::MicStream
        } else if b == GEOLOCATION {
            PermissionKind::Geolocation
        } else if b == NOTIFICATIONS {
            PermissionKind::Notifications
        } else if b == CLIPBOARD {
            PermissionKind::Clipboard
        } else if b == MIDI_SYSEX {
            PermissionKind::MidiSysex
        } else if b == POINTER_LOCK {
            PermissionKind::PointerLock
        } else if b == KEYBOARD_LOCK {
            PermissionKind::KeyboardLock
        } else if b == LOCAL_FONTS {
            PermissionKind::LocalFonts
        } else if b == IDLE_DETECTION {
            PermissionKind::IdleDetection
        } else if b == STORAGE_ACCESS {
            PermissionKind::StorageAccess
        } else if b == PROTECTED_MEDIA_IDENTIFIER {
            PermissionKind::ProtectedMediaIdentifier
        } else {
            PermissionKind::Other(b)
        }
    }

    /// The permission of one media bit.
    pub fn from_media_bit(b: u32) -> (kind: Self)
        ensures
            kind == PermissionKind::of_media(b),
    {
        if b == MEDIA_DEVICE_AUDIO {
            PermissionKind::MicStream
        } else if b == MEDIA_DEVICE_VIDEO {
            PermissionKind::CameraStream
        } else if b == MEDIA_DESKTOP_AUDIO {
            PermissionKind::DesktopAudioCapture
        } else if b == MEDIA_DESKTOP_VIDEO {
            PermissionKind::DesktopVideoCapture
        } else {
            PermissionKind::Other(b)
        }
    }
}

/// The permissions of a prompt mask.
pub open spec fn prompt_kinds(mask: u32) -> Seq<PermissionKind> {
    reported(mask, prompt_bits()).map_values(|b: u32| PermissionKind::of_prompt(b))
}

/// The permissions of a media mask.
pub open spec fn media_kinds(mask: u32) -> Seq<PermissionKind> {
    reported(mask, media_bits()).map_values(|b: u32| PermissionKind::of_media(b))
}

/// Split the prompt mask into permissions, named ones first.
pub fn decode(mask: u32) -> (kinds: Vec<PermissionKind>)
    ensures
        kinds@ == prompt_kinds(mask),
{
    let named: Vec<u32> = vec![
        CAMERA_STREAM,
        MIC_STREAM,
        GEOLOCATION,
        NOTIFICATIONS,
        CLIPBOARD,
        MIDI_SYSEX,
        POINTER_LOCK,
        KEYBOARD_LOCK,
        LOCAL_FONTS,
        IDLE_DETECTION,
        STORAGE_ACCESS,
        PROTECTED_MEDIA_IDENTIFIER,
    ];
    assert(named@ =~= prompt_bits());
    let bits: Vec<u32> = report(mask, &named);
    let mut kinds: Vec<PermissionKind> = Vec::new();
    let mut i: usize = 0;
    while i < bits.len()
        invariant
            i <= bits.len(),
            kinds@.len() == i,
            forall|k: int|
                0 <= k < i ==> #[trigger] kinds@[k] == PermissionKind::of_prompt(bits@[k]),
        decreases bits.len() - i,
    {
        kinds.push(PermissionKind::from_prompt_bit(bits[i]));
        i += 1;
    }
    assert(kinds@ =~= prompt_kinds(mask));
    kinds
}

/// Split the media mask into permissions, named ones first.
pub fn decode_media(mask: u32) -> (kinds: Vec<PermissionKind>)
    ensures
        kinds@ == media_kinds(mask),
{
    let named: Vec<u32> = vec![
        MEDIA_DEVICE_AUDIO,
        MEDIA_DEVICE_VIDEO,
        MEDIA_DESKTOP_AUDIO,
        MEDIA_DESKTOP_VIDEO,
    ];
    assert(named@ =~= media_bits());
    let bits: Vec<u32> = report(mask, &named);
    let mut kinds: Vec<PermissionKind> = Vec::new();
    let mut i: usize = 0;
    while i < bits.len()
        invariant
            i <= bits.len(),
            kinds@.len() == i,
            forall|k: int|
                0 <= k < i ==> #[trigger] kinds@[k] == PermissionKind::of_media(bits@[k]),
        decreases bits.len() - i,
    {
        kinds.push(PermissionKind::from_media_bit(bits[i]));
        i += 1;
    }
    assert(kinds@ =~= media_kinds(mask));
    kinds
}

proof fn lemma_named_bits()
    ensures
        prompt_bits().no_duplicates(),
        forall|k: int| 0 <= k < prompt_bits().len() ==> is_bit(#[trigger] prompt_bits()[k]),
        media_bits().no_duplicates(),
        forall|k: int| 0 <= k < media_bits().len() ==> is_bit(#[trigger] media_bits()[k]),
{
    assert(1u32 << 0u32 == 0x1 && 1u32 << 1u32 == 0x2 && 1u32 << 2u32 == 0x4 && 1u32 << 3u32 == 0x8
        && 1u32 << 4u32 == 0x10 && 1u32 << 7u32 == 0x80 && 1u32 << 8u32 == 0x100 && 1u32 << 11u32
        == 0x800 && 1u32 << 12u32 == 0x1000 && 1u32 << 13u32 == 0x2000 && 1u32 << 15u32 == 0x8000
        && 1u32 << 16u32 == 0x1_0000 && 1u32 << 17u32 == 0x2_0000 && 1u32 << 18u32 == 0x4_0000
        && 1u32 << 20u32 == 0x10_0000) by (bit_vector);
    assert(bit(0) == MEDIA_DEVICE_AUDIO && bit(1) == MEDIA_DEVICE_VIDEO && bit(2) == CAMERA_STREAM
        && bit(3) == MEDIA_DESKTOP_VIDEO && bit(4) == CLIPBOARD && bit(7) == LOCAL_FONTS && bit(8)
        == GEOLOCATION && bit(11) == IDLE_DETECTION && bit(12) == MIC_STREAM && bit(13)
        == MIDI_SYSEX && bit(15) == NOTIFICATIONS && bit(16) == KEYBOARD_LOCK && bit(17)
        == POINTER_LOCK && bit(18) == PROTECTED_MEDIA_IDENTIFIER && bit(20) == STORAGE_ACCESS);
}

/// Every permission a prompt asks for is reported once, whether it has a name
/// or not, and nothing is reported that was not asked for.
pub proof fn law_prompt_permissions_are_the_bits(mask: u32)
    ensures
        prompt_kinds(mask).no_duplicates(),
        forall|b: u32|
            is_bit(b) ==> (#[trigger] prompt_kinds(mask).contains(PermissionKind::of_prompt(b))
                <==> mask & b != 0),
{
    lemma_named_bits();
    law_every_set_bit_is_reported_once(mask, prompt_bits());
    let bits = reported(mask, prompt_bits());
    let kinds = prompt_kinds(mask);
    assert forall|b: u32| is_bit(b) implies (#[trigger] kinds.contains(
        PermissionKind::of_prompt(b),
    ) <==> mask & b != 0) by {
        if kinds.contains(PermissionKind::of_prompt(b)) {
            let k = choose|k: int| 0 <= k < kinds.len() && kinds[k] == PermissionKind::of_prompt(b);
            assert(bits[k] == b);
            assert(bits.contains(b));
        }
        if mask & b != 0 {
            assert(bits.contains(b));
            let k = choose|k: int| 0 <= k < bits.len() && bits[k] == b;
            assert(kinds[k] == PermissionKind::of_prompt(b));
        }
    }
    assert forall|i: int, j: int|
        0 <= i < kinds.len() && 0 <= j < kinds.len() && i != j implies kinds[i] != kinds[j] by {
        assert(bits[i] != bits[j]);
    }
}

/// Every capture a media request asks for is reported once, whether it has a
/// name or not, and nothing is reported that was not asked for.
pub proof fn law_media_permissions_are_the_bits(mask: u32)
    ensures
        media_kinds(mask).no_duplicates(),
        forall|b: u32|
            is_bit(b) ==> (#[trigger] media_kinds(mask).contains(PermissionKind::of_media(b))
                <==> mask & b != 0),
{
    lemma_named_bits();
    law_every_set_bit_is_reported_once(mask, media_bits());
    let bits = reported(mask, media_bits());
    let kinds = media_kinds(mask);
    assert forall|b: u32| is_bit(b) implies (#[trigger] kinds.contains(PermissionKind::of_media(b))
        <==> mask & b != 0) by {
        if kinds.contains(PermissionKind::of_media(b)) {
            let k = choose|k: int| 0 <= k < kinds.len() && kinds[k] == PermissionKind::of_media(b);
            assert(bits[k] == b);
            assert(bits.contains(b));
        }
        if mask & b != 0 {
            assert(bits.contains(b));
            let k = choose|k: int| 0 <= k < bits.len() && bits[k] == b;
            assert(kinds[k] == PermissionKind::of_media(b));
        }
    }
    assert forall|i: int, j: int|
        0 <= i < kinds.len() && 0 <= j < kinds.len() && i != j implies kinds[i] != kinds[j] by {
        assert(bits[i] != bits[j]);
    }
}

/// A request that waits for the host, with the callback that answers it.
#[derive(Debug)]
pub enum Pending<P, M> {
    Prompt(P),
    /// The mask is kept because granting media means handing back the subset
    /// being allowed, not a boolean.
    Media(M, u32),
}

/// What to do about a request that was just reported.
#[derive(Debug)]
pub enum RequestAction<C> {
    /// There is no callback, so there is nothing to answer.
    Unanswerable,
    /// The request waits for the host.
    Held,
    /// Deny the request now.
    DenyNow(C),
}

/// How a held request is answered.
#[derive(Debug)]
#[allow(inconsistent_fields)]
pub enum PermissionReply<P, M> {
    Prompt { callback: P, accept: bool },
    Media { callback: M, allowed: u32 },
}

/// The permission requests of one surface.
#[derive(Debug)]
pub struct Permissions<P, M> {
    ids: IdCounter,
    enabled: bool,
    pending: HashMap<PermissionId, Pending<P, M>>,
}

impl<P, M> Default for Permissions<P, M> {
    fn default() -> (permissions: Self)
        ensures
            permissions.last_id() == 0,
            !permissions.enabled(),
            permissions.pending() == Map::<PermissionId, Pending<P, M>>::empty(),
    {
        Permissions { ids: IdCounter::default(), enabled: false, pending: HashMap::new() }
    }
}

impl<P, M> Permissions<P, M> {
    /// The last id that was handed out.
    pub closed spec fn last_id(&self) -> u32 {
        self.ids@
    }

    /// Whether the host answers requests itself.
    pub closed spec fn enabled(&self) -> bool {
        self.enabled
    }

    /// The requests that wait for the host.
    pub closed spec fn pending(&self) -> Map<PermissionId, Pending<P, M>> {
        self.pending@
    }

    pub fn set_enabled(&mut self, enabled: bool)
        ensures
            final(self).enabled() == enabled,
            final(self).last_id() == old(self).last_id(),
            final(self).pending() == old(self).pending(),
    {
        self.enabled = enabled;
    }

    pub fn is_enabled(&self) -> (enabled: bool)
        ensures
            enabled == self.enabled(),
    {
        self.enabled
    }

    /// The id the host will answer with.
    pub fn next_id(&mut self) -> (id: PermissionId)
        ensures
            id == following(old(self).last_id()),
            id != 0,
            final(self).last_id() == id,
            final(self).enabled() == old(self).enabled(),
            final(self).pending() == old(self).pending(),
    {
        self.ids.next()
    }

    /// Hold a request until the host answers it.
    pub fn hold(&mut self, id: PermissionId, pending: Pending<P, M>)
        ensures
            final(self).pending() == old(self).pending().insert(id, pending),
            final(self).last_id() == old(self).last_id(),
            final(self).enabled() == old(self).enabled(),
    {
        broadcast use vstd::std_specs::hash::group_hash_axioms;

        self.pending.insert(id, pending);
    }

    /// Take a held request, which is then no longer held.
    pub fn take(&mut self, id: PermissionId) -> (pending: Option<Pending<P, M>>)
        ensures
            pending == (if old(self).pending().contains_key(id) {
                Some(old(self).pending()[id])
            } else {
                None
            }),
            final(self).pending() == old(self).pending().remove(id),
            final(self).last_id() == old(self).last_id(),
            final(self).enabled() == old(self).enabled(),
    {
        broadcast use vstd::std_specs::hash::group_hash_axioms;

        let pending = self.pending.remove(&id);
        assert(self.pending() =~= old(self).pending().remove(id));
        pending
    }

    /// How many requests wait for the host.
    pub fn outstanding(&self) -> (count: usize)
        ensures
            count == self.pending().len(),
    {
        broadcast use vstd::std_specs::hash::group_hash_axioms;

        self.pending.len()
    }

    /// A page asked through the prompt. The request is reported, and then held
    /// for the host or denied at once.
    pub fn on_show_permission_prompt(
        &mut self,
        events: &mut WebEventQueue,
        origin: String,
        requested: u32,
        callback: Option<P>,
    ) -> (action: RequestAction<P>)
        ensures
            one_more(*old(events), *final(events)),
            final(events)@.last() matches CefSurfaceEvent::Navigation(
                NavigationEvent::PermissionRequested { id, origin: from, permissions, raw },
            ) && id == following(old(self).last_id()) && from == origin && permissions@
                == prompt_kinds(requested) && raw == requested,
            final(self).last_id() == following(old(self).last_id()),
            final(self).enabled() == old(self).enabled(),
            action == match callback {
                None => RequestAction::Unanswerable,
                Some(callback) => if old(self).enabled() {
                    RequestAction::Held
                } else {
                    RequestAction::DenyNow(callback)
                },
            },
            final(self).pending() == (if callback is Some && old(self).enabled() {
                old(self).pending().insert(
                    following(old(self).last_id()),
                    Pending::Prompt(callback->0),
                )
            } else {
                old(self).pending()
            }),
    {
        let id: PermissionId = self.next_id();
        let permissions: Vec<PermissionKind> = decode(requested);
        events.push_navigation(
            NavigationEvent::PermissionRequested { id, origin, permissions, raw: requested },
        );
        assert(events@.drop_last() =~= old(events)@);
        match callback {
            None => RequestAction::Unanswerable,
            Some(callback) => if self.is_enabled() {
                self.hold(id, Pending::Prompt(callback));
                RequestAction::Held
            } else {
                RequestAction::DenyNow(callback)
            },
        }
    }

    /// A page asked for media capture. The request is reported, and then held
    /// for the host or denied at once.
    pub fn on_request_media_access_permission(
        &mut self,
        events: &mut WebEventQueue,
        origin: String,
        requested: u32,
        callback: Option<M>,
    ) -> (action: RequestAction<M>)
        ensures
            one_more(*old(events), *final(events)),
            final(events)@.last() matches CefSurfaceEvent::Navigation(
                NavigationEvent::PermissionRequested { id, origin: from, permissions, raw },
            ) && id == following(old(self).last_id()) && from == origin && permissions@
                == media_kinds(requested) && raw == requested,
            final(self).last_id() == following(old(self).last_id()),
            final(self).enabled() == old(self).enabled(),
            action == match callback {
                None => RequestAction::Unanswerable,
                Some(callback) => if old(self).enabled() {
                    RequestAction::Held
                } else {
                    RequestAction::DenyNow(callback)
                },
            },
            final(self).pending() == (if callback is Some && old(self).enabled() {
                old(self).pending().insert(
                    following(old(self).last_id()),
                    Pending::Media(callback->0, requested),
                )
            } else {
                old(self).pending()
            }),
    {
        let id: PermissionId = self.next_id();
        let permissions: Vec<PermissionKind> = decode_media(requested);
        events.push_navigation(
            NavigationEvent::PermissionRequested { id, origin, permissions, raw: requested },
        );
        assert(events@.drop_last() =~= old(events)@);
        match callback {
            None => RequestAction::Unanswerable,
            Some(callback) => if self.is_enabled() {
                self.hold(id, Pending::Media(callback, requested));
                RequestAction::Held
            } else {
                RequestAction::DenyNow(callback)
            },
        }
    }

    /// Answer a held request. Media hands back what was asked for or nothing;
    /// a prompt is accepted or denied. A request is answered once.
    pub fn answer_permission(&mut self, id: PermissionId, granted: bool) -> (reply: Result<
        PermissionReply<P, M>,
        WeldError,
    >)
        ensures
            final(self).pending() == old(self).pending().remove(id),
            !final(self).pending().contains_key(id),
            final(self).last_id() == old(self).last_id(),
            final(self).enabled() == old(self).enabled(),
            match reply {
                Ok(reply) => old(self).pending().contains_key(id) && reply == answered(
                    old(self).pending()[id],
                    granted,
                ),
                Err(error) => !old(self).pending().contains_key(id) && is_unsupported(
                    error,
                    "no permission request is waiting on that id"@,
                ),
            },
            reply matches Ok(PermissionReply::Prompt { accept, .. }) ==> (accept <==> granted),
            reply matches Ok(PermissionReply::Media { allowed, .. }) ==> (!granted ==> allowed == 0),
    {
        match self.take(id) {
            None => Err(
                WeldError::PlatformUnsupported("no permission request is waiting on that id"),
            ),
            Some(Pending::Prompt(callback)) => Ok(
                PermissionReply::Prompt { callback, accept: granted },
            ),
            Some(Pending::Media(callback, requested)) => Ok(
                PermissionReply::Media {
                    callback,
                    allowed: if granted {
                        requested
                    } else {
                        0
                    },
                },
            ),
        }
    }
}

/// The answer to a held request.
pub open spec fn answered<P, M>(pending: Pending<P, M>, granted: bool) -> PermissionReply<P, M> {
    match pending {
        Pending::Prompt(callback) => PermissionReply::Prompt { callback, accept: granted },
        Pending::Media(callback, requested) => PermissionReply::Media {
            callback,
            allowed: if granted {
                requested
            } else {
                0
            },
        },
    }
}

/// A held prompt is accepted exactly where the host granted it, and a held media
/// request is given what it asked for where the host granted it and nothing
/// otherwise. The callback that is answered is the one that asked. A request that
/// is not held cannot be answered, and one that was is not held any longer.
pub proof fn law_an_answer_is_the_hosts<P, M>(
    before: Permissions<P, M>,
    after: Permissions<P, M>,
    id: PermissionId,
    granted: bool,
    reply: Result<PermissionReply<P, M>, WeldError>,
)
    requires
        exists|permissions: &mut Permissions<P, M>|
            *permissions == before && *final(permissions) == after && #[trigger] call_ensures(
                Permissions::<P, M>::answer_permission,
                (permissions, id, granted),
                reply,
            ),
    ensures
        reply is Ok <==> before.pending().contains_key(id),
        reply is Ok ==> match before.pending()[id] {
            Pending::Prompt(asked) => reply->Ok_0 matches PermissionReply::Prompt {
                callback,
                accept,
            } && callback == asked && (accept <==> granted),
            Pending::Media(asked, requested) => reply->Ok_0 matches PermissionReply::Media {
                callback,
                allowed,
            } && callback == asked && (granted ==> allowed == requested) && (!granted ==> allowed
                == 0),
        },
        !after.pending().contains_key(id),
        forall|other: PermissionId|
            other != id ==> (#[trigger] after.pending().contains_key(other)
                <==> before.pending().contains_key(other)),
{
}

/// Every prompt bit has its permission, and every permission its prompt bit.
pub proof fn law_prompt_bits_mean_what_the_browser_says(b: u32, kind: PermissionKind)
    requires
        call_ensures(PermissionKind::from_prompt_bit, (b,), kind),
    ensures
        kind == PermissionKind::CameraStream <==> b == 1u32 << 2,
        kind == PermissionKind::Clipboard <==> b == 1u32 << 4,
        kind == PermissionKind::LocalFonts <==> b == 1u32 << 7,
        kind == PermissionKind::Geolocation <==> b == 1u32 << 8,
        kind == PermissionKind::IdleDetection <==> b == 1u32 << 11,
        kind == PermissionKind::MicStream <==> b == 1u32 << 12,
        kind == PermissionKind::MidiSysex <==> b == 1u32 << 13,
        kind == PermissionKind::Notifications <==> b == 1u32 << 15,
        kind == PermissionKind::KeyboardLock <==> b == 1u32 << 16,
        kind == PermissionKind::PointerLock <==> b == 1u32 << 17,
        kind == PermissionKind::ProtectedMediaIdentifier <==> b == 1u32 << 18,
        kind == PermissionKind::StorageAccess <==> b == 1u32 << 20,
        kind matches PermissionKind::Other(raw) ==> raw == b,
        !(kind is DesktopAudioCapture) && !(kind is DesktopVideoCapture),
{
    assert(1u32 << 2 == 0x4 && 1u32 << 4 == 0x10 && 1u32 << 7 == 0x80 && 1u32 << 8 == 0x100 && 1u32
        << 11 == 0x800 && 1u32 << 12 == 0x1000 && 1u32 << 13 == 0x2000 && 1u32 << 15 == 0x8000
        && 1u32 << 16 == 0x1_0000 && 1u32 << 17 == 0x2_0000 && 1u32 << 18 == 0x4_0000 && 1u32 << 20
        == 0x10_0000) by (bit_vector);
}

/// Every media bit has its capture, and every capture its media bit.
pub proof fn law_media_bits_mean_what_the_browser_says(b: u32, kind: PermissionKind)
    requires
        call_ensures(PermissionKind::from_media_bit, (b,), kind),
    ensures
        kind == PermissionKind::MicStream <==> b == 1,
        kind == PermissionKind::CameraStream <==> b == 2,
        kind == PermissionKind::DesktopAudioCapture <==> b == 4,
        kind == PermissionKind::DesktopVideoCapture <==> b == 8,
        b != 1 && b != 2 && b != 4 && b != 8 ==> kind == PermissionKind::Other(b),
{
}

/// What a page asks for is told to the host as it was asked, under an id of its
/// own, and then waits for the host where the host answers and is denied at once
/// where it does not.
pub proof fn law_a_prompt_is_told_and_held_or_denied<P, M>(
    before: Permissions<P, M>,
    after: Permissions<P, M>,
    told_before: WebEventQueue,
    told: WebEventQueue,
    origin: String,
    requested: u32,
    asked: P,
    action: RequestAction<P>,
)
    requires
        exists|permissions: &mut Permissions<P, M>, events: &mut WebEventQueue|
            *permissions == before && *final(permissions) == after && *events == told_before
                && *final(events) == told && #[trigger] call_ensures(
                Permissions::<P, M>::on_show_permission_prompt,
                (permissions, events, origin, requested, Some(asked)),
                action,
            ),
    ensures
        told@.len() == told_before@.len() + 1,
        told@.last() matches CefSurfaceEvent::Navigation(
            NavigationEvent::PermissionRequested { id, origin: from, permissions, raw },
        ) && id != 0 && from == origin && raw == requested && permissions@ == prompt_kinds(
            requested,
        ) && if before.enabled() {
            &&& action is Held
            &&& after.pending().contains_key(id)
            &&& after.pending()[id] == Pending::<P, M>::Prompt(asked)
        } else {
            &&& action == RequestAction::DenyNow(asked)
            &&& after.pending() == before.pending()
        },
{
}

/// The same holds of media capture, which keeps what was asked for.
pub proof fn law_a_media_request_is_told_and_held_or_denied<P, M>(
    before: Permissions<P, M>,
    after: Permissions<P, M>,
    told_before: WebEventQueue,
    told: WebEventQueue,
    origin: String,
    requested: u32,
    asked: M,
    action: RequestAction<M>,
)
    requires
        exists|permissions: &mut Permissions<P, M>, events: &mut WebEventQueue|
            *permissions == before && *final(permissions) == after && *events == told_before
                && *final(events) == told && #[trigger] call_ensures(
                Permissions::<P, M>::on_request_media_access_permission,
                (permissions, events, origin, requested, Some(asked)),
                action,
            ),
    ensures
        told@.len() == told_before@.len() + 1,
        told@.last() matches CefSurfaceEvent::Navigation(
            NavigationEvent::PermissionRequested { id, origin: from, permissions, raw },
        ) && id != 0 && from == origin && raw == requested && permissions@ == media_kinds(
            requested,
        ) && if before.enabled() {
            &&& action is Held
            &&& after.pending().contains_key(id)
            &&& after.pending()[id] == Pending::<P, M>::Media(asked, requested)
        } else {
            &&& action == RequestAction::DenyNow(asked)
            &&& after.pending() == before.pending()
        },
{
}

/// A mask asks for a permission exactly where the permission's bit is set, and asks for
/// each once.
pub proof fn law_a_mask_asks_for_its_permissions(
    mask: u32,
    kinds: Vec<PermissionKind>,
    captures: Vec<PermissionKind>,
)
    requires
        call_ensures(decode, (mask,), kinds),
        call_ensures(decode_media, (mask,), captures),
    ensures
        kinds@.no_duplicates(),
        captures@.no_duplicates(),
        kinds@.contains(PermissionKind::CameraStream) <==> mask & 0x4 != 0,
        kinds@.contains(PermissionKind::Clipboard) <==> mask & 0x10 != 0,
        kinds@.contains(PermissionKind::LocalFonts) <==> mask & 0x80 != 0,
        kinds@.contains(PermissionKind::Geolocation) <==> mask & 0x100 != 0,
        kinds@.contains(PermissionKind::IdleDetection) <==> mask & 0x800 != 0,
        kinds@.contains(PermissionKind::MicStream) <==> mask & 0x1000 != 0,
        kinds@.contains(PermissionKind::MidiSysex) <==> mask & 0x2000 != 0,
        kinds@.contains(PermissionKind::Notifications) <==> mask & 0x8000 != 0,
        kinds@.contains(PermissionKind::KeyboardLock) <==> mask & 0x10000 != 0,
        kinds@.contains(PermissionKind::PointerLock) <==> mask & 0x20000 != 0,
        kinds@.contains(PermissionKind::ProtectedMediaIdentifier) <==> mask & 0x40000 != 0,
        kinds@.contains(PermissionKind::StorageAccess) <==> mask & 0x100000 != 0,
        captures@.contains(PermissionKind::MicStream) <==> mask & 1 != 0,
        captures@.contains(PermissionKind::CameraStream) <==> mask & 2 != 0,
        captures@.contains(PermissionKind::DesktopAudioCapture) <==> mask & 4 != 0,
        captures@.contains(PermissionKind::DesktopVideoCapture) <==> mask & 8 != 0,
{
    lemma_named_bits();
    law_prompt_permissions_are_the_bits(mask);
    law_media_permissions_are_the_bits(mask);
    assert(1u32 << 0u32 == 0x1 && 1u32 << 1u32 == 0x2 && 1u32 << 3u32 == 0x8
        && 1u32 << 2u32 == 0x4
        && 1u32 << 4u32 == 0x10
        && 1u32 << 7u32 == 0x80
        && 1u32 << 8u32 == 0x100
        && 1u32 << 11u32 == 0x800
        && 1u32 << 12u32 == 0x1000
        && 1u32 << 13u32 == 0x2000
        && 1u32 << 15u32 == 0x8000
        && 1u32 << 16u32 == 0x10000
        && 1u32 << 17u32 == 0x20000
        && 1u32 << 18u32 == 0x40000
        && 1u32 << 20u32 == 0x100000) by (bit_vector);
    assert(bit(0) == 0x1 && bit(1) == 0x2 && bit(3) == 0x8
        && bit(2) == 0x4
        && bit(4) == 0x10
        && bit(7) == 0x80
        && bit(8) == 0x100
        && bit(11) == 0x800
        && bit(12) == 0x1000
        && bit(13) == 0x2000
        && bit(15) == 0x8000
        && bit(16) == 0x10000
        && bit(17) == 0x20000
        && bit(18) == 0x40000
        && bit(20) == 0x100000);
    assert(PermissionKind::of_prompt(0x4) == PermissionKind::CameraStream);
    assert(PermissionKind::of_prompt(0x10) == PermissionKind::Clipboard);
    assert(PermissionKind::of_prompt(0x80) == PermissionKind::LocalFonts);
    assert(PermissionKind::of_prompt(0x100) == PermissionKind::Geolocation);
    assert(PermissionKind::of_prompt(0x800) == PermissionKind::IdleDetection);
    assert(PermissionKind::of_prompt(0x1000) == PermissionKind::MicStream);
    assert(PermissionKind::of_prompt(0x2000) == PermissionKind::MidiSysex);
    assert(PermissionKind::of_prompt(0x8000) == PermissionKind::Notifications);
    assert(PermissionKind::of_prompt(0x10000) == PermissionKind::KeyboardLock);
    assert(PermissionKind::of_prompt(0x20000) == PermissionKind::PointerLock);
    assert(PermissionKind::of_prompt(0x40000) == PermissionKind::ProtectedMediaIdentifier);
    assert(PermissionKind::of_prompt(0x100000) == PermissionKind::StorageAccess);
    assert(PermissionKind::of_media(1) == PermissionKind::MicStream);
    assert(PermissionKind::of_media(2) == PermissionKind::CameraStream);
    assert(PermissionKind::of_media(4) == PermissionKind::DesktopAudioCapture);
    assert(PermissionKind::of_media(8) == PermissionKind::DesktopVideoCapture);
}

/// A request that nobody can be answered for is told all the same, and waits for
/// nothing.
pub proof fn law_a_request_without_a_callback_waits_for_nothing<P, M>(
    origin: String,
    requested: u32,
)
    ensures
        forall|
            permissions: &mut Permissions<P, M>,
            events: &mut WebEventQueue,
            action: RequestAction<P>,
        | #[trigger]
            call_ensures(
                Permissions::<P, M>::on_show_permission_prompt,
                (permissions, events, origin, requested, None),
                action,
            ) ==> action is Unanswerable && final(permissions).pending() == permissions.pending()
                && final(events)@.len() == events@.len() + 1,
        forall|
            permissions: &mut Permissions<P, M>,
            events: &mut WebEventQueue,
            action: RequestAction<M>,
        | #[trigger]
            call_ensures(
                Permissions::<P, M>::on_request_media_access_permission,
                (permissions, events, origin, requested, None),
                action,
            ) ==> action is Unanswerable && final(permissions).pending() == permissions.pending()
                && final(events)@.len() == events@.len() + 1,
{
}

} // verus!
