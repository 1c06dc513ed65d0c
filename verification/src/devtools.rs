//! The Chrome DevTools Protocol, straight through.
//!
//! The wire format passes in both directions as it is: JSON in, JSON out. The
//! protocol is chatty, so the queue is bounded and counts what it drops rather
//! than growing without limit behind a host that has stopped polling.
use vstd::prelude::*;
use vstd::string::*;
use std::collections::VecDeque;
use crate::text::{lossy_text, utf8_lossy};

verus! {

/// How many unread protocol messages are kept. Enough to survive a burst while a
/// host is busy rendering a frame; a host that wants every message must poll
/// every tick.
pub const MAX_QUEUED: usize = 512;

/// The protocol messages of one surface that the host has not read yet.
#[derive(Debug)]
pub struct DevToolsChannel {
    enabled: bool,
    queue: VecDeque<String>,
    dropped: u64,
}

impl Default for DevToolsChannel {
    fn default() -> (channel: Self)
        ensures
            channel.well_formed(),
            !channel.enabled(),
            channel.queued() == Seq::<String>::empty(),
            channel.lost() == 0,
    {
        DevToolsChannel { enabled: false, queue: VecDeque::new(), dropped: 0 }
    }
}

impl DevToolsChannel {
    /// Whether the host subscribed to the protocol.
    pub closed spec fn enabled(&self) -> bool {
        self.enabled
    }

    /// The unread messages, oldest first.
    pub closed spec fn queued(&self) -> Seq<String> {
        self.queue@
    }

    /// How many messages were dropped unread.
    pub closed spec fn lost(&self) -> u64 {
        self.dropped
    }

    /// The queue stays within its bound.
    pub open spec fn well_formed(&self) -> bool {
        self.queued().len() <= MAX_QUEUED
    }

    pub fn set_enabled(&mut self, enabled: bool)
        ensures
            final(self).enabled() == enabled,
            final(self).queued() == old(self).queued(),
            final(self).lost() == old(self).lost(),
    {
        self.enabled = enabled;
    }

    pub fn is_enabled(&self) -> (enabled: bool)
        ensures
            enabled == self.enabled(),
    {
        self.enabled
    }

    /// Queue one message, dropping the oldest where the host is behind.
    pub fn push(&mut self, message: String)
        requires
            old(self).well_formed(),
            old(self).queued().len() == MAX_QUEUED ==> old(self).lost() < u64::MAX,
        ensures
            final(self).well_formed(),
            final(self).enabled() == old(self).enabled(),
            if old(self).queued().len() < MAX_QUEUED {
                &&& final(self).queued() == old(self).queued().push(message)
                &&& final(self).lost() == old(self).lost()
            } else {
                &&& final(self).queued() == old(self).queued().drop_first().push(message)
                &&& final(self).lost() == old(self).lost() + 1
            },
    {
        if self.queue.len() >= MAX_QUEUED {
            let _ = self.queue.pop_front();
            self.dropped = self.dropped + 1;
            assert(self.queue@ =~= old(self).queued().drop_first());
        }
        self.queue.push_back(message);
    }

    /// Take the oldest unread message.
    pub fn pop(&mut self) -> (message: Option<String>)
        requires
            old(self).well_formed(),
        ensures
            final(self).well_formed(),
            final(self).enabled() == old(self).enabled(),
            final(self).lost() == old(self).lost(),
            match message {
                Some(message) => old(self).queued().len() > 0 && message
                    == old(self).queued().first() && final(self).queued()
                    == old(self).queued().drop_first(),
                None => old(self).queued().len() == 0 && final(self).queued()
                    == old(self).queued(),
            },
    {
        let message = self.queue.pop_front();
        assert(message is Some ==> self.queued() =~= old(self).queued().drop_first());
        message
    }

    /// How many messages were dropped for want of polling. Above zero, the host
    /// does not keep up and its view of the protocol has gaps.
    pub fn dropped(&self) -> (dropped: u64)
        ensures
            dropped == self.lost(),
    {
        self.dropped
    }

    /// The browser sent a protocol message. It is queued where the host
    /// subscribed to the protocol, with what is not text replaced.
    pub fn on_message(&mut self, message: Option<&[u8]>)
        requires
            old(self).well_formed(),
            old(self).queued().len() == MAX_QUEUED ==> old(self).lost() < u64::MAX,
        ensures
            final(self).well_formed(),
            final(self).enabled() == old(self).enabled(),
            if old(self).enabled() && message is Some {
                &&& final(self).queued().len() > 0
                &&& final(self).queued().last()@ == utf8_lossy(message->0@)
                &&& if old(self).queued().len() < MAX_QUEUED {
                    &&& final(self).queued().drop_last() == old(self).queued()
                    &&& final(self).lost() == old(self).lost()
                } else {
                    &&& final(self).queued().drop_last() == old(self).queued().drop_first()
                    &&& final(self).lost() == old(self).lost() + 1
                }
            } else {
                &&& final(self).queued() == old(self).queued()
                &&& final(self).lost() == old(self).lost()
            },
    {
        if self.is_enabled() {
            match message {
                Some(bytes) => {
                    let ghost before = self.queued();
                    self.push(lossy_text(bytes));
                    assert(self.queued().drop_last() =~= if before.len() < MAX_QUEUED {
                        before
                    } else {
                        before.drop_first()
                    });
                },
                None => {},
            }
        }
    }
}

/// What a channel holds and what it lost after messages are pushed and none is
/// read.
pub open spec fn pushed(queued: Seq<String>, lost: nat, messages: Seq<String>) -> (Seq<String>, nat)
    decreases messages.len(),
{
    if messages.len() == 0 {
        (queued, lost)
    } else {
        let (before, gone) = pushed(queued, lost, messages.drop_last());
        if before.len() < MAX_QUEUED {
            (before.push(messages.last()), gone)
        } else {
            (before.drop_first().push(messages.last()), gone + 1)
        }
    }
}

/// A host that stops polling loses the oldest messages and is told how many:
/// what is queued is the newest end of everything sent, and the count is what is
/// missing of it. Nothing is lost up to the bound.
pub proof fn law_the_oldest_are_lost_and_counted(
    queued: Seq<String>,
    lost: nat,
    messages: Seq<String>,
)
    requires
        queued.len() <= MAX_QUEUED,
    ensures
        ({
            let all = queued + messages;
            let (left, gone) = pushed(queued, lost, messages);
            &&& left.len() <= MAX_QUEUED
            &&& gone - lost == all.len() - left.len()
            &&& left == all.skip(gone - lost)
            &&& all.len() <= MAX_QUEUED ==> gone == lost
            &&& all.len() > MAX_QUEUED ==> left.len() == MAX_QUEUED
        }),
    decreases messages.len(),
{
    let all = queued + messages;
    if messages.len() == 0 {
        assert(all =~= queued);
        assert(all.skip(0) =~= queued);
    } else {
        let shorter = messages.drop_last();
        law_the_oldest_are_lost_and_counted(queued, lost, shorter);
        let (before, gone) = pushed(queued, lost, shorter);
        let rest = queued + shorter;
        assert(all =~= rest.push(messages.last()));
        let (left, after) = pushed(queued, lost, messages);
        assert(left =~= all.skip(after - lost));
    }
}

/// A message that arrives is the newest in the queue. The queue holds no more than
/// 512, and one that is full loses its oldest, which is counted.
pub proof fn law_the_newest_message_is_kept(
    before: DevToolsChannel,
    after: DevToolsChannel,
    message: String,
)
    requires
        before.well_formed(),
        exists|channel: &mut DevToolsChannel|
            *channel == before && *final(channel) == after && #[trigger] call_ensures(
                DevToolsChannel::push,
                (channel, message),
                (),
            ),
    ensures
        after.queued().len() <= 512,
        after.queued().last() == message,
        before.queued().len() < 512 ==> after.queued() == before.queued() + seq![message]
            && after.lost() == before.lost(),
        before.queued().len() == 512 ==> after.queued() == before.queued().skip(1) + seq![message]
            && after.lost() == before.lost() + 1,
{
    assert(before.queued().push(message) =~= before.queued() + seq![message]);
    if before.queued().len() == 512 {
        assert(before.queued().drop_first().push(message) =~= before.queued().skip(1)
            + seq![message]);
    }
}

/// A channel that is off, and a message without bytes, leave the queue as it is. A
/// message that is queued says what its bytes said.
pub proof fn law_only_an_open_channel_listens(
    before: DevToolsChannel,
    after: DevToolsChannel,
    message: Option<&[u8]>,
)
    requires
        before.well_formed(),
        exists|channel: &mut DevToolsChannel|
            *channel == before && *final(channel) == after && #[trigger] call_ensures(
                DevToolsChannel::on_message,
                (channel, message),
                (),
            ),
    ensures
        !before.enabled() || message is None ==> after.queued() == before.queued() && after.lost()
            == before.lost(),
        before.enabled() && message is Some ==> after.queued().len() > 0
            && after.queued().last()@ == utf8_lossy(message->0@),
        before.enabled() && message is Some && before.queued().len() < 512
            ==> after.queued().drop_last() == before.queued(),
        after.enabled() == before.enabled(),
{
}

/// Messages come out in the order in which they went in.
pub proof fn law_messages_come_out_in_order(
    before: DevToolsChannel,
    after: DevToolsChannel,
    message: Option<String>,
)
    requires
        exists|channel: &mut DevToolsChannel|
            *channel == before && *final(channel) == after && #[trigger] call_ensures(
                DevToolsChannel::pop,
                (channel,),
                message,
            ),
    ensures
        message is None <==> before.queued().len() == 0,
        message matches Some(message) ==> seq![message] + after.queued() == before.queued(),
        after.lost() == before.lost(),
{
    if let Some(message) = message {
        assert(seq![message] + after.queued() =~= before.queued());
    }
}

} // verus!
