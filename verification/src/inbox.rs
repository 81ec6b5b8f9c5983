//! The single-slot mailbox between the background receive path and the
//! foreground consumer.
//!
//! The slot holds at most one pending `(text, source)` pair. A new arrival
//! overwrites any unread prior value — the inbox is last-write-wins, never a
//! queue — and the consumer's poll atomically reads and clears it. The caller
//! is responsible for guarding a shared `Inbox` with a mutual-exclusion
//! primitive; the contract here is the slot semantics itself.

use vstd::prelude::*;
use vstd::slice::slice_subrange;
use crate::text::{decode_lossy, lossy_decode};

verus! {

/// A received datagram as the foreground consumer sees it: decoded text and
/// the textual `host:port` address it arrived from.
pub struct Message {
    pub text: String,
    pub source: String,
}

/// Mathematical model of a [`Message`]: the character sequences of its parts.
pub struct MsgModel {
    pub text: Seq<char>,
    pub source: Seq<char>,
}

impl View for Message {
    type V = MsgModel;

    open spec fn view(&self) -> MsgModel {
        MsgModel { text: self.text@, source: self.source@ }
    }
}

/// The single pending-message slot. Its model is the pending message, if any.
pub struct Inbox {
    slot: Option<Message>,
}

impl View for Inbox {
    type V = Option<MsgModel>;

    closed spec fn view(&self) -> Option<MsgModel> {
        match self.slot {
            Some(m) => Some(m@),
            None => None,
        }
    }
}

impl Inbox {
    /// What one arrival leaves in the slot: the new message, whatever was
    /// pending before.
    pub open spec fn posted(slot: Option<MsgModel>, m: MsgModel) -> Option<MsgModel> {
        Some(m)
    }

    /// An inbox with nothing pending.
    pub fn new() -> (r: Inbox)
        ensures
            r@ is None,
    {
        Inbox { slot: None }
    }

    /// The receive path's write: overwrite the slot with the new arrival.
    pub fn post(&mut self, m: Message)
        ensures
            final(self)@ == Self::posted(old(self)@, m@),
    {
        self.slot = Some(m);
    }

    /// The consumer's poll: read and clear the slot, never blocking. An empty
    /// poll returns nothing and leaves the inbox as it was.
    pub fn try_take(&mut self) -> (r: Option<Message>)
        ensures
            final(self)@ is None,
            (match r {
                Some(m) => old(self)@ == Some(m@),
                None => old(self)@ is None,
            }),
            old(self)@ is None ==> *final(self) == *old(self),
    {
        self.slot.take()
    }
}

/// The slot contents after a run of arrivals, starting from `slot`.
pub open spec fn slot_after(slot: Option<MsgModel>, arrivals: Seq<MsgModel>) -> Option<MsgModel>
    decreases arrivals.len(),
{
    if arrivals.len() == 0 {
        slot
    } else {
        Inbox::posted(slot_after(slot, arrivals.drop_last()), arrivals.last())
    }
}

/// Law: datagrams arriving between two polls coalesce. After one or more
/// arrivals, the slot holds exactly the last one; the earlier arrivals in
/// that window are not retrievable.
pub proof fn lemma_single_slot_coalescing(slot: Option<MsgModel>, arrivals: Seq<MsgModel>)
    requires
        arrivals.len() >= 1,
    ensures
        slot_after(slot, arrivals) == Some(arrivals.last()),
{
}

/// Longest payload a single receive delivers; a longer datagram is truncated
/// to its first `MAX_DATAGRAM` bytes.
pub const MAX_DATAGRAM: usize = 1024;

/// The bytes a receive keeps of an arrived datagram: at most `MAX_DATAGRAM`
/// of them.
pub open spec fn received_bytes(data: Seq<u8>) -> Seq<u8> {
    if data.len() <= MAX_DATAGRAM {
        data
    } else {
        data.take(MAX_DATAGRAM as int)
    }
}

/// The receive path's handling of one arrived datagram: truncate it to the
/// receive buffer's size, decode it lossily as UTF-8 text, and overwrite the
/// slot with the result and the datagram's source address.
pub fn ingest_datagram(inbox: &mut Inbox, data: &[u8], source: String)
    ensures
        final(inbox)@ == Some(MsgModel {
            text: lossy_decode(received_bytes(data@)),
            source: source@,
        }),
{
    let kept: &[u8] = if data.len() > MAX_DATAGRAM {
        slice_subrange(data, 0, MAX_DATAGRAM)
    } else {
        data
    };
    let text = decode_lossy(kept);
    inbox.post(Message { text, source });
}

/// How long the background loop suspends when the socket has nothing pending,
/// in milliseconds.
pub const BACKOFF_MILLIS: u64 = 10;

/// What one non-blocking receive attempt yielded.
pub enum RecvEvent {
    /// A datagram arrived: its raw bytes and textual source address.
    Datagram(Vec<u8>, String),
    /// The socket had nothing pending.
    WouldBlock,
    /// Any other I/O error.
    Failed,
}

/// What the background receive loop must do after one receive attempt.
#[derive(Clone, Copy, PartialEq, Eq, Structural, Debug)]
pub enum RecvAction {
    /// Try the next receive immediately.
    Continue,
    /// Suspend for [`BACKOFF_MILLIS`] before retrying.
    Backoff,
    /// Stop for good: no further datagram will ever arrive. The failure is
    /// fatal to the receive loop only, never to the foreground path.
    Stop,
}

/// One step of the background receive loop's poll/backoff strategy: an
/// arrived datagram overwrites the slot and the loop goes straight on; an
/// idle socket leaves the slot alone and the loop backs off; any other
/// receive failure leaves the slot alone and ends the loop.
pub fn receive_step(inbox: &mut Inbox, event: RecvEvent) -> (action: RecvAction)
    ensures
        (match event {
            RecvEvent::Datagram(data, source) => final(inbox)@ == Some(MsgModel {
                text: lossy_decode(received_bytes(data@)),
                source: source@,
            }) && action == RecvAction::Continue,
            RecvEvent::WouldBlock => *final(inbox) == *old(inbox) && action == RecvAction::Backoff,
            RecvEvent::Failed => *final(inbox) == *old(inbox) && action == RecvAction::Stop,
        }),
{
    match event {
        RecvEvent::Datagram(data, source) => {
            ingest_datagram(inbox, data.as_slice(), source);
            RecvAction::Continue
        },
        RecvEvent::WouldBlock => RecvAction::Backoff,
        RecvEvent::Failed => RecvAction::Stop,
    }
}

} // verus!
