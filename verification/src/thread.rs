//! The client's side of a conversation: composing an envelope from what was
//! typed, and keeping one guest's thread in order. Within a thread the
//! `message_id` is both the ordering key and the key by which repeats are
//! recognised.

use vstd::prelude::*;
use crate::checksum::crc32c_of;
use crate::envelope::{Message, MessageView, SenderType};
use crate::wire::copy_range;

verus! {

/// Microseconds in a millisecond.
pub const MICROS_PER_MILLI: u64 = 1000;

/// One line of a thread.
#[derive(Debug, PartialEq, Eq)]
pub struct ThreadEntry {
    pub message_id: u64,
    pub sender_type: SenderType,
    pub content: Vec<u8>,
    pub timestamp_us: u64,
}

/// One guest's thread.
#[derive(Debug, PartialEq, Eq)]
pub struct Thread {
    entries: Vec<ThreadEntry>,
}

/// Whether the lines stand in strictly ascending order of `message_id`.
pub open spec fn ascending(entries: Seq<ThreadEntry>) -> bool {
    forall|i: int, j: int|
        0 <= i < j < entries.len() ==> (#[trigger] entries[i]).message_id < (
        #[trigger] entries[j]).message_id
}

/// Whether a line has this `message_id`.
pub open spec fn holds_id(entries: Seq<ThreadEntry>, message_id: u64) -> bool {
    exists|i: int| 0 <= i < entries.len() && (#[trigger] entries[i]).message_id == message_id
}

/// Whether a line is the line of an envelope.
pub open spec fn entry_of(entry: ThreadEntry, m: MessageView) -> bool {
    &&& entry.message_id == m.message_id
    &&& entry.sender_type == m.sender_type
    &&& entry.content@ == m.content
    &&& entry.timestamp_us == m.timestamp_us
}

/// Whether `after` is `before` with `entry` put in at some place.
pub open spec fn placed(before: Seq<ThreadEntry>, after: Seq<ThreadEntry>, entry: ThreadEntry) -> bool {
    exists|at: int| 0 <= at <= before.len() && after == #[trigger] before.insert(at, entry)
}

/// Whether `after` is `before` with the line of an envelope put in at some
/// place.
pub open spec fn took_in(before: Seq<ThreadEntry>, after: Seq<ThreadEntry>, m: MessageView) -> bool {
    exists|entry: ThreadEntry| entry_of(entry, m) && #[trigger] placed(before, after, entry)
}

/// Whether an envelope that came over the socket is the echo of what this
/// guest sent itself.
pub open spec fn own_echo(m: MessageView, my_guest_id: u64) -> bool {
    m.sender_type == SenderType::Guest && m.guest_id == my_guest_id
}

/// The envelope for a payload written at `now_ms` milliseconds: the time in
/// microseconds is both its `message_id` and its timestamp, and the payload
/// is sealed. `None` for an empty payload, for guest zero, and for a time
/// that does not fit in microseconds.
pub open spec fn composed(
    shop_id: Seq<char>,
    guest_id: u64,
    sender_type: SenderType,
    content: Seq<u8>,
    now_ms: u64,
) -> Option<MessageView> {
    if content.len() == 0 || guest_id == 0 || now_ms * MICROS_PER_MILLI > u64::MAX {
        None
    } else {
        Some(
            MessageView {
                shop_id,
                guest_id,
                message_id: (now_ms * MICROS_PER_MILLI) as u64,
                sender_type,
                content,
                timestamp_us: (now_ms * MICROS_PER_MILLI) as u64,
                content_crc: crc32c_of(content),
            },
        )
    }
}

/// Composes the envelope for a payload written at `now_ms` milliseconds.
pub fn compose(
    shop_id: String,
    guest_id: u64,
    sender_type: SenderType,
    content: Vec<u8>,
    now_ms: u64,
) -> (r: Option<Message>)
    ensures
        match composed(shop_id@, guest_id, sender_type, content@, now_ms) {
            Some(v) => r matches Some(m) && m@ == v,
            None => r is None,
        },
{
    if content.len() == 0 || guest_id == 0 || now_ms > u64::MAX / MICROS_PER_MILLI {
        return None;
    }
    let stamp: u64 = now_ms * MICROS_PER_MILLI;
    Some(Message::new(shop_id, guest_id, stamp, sender_type, content, stamp))
}

/// Whether `envelope` is the echo of what guest `my_guest_id` sent itself.
pub fn is_own_echo(envelope: &Message, my_guest_id: u64) -> (echo: bool)
    ensures
        echo == own_echo(envelope@, my_guest_id),
{
    match envelope.sender_type {
        SenderType::Guest => envelope.guest_id == my_guest_id,
        SenderType::Admin => false,
    }
}

impl Thread {
    /// The lines of the thread, first to last.
    pub closed spec fn entries(&self) -> Seq<ThreadEntry> {
        self.entries@
    }

    /// The thread's invariant: strictly ascending `message_id`s, hence no
    /// `message_id` twice.
    pub open spec fn wf(&self) -> bool {
        ascending(self.entries())
    }

    /// An empty thread.
    pub fn new() -> (t: Thread)
        ensures
            t.wf(),
            t.entries() == Seq::<ThreadEntry>::empty(),
    {
        Thread { entries: Vec::new() }
    }

    /// The number of lines.
    pub fn len(&self) -> (n: usize)
        ensures
            n == self.entries().len(),
    {
        self.entries.len()
    }

    /// The line at position `i`.
    pub fn entry(&self, i: usize) -> (e: &ThreadEntry)
        requires
            i < self.entries().len(),
        ensures
            *e == self.entries()[i as int],
    {
        &self.entries[i]
    }

    /// Whether a line has this `message_id`.
    pub fn contains(&self, message_id: u64) -> (found: bool)
        ensures
            found == holds_id(self.entries(), message_id),
    {
        let mut i: usize = 0;
        while i < self.entries.len()
            invariant
                i <= self.entries@.len(),
                forall|k: int| 0 <= k < i ==> (#[trigger] self.entries@[k]).message_id != message_id,
            decreases self.entries@.len() - i,
        {
            if self.entries[i].message_id == message_id {
                return true;
            }
            i = i + 1;
        }
        false
    }

    /// Puts a line where its `message_id` places it. A line whose
    /// `message_id` the thread already holds is a repeat: it is left out and
    /// the thread stays as it is.
    pub fn insert(&mut self, entry: ThreadEntry) -> (inserted: bool)
        requires
            old(self).wf(),
        ensures
            final(self).wf(),
            inserted == !holds_id(old(self).entries(), entry.message_id),
            !inserted ==> final(self).entries() == old(self).entries(),
            inserted ==> placed(old(self).entries(), final(self).entries(), entry),
    {
        let mut at: usize = 0;
        while at < self.entries.len() && self.entries[at].message_id < entry.message_id
            invariant
                at <= self.entries@.len(),
                self.entries@ == old(self).entries@,
                forall|k: int| 0 <= k < at ==> (#[trigger] self.entries@[k]).message_id
                    < entry.message_id,
            decreases self.entries@.len() - at,
        {
            at = at + 1;
        }
        if at < self.entries.len() && self.entries[at].message_id == entry.message_id {
            return false;
        }
        self.entries.insert(at, entry);
        true
    }

    /// Takes in an envelope loaded from history.
    pub fn load(&mut self, envelope: &Message) -> (inserted: bool)
        requires
            old(self).wf(),
        ensures
            final(self).wf(),
            inserted == !holds_id(old(self).entries(), envelope.message_id),
            !inserted ==> final(self).entries() == old(self).entries(),
            inserted ==> took_in(old(self).entries(), final(self).entries(), envelope@),
    {
        let entry = ThreadEntry {
            message_id: envelope.message_id,
            sender_type: envelope.sender_type,
            content: copy_range(envelope.content.as_slice(), 0, envelope.content.len()),
            timestamp_us: envelope.timestamp_us,
        };
        assert(entry.content@ =~= envelope@.content);
        self.insert(entry)
    }

    /// Takes in an envelope that came over the socket of guest
    /// `my_guest_id`. The guest's own echo is left out: what the guest sent
    /// is in the thread since it was sent.
    pub fn receive(&mut self, envelope: &Message, my_guest_id: u64) -> (inserted: bool)
        requires
            old(self).wf(),
        ensures
            final(self).wf(),
            inserted == (!own_echo(envelope@, my_guest_id) && !holds_id(
                old(self).entries(),
                envelope.message_id,
            )),
            !inserted ==> final(self).entries() == old(self).entries(),
            inserted ==> took_in(old(self).entries(), final(self).entries(), envelope@),
    {
        if is_own_echo(envelope, my_guest_id) {
            return false;
        }
        self.load(envelope)
    }
}

/// After a line went in, the thread holds its `message_id`, and a second
/// line with that `message_id` would be a repeat.
pub proof fn lemma_inserted_id_is_held(before: Seq<ThreadEntry>, at: int, entry: ThreadEntry)
    requires
        0 <= at <= before.len(),
    ensures
        holds_id(before.insert(at, entry), entry.message_id),
{
    assert(before.insert(at, entry)[at].message_id == entry.message_id);
}

} // verus!
