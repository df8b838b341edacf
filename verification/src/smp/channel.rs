//! Messages that kernel threads on different cores send each other.

use vstd::prelude::*;

use crate::smp::ipc::IPCInterThreadMessage;

verus! {

/// The bit of a receiver set that stands for thread `id`.
pub open spec fn receiver_bit(id: u8) -> usize {
    1usize << id
}

/// Whether thread `id` is in the receiver set `receivers`.
pub open spec fn in_receivers(receivers: usize, id: u8) -> bool {
    receivers & receiver_bit(id) != 0
}

/// The thread ids that a receiver set can name: one per bit of a `usize`.
pub open spec fn valid_thread_id(id: u8) -> bool {
    (id as u32) < usize::BITS
}

/// A channel between kernel threads. Implementations decide how messages
/// travel; the unit type is the channel that carries nothing.
pub trait InterThreadChannel {
    type MessageId;

    fn write(&self, target: usize, msg: &InterThreadMessage) -> Self::MessageId;

    /// The message under `msg_id`, if it has arrived; a channel that does
    /// not say otherwise has none.
    fn try_read(&self, msg_id: &Self::MessageId) -> (r: Option<(usize, InterThreadMessage)>)
        default_ensures
            r is None,
    {
        None
    }

    /// The message under `msg_id`; a channel that does not say otherwise
    /// has none.
    fn read(&self, msg_id: Self::MessageId) -> (r: Option<(usize, InterThreadMessage)>)
        default_ensures
            r is None,
    {
        None
    }
}

impl InterThreadChannel for () {
    type MessageId = ();

    fn write(&self, target: usize, msg: &InterThreadMessage) {
    }

    fn try_read(&self, msg_id: &()) -> (r: Option<(usize, InterThreadMessage)>)
        ensures
            r is None,
    {
        None
    }

    fn read(&self, msg_id: ()) -> (r: Option<(usize, InterThreadMessage)>)
        ensures
            r is None,
    {
        None
    }
}

/// Who sent a message, the set of threads it is for (one bit per thread id)
/// and its unique id.
#[derive(Clone, Copy, Debug, PartialEq, Eq, Structural)]
pub struct InterThreadMessageHeader {
    pub sender: u8,
    pub receivers: usize,
    pub uid: usize,
}

#[derive(Clone, Copy, Debug, PartialEq, Eq)]
pub enum InterThreadMessageBody {
    Invalid,
    Ipc(IPCInterThreadMessage),
}

#[derive(Clone, Copy, Debug, PartialEq, Eq)]
pub struct InterThreadMessage(InterThreadMessageHeader, InterThreadMessageBody);

impl InterThreadMessageHeader {
    pub fn empty() -> (r: Self)
        ensures
            r == (InterThreadMessageHeader { sender: 0, receivers: 0, uid: 0 }),
    {
        Self { sender: 0, receivers: 0, uid: 0 }
    }

    /// A header from thread `sender` for thread `receiver` alone; the sender
    /// id is kept in a byte.
    pub fn new(sender: usize, receiver: usize, uid: usize) -> (r: Self)
        requires
            receiver < usize::BITS,
        ensures
            r.sender == sender as u8,
            r.receivers == 1usize << receiver,
            r.uid == uid,
    {
        Self { sender: sender as u8, receivers: 1usize << receiver, uid }
    }
}

impl InterThreadMessage {
    pub closed spec fn spec_header(&self) -> InterThreadMessageHeader {
        self.0
    }

    pub closed spec fn spec_body(&self) -> InterThreadMessageBody {
        self.1
    }

    pub fn from_parts(header: InterThreadMessageHeader, body: InterThreadMessageBody) -> (r: Self)
        ensures
            r.spec_header() == header,
            r.spec_body() == body,
    {
        Self(header, body)
    }

    pub fn empty() -> (r: Self)
        ensures
            r.spec_header() == (InterThreadMessageHeader { sender: 0, receivers: 0, uid: 0 }),
            r.spec_body() == InterThreadMessageBody::Invalid,
    {
        Self(InterThreadMessageHeader::empty(), InterThreadMessageBody::Invalid)
    }

    pub fn header(&self) -> (r: &InterThreadMessageHeader)
        ensures
            *r == self.spec_header(),
    {
        &self.0
    }

    pub fn body(&self) -> (r: &InterThreadMessageBody)
        ensures
            *r == self.spec_body(),
    {
        &self.1
    }

    /// The answer from thread `sender` to this message: it goes back to the
    /// thread that sent this one, under the same unique id.
    pub fn to_response(&self, sender: usize, body: InterThreadMessageBody) -> (r: Self)
        requires
            (self.spec_header().sender as u32) < usize::BITS,
        ensures
            r.spec_header().sender == sender as u8,
            r.spec_header().receivers == 1usize << self.spec_header().sender,
            r.spec_header().uid == self.spec_header().uid,
            r.spec_body() == body,
    {
        let receiver = self.0.sender as usize;
        let header = InterThreadMessageHeader::new(sender, receiver, self.0.uid);
        Self(header, body)
    }
}

/// A message in flight, with the set of threads that have yet to take it.
#[derive(Clone, Copy, Debug, PartialEq, Eq)]
pub struct InterThreadMessageWrapper {
    pub sender: u8,
    pub receivers: usize,
    pub uid: usize,
    pub message: InterThreadMessage,
}

impl InterThreadMessageWrapper {
    pub fn empty() -> (r: Self)
        ensures
            r.sender == 0,
            r.receivers == 0,
            r.uid == 0,
            r.message.spec_header() == (InterThreadMessageHeader { sender: 0, receivers: 0, uid: 0 }),
            r.message.spec_body() == InterThreadMessageBody::Invalid,
    {
        Self { sender: 0, receivers: 0, uid: 0, message: InterThreadMessage::empty() }
    }

    /// A message from thread `sender` waiting for thread `receiver` alone.
    pub fn new(sender: u8, receiver: u8, uid: usize, message: InterThreadMessage) -> (r: Self)
        requires
            valid_thread_id(receiver),
        ensures
            r.sender == sender,
            r.receivers == receiver_bit(receiver),
            r.uid == uid,
            r.message == message,
    {
        Self { sender, receivers: 1usize << receiver, uid, message }
    }

    pub fn id(&self) -> (r: usize)
        ensures
            r == self.uid,
    {
        self.uid
    }

    /// Whether thread `receiver` has yet to take this message.
    pub fn is_recipient(&self, receiver: u8) -> (r: bool)
        requires
            valid_thread_id(receiver),
        ensures
            r == in_receivers(self.receivers, receiver),
    {
        let bitmask: usize = 1usize << receiver;
        self.receivers & bitmask != 0
    }

    /// Records that thread `receiver` has taken the message; returns the set
    /// of threads still waiting, which is empty when everyone has it.
    pub fn mark_recipient(&mut self, receiver: u8) -> (r: usize)
        requires
            valid_thread_id(receiver),
        ensures
            final(self).receivers == old(self).receivers & !receiver_bit(receiver),
            r == final(self).receivers,
            final(self).sender == old(self).sender,
            final(self).uid == old(self).uid,
            final(self).message == old(self).message,
    {
        let bitmask: usize = 1usize << receiver;
        self.receivers = self.receivers & !bitmask;
        self.receivers
    }

    /// The message carried.
    pub fn extract(&self) -> (r: InterThreadMessage)
        ensures
            r == self.message,
    {
        self.message
    }
}

/// A message sent to one thread is waiting for that thread and no other.
pub proof fn lemma_single_receiver(receiver: u8, other: u8)
    requires
        valid_thread_id(receiver),
        valid_thread_id(other),
    ensures
        in_receivers(receiver_bit(receiver), other) <==> other == receiver,
{
    assert(((1usize << receiver) & (1usize << other) != 0) <==> other == receiver) by (bit_vector)
        requires
            (receiver as u32) < usize::BITS,
            (other as u32) < usize::BITS,
    ;
}

/// Marking thread `r` as served removes `r` from the waiting set and leaves
/// every other thread as it was.
pub proof fn lemma_mark_recipient(receivers: usize, r: u8, other: u8)
    requires
        valid_thread_id(r),
        valid_thread_id(other),
    ensures
        !in_receivers(receivers & !receiver_bit(r), r),
        other != r ==> (in_receivers(receivers & !receiver_bit(r), other) <==> in_receivers(
            receivers,
            other,
        )),
{
    assert((receivers & !(1usize << r)) & (1usize << r) == 0) by (bit_vector)
        requires
            (r as u32) < usize::BITS,
    ;
    assert(other != r ==> (((receivers & !(1usize << r)) & (1usize << other) != 0) <==> (receivers
        & (1usize << other) != 0))) by (bit_vector)
        requires
            (r as u32) < usize::BITS,
            (other as u32) < usize::BITS,
    ;
}

/// Marking threads one after another keeps the sender, the unique id and
/// the message, and leaves waiting exactly the threads that waited before
/// and were not marked: `ws[i]` is the wrapper after the first `i` marks.
pub proof fn lemma_marks_keep_message(ws: Seq<InterThreadMessageWrapper>, marks: Seq<u8>, t: u8)
    requires
        ws.len() == marks.len() + 1,
        valid_thread_id(t),
        forall|i: int| 0 <= i < marks.len() ==> valid_thread_id(#[trigger] marks[i]),
        forall|i: int|
            0 <= i < marks.len() ==> {
                &&& #[trigger] ws[i + 1].receivers == ws[i].receivers & !receiver_bit(marks[i])
                &&& ws[i + 1].sender == ws[i].sender
                &&& ws[i + 1].uid == ws[i].uid
                &&& ws[i + 1].message == ws[i].message
            },
    ensures
        ws[marks.len() as int].uid == ws[0].uid,
        ws[marks.len() as int].sender == ws[0].sender,
        ws[marks.len() as int].message == ws[0].message,
        in_receivers(ws[marks.len() as int].receivers, t) <==> (in_receivers(ws[0].receivers, t)
            && !marks.contains(t)),
    decreases marks.len(),
{
    if marks.len() > 0 {
        let n = marks.len() - 1;
        let prefix = ws.take(n + 1);
        let pm = marks.drop_last();
        assert forall|i: int| 0 <= i < pm.len() implies valid_thread_id(#[trigger] pm[i]) by {
            assert(pm[i] == marks[i]);
        }
        assert forall|i: int| 0 <= i < pm.len() implies {
            &&& #[trigger] prefix[i + 1].receivers == prefix[i].receivers & !receiver_bit(pm[i])
            &&& prefix[i + 1].sender == prefix[i].sender
            &&& prefix[i + 1].uid == prefix[i].uid
            &&& prefix[i + 1].message == prefix[i].message
        } by {
            assert(prefix[i + 1] == ws[i + 1]);
            assert(prefix[i] == ws[i]);
            assert(pm[i] == marks[i]);
        }
        lemma_marks_keep_message(prefix, pm, t);
        assert(prefix[n] == ws[n]);
        assert(prefix[0] == ws[0]);
        assert(ws[n + 1].receivers == ws[n].receivers & !receiver_bit(marks[n]));
        assert(valid_thread_id(marks[n]));
        lemma_mark_recipient(ws[n].receivers, marks[n], t);
        assert(marks.contains(t) <==> (pm.contains(t) || marks[n] == t)) by {
            if marks.contains(t) {
                let k = choose|k: int| 0 <= k < marks.len() && marks[k] == t;
                if k < n {
                    assert(pm[k] == t);
                }
            }
            if pm.contains(t) {
                let k = choose|k: int| 0 <= k < pm.len() && pm[k] == t;
                assert(marks[k] == t);
            }
            if marks[n] == t {
                assert(marks[n] == t);
            }
        }
    } else {
        assert(!marks.contains(t));
    }
}

} // verus!
