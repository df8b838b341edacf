//! One-way inter-kernel channel: the sender hart posts requests through a
//! buffer shared with the receiver hart, and the receiver answers each
//! request through the same buffer.
//!
//! Each side keeps its messages in a local ring. Handing over copies the ring
//! into the shared buffer and empties it; taking over copies the shared
//! buffer into the ring and clears the shared buffer, so that at no time do
//! both sides work on the shared buffer.

use vstd::prelude::*;

use crate::chips::qemu_rv32_virt_chip::channel::{
    HardwareRequest, QemuRv32VirtChannel, QemuRv32VirtMessage, QemuRv32VirtMessageBody,
};
use crate::collections::ring_buffer::{lemma_capacity_of_slots, RingBuffer};

verus! {

/// The shared buffer after a side hands over its queue `items`: the items in
/// order, as many as the `n` slots hold, and empty slots after them.
pub open spec fn handed_over(items: Seq<Option<QemuRv32VirtMessage>>, n: nat) -> Seq<
    Option<QemuRv32VirtMessage>,
> {
    Seq::new(n, |i: int| if i < items.len() { items[i] } else { None })
}

/// `n` empty slots.
pub open spec fn cleared(n: nat) -> Seq<Option<QemuRv32VirtMessage>> {
    Seq::new(n, |i: int| None)
}

/// The answer the receiver gives to a request carrying `x`.
pub open spec fn response_to(x: u32) -> QemuRv32VirtMessage {
    QemuRv32VirtMessage { src: 1, dst: 0, body: QemuRv32VirtMessageBody::Response(x) }
}

/// Copies a slice into a fresh vector.
fn slots_from(buffer: &[Option<QemuRv32VirtMessage>]) -> (r: Vec<Option<QemuRv32VirtMessage>>)
    ensures
        r@ == buffer@,
{
    let mut slots: Vec<Option<QemuRv32VirtMessage>> = Vec::new();
    let mut i: usize = 0;
    while i < buffer.len()
        invariant
            i <= buffer@.len(),
            slots@ == buffer@.subrange(0, i as int),
        decreases buffer@.len() - i,
    {
        slots.push(buffer[i]);
        i = i + 1;
        assert(slots@ =~= buffer@.subrange(0, i as int));
    }
    slots
}

/// Empties every slot of the shared buffer.
fn flush(shared: &mut [Option<QemuRv32VirtMessage>])
    ensures
        final(shared)@ == cleared(old(shared)@.len()),
{
    let mut i: usize = 0;
    while i < shared.len()
        invariant
            i <= shared@.len(),
            shared@.len() == old(shared)@.len(),
            forall|j: int| 0 <= j < i ==> shared@[j] is None,
        decreases shared@.len() - i,
    {
        shared[i] = None;
        i = i + 1;
    }
    assert(shared@ =~= cleared(old(shared)@.len()));
}

/// Hands the local queue over: flushes the shared buffer, moves as many
/// queued items into it as it holds, then drops what is left locally.
fn hand_over(
    channel: &mut RingBuffer<Option<QemuRv32VirtMessage>>,
    shared: &mut [Option<QemuRv32VirtMessage>],
)
    requires
        old(channel).wf(),
    ensures
        final(channel).wf(),
        final(channel).capacity() == old(channel).capacity(),
        final(channel).slots() == old(channel).slots(),
        final(channel)@ == Seq::<Option<QemuRv32VirtMessage>>::empty(),
        final(shared)@ == handed_over(old(channel)@, old(shared)@.len()),
{
    flush(shared);
    let ghost items = channel@;
    let ghost n = shared@.len();
    let mut i: usize = 0;
    while i < shared.len()
        invariant_except_break
            channel.wf(),
            channel.capacity() == old(channel).capacity(),
            channel.slots() == old(channel).slots(),
            i <= n,
            i <= items.len(),
            shared@.len() == n,
            channel@ == items.skip(i as int),
            forall|j: int| 0 <= j < i ==> shared@[j] == items[j],
            forall|j: int| i <= j < n ==> shared@[j] is None,
        ensures
            channel.wf(),
            channel.capacity() == old(channel).capacity(),
            channel.slots() == old(channel).slots(),
            shared@.len() == n,
            forall|j: int| 0 <= j < n ==> shared@[j] == handed_over(items, n)[j],
        decreases n - i,
    {
        match channel.dequeue() {
            Some(copy) => {
                shared[i] = copy;
            },
            None => {
                break ;
            },
        }
        i = i + 1;
    }
    channel.empty();
    assert(shared@ =~= handed_over(items, n));
}

/// Takes the shared buffer over into an emptied local queue, pushing each
/// slot in turn; the queue has room for all of them.
fn take_over_pushing(
    channel: &mut RingBuffer<Option<QemuRv32VirtMessage>>,
    shared: &mut [Option<QemuRv32VirtMessage>],
)
    requires
        old(channel).wf(),
        old(shared)@.len() <= old(channel).capacity(),
    ensures
        final(channel).wf(),
        final(channel).capacity() == old(channel).capacity(),
        final(channel).slots() == old(channel).slots(),
        final(channel)@ == old(shared)@,
        final(shared)@ == cleared(old(shared)@.len()),
{
    channel.empty();
    let mut i: usize = 0;
    while i < shared.len()
        invariant
            channel.wf(),
            channel.capacity() == old(channel).capacity(),
            channel.slots() == old(channel).slots(),
            i <= shared@.len(),
            shared@ == old(shared)@,
            shared@.len() <= channel.capacity(),
            channel@ == shared@.subrange(0, i as int),
        decreases shared@.len() - i,
    {
        proof {
            lemma_capacity_of_slots(channel);
        }
        let dropped = channel.push(shared[i]);
        if dropped.is_some() {
            proof {
                assert(false);
            }
        }
        i = i + 1;
        assert(channel@ =~= shared@.subrange(0, i as int));
    }
    assert(shared@.subrange(0, shared@.len() as int) =~= shared@);
    flush(shared);
}

/// Takes the shared buffer over into an emptied local queue, enqueueing
/// each slot in turn; slots beyond the queue's capacity are dropped.
fn take_over_enqueueing(
    channel: &mut RingBuffer<Option<QemuRv32VirtMessage>>,
    shared: &mut [Option<QemuRv32VirtMessage>],
)
    requires
        old(channel).wf(),
        old(shared)@.len() > 0 ==> old(channel).slots() >= 1,
    ensures
        final(channel).wf(),
        final(channel).capacity() == old(channel).capacity(),
        final(channel).slots() == old(channel).slots(),
        final(channel)@ == old(shared)@.take(
            if old(shared)@.len() <= old(channel).capacity() {
                old(shared)@.len() as int
            } else {
                old(channel).capacity() as int
            },
        ),
        final(shared)@ == cleared(old(shared)@.len()),
{
    channel.empty();
    let ghost cap = channel.capacity();
    let mut i: usize = 0;
    while i < shared.len()
        invariant
            channel.wf(),
            channel.capacity() == cap,
            channel.slots() == old(channel).slots(),
            shared@.len() > 0 ==> channel.slots() >= 1,
            cap == old(channel).capacity(),
            i <= shared@.len(),
            shared@ == old(shared)@,
            channel@ == shared@.take(if i <= cap { i as int } else { cap as int }),
        decreases shared@.len() - i,
    {
        channel.enqueue(shared[i]);
        i = i + 1;
        assert(channel@ =~= shared@.take(if i <= cap { i as int } else { cap as int }));
    }
    flush(shared);
}

pub struct OneWayQemuRv32VirtChannelSender {
    channel: RingBuffer<Option<QemuRv32VirtMessage>>,
    notified: usize,
    requests: Vec<HardwareRequest>,
}

pub struct OneWayQemuRv32VirtChannelReceiver {
    channel: RingBuffer<Option<QemuRv32VirtMessage>>,
    notified: usize,
    requests: Vec<HardwareRequest>,
}

impl OneWayQemuRv32VirtChannelSender {
    pub closed spec fn wf(&self) -> bool {
        self.channel.wf()
    }

    /// The local queue, oldest first.
    pub closed spec fn local(&self) -> Seq<Option<QemuRv32VirtMessage>> {
        self.channel@
    }

    pub closed spec fn capacity(&self) -> nat {
        self.channel.capacity()
    }

    /// How many slots the local ring has.
    pub closed spec fn slots(&self) -> nat {
        self.channel.slots()
    }

    /// Signals from the receiver not yet handled.
    pub closed spec fn notified(&self) -> nat {
        self.notified as nat
    }

    /// Hardware steps asked for and not yet taken by the caller.
    pub closed spec fn requests(&self) -> Seq<HardwareRequest> {
        self.requests@
    }

    /// A sender whose local queue uses the given slots.
    pub fn new(local_buffer: &[Option<QemuRv32VirtMessage>]) -> (r: Self)
        ensures
            r.wf(),
            r.local() == Seq::<Option<QemuRv32VirtMessage>>::empty(),
            r.slots() == local_buffer@.len(),
            r.capacity() == (if local_buffer@.len() == 0 { 0 } else { local_buffer@.len() - 1 }),
            r.notified() == 0,
            r.requests() == Seq::<HardwareRequest>::empty(),
    {
        OneWayQemuRv32VirtChannelSender {
            channel: RingBuffer::new(slots_from(local_buffer)),
            notified: 0,
            requests: Vec::new(),
        }
    }

    /// How many slots the local ring has.
    pub fn slot_count(&self) -> (r: usize)
        requires
            self.wf(),
        ensures
            r == self.slots(),
    {
        self.channel.slot_count()
    }

    /// How many signals are not yet handled.
    pub fn notified_count(&self) -> (r: usize)
        ensures
            r == self.notified(),
    {
        self.notified
    }

    /// The oldest item of the local queue, left in place, if there is one.
    pub fn front(&self) -> (r: Option<Option<QemuRv32VirtMessage>>)
        requires
            self.wf(),
        ensures
            self.local().len() == 0 ==> r is None,
            self.local().len() > 0 ==> r == Some(self.local()[0]),
    {
        self.channel.peek()
    }

    /// Hands the hardware steps asked for so far to the caller.
    pub fn take_requests(&mut self) -> (r: Vec<HardwareRequest>)
        ensures
            r@ == old(self).requests(),
            final(self).requests() == Seq::<HardwareRequest>::empty(),
            final(self).local() == old(self).local(),
            final(self).wf() == old(self).wf(),
            final(self).capacity() == old(self).capacity(),
            final(self).slots() == old(self).slots(),
            final(self).notified() == old(self).notified(),
    {
        let mut r: Vec<HardwareRequest> = Vec::new();
        std::mem::swap(&mut r, &mut self.requests);
        r
    }

    /// Takes the oldest item of the local queue; a message in it must be a
    /// response, whose value is returned.
    pub fn do_service(&mut self) -> (r: Option<u32>)
        requires
            old(self).wf(),
            old(self).local().len() > 0 && old(self).local()[0] is Some
                ==> old(self).local()[0]->0.body is Response,
        ensures
            final(self).wf(),
            final(self).capacity() == old(self).capacity(),
            final(self).slots() == old(self).slots(),
            final(self).notified() == old(self).notified(),
            final(self).requests() == old(self).requests(),
            old(self).local().len() == 0 ==> r is None && final(self).local() == old(self).local(),
            old(self).local().len() > 0 ==> final(self).local() == old(self).local().drop_first()
                && r == match old(self).local()[0] {
                Some(m) => Some(m.body->Response_0),
                None => None,
            },
    {
        match self.channel.dequeue() {
            Some(Some(message)) => match message.body {
                QemuRv32VirtMessageBody::Response(res) => Some(res),
                _ => vstd::pervasive::unreached(),
            },
            _ => None,
        }
    }

    /// Hands the local queue over to the receiver, then asks for the alarm
    /// to be armed for `duration` ticks and for the receiver hart to be
    /// signalled.
    pub fn send(
        &mut self,
        shared: &mut [Option<QemuRv32VirtMessage>],
        message: QemuRv32VirtMessage,
        duration: u32,
    )
        requires
            old(self).wf(),
        ensures
            final(self).wf(),
            final(self).capacity() == old(self).capacity(),
            final(self).slots() == old(self).slots(),
            final(self).notified() == old(self).notified(),
            final(self).local() == Seq::<Option<QemuRv32VirtMessage>>::empty(),
            final(shared)@ == handed_over(old(self).local(), old(shared)@.len()),
            final(self).requests() == old(self).requests().push(
                HardwareRequest::SetAlarmTicks(duration),
            ).push(HardwareRequest::Notify(1)),
    {
        hand_over(&mut self.channel, shared);
        self.requests.push(HardwareRequest::SetAlarmTicks(duration));
        self.requests.push(HardwareRequest::Notify(1));
    }

    /// Takes the receiver's answers over from the shared buffer, after
    /// asking for the deadline alarm to be disarmed.
    fn service_prepare(&mut self, shared: &mut [Option<QemuRv32VirtMessage>])
        requires
            old(self).wf(),
            old(shared)@.len() <= old(self).capacity(),
        ensures
            final(self).wf(),
            final(self).capacity() == old(self).capacity(),
            final(self).slots() == old(self).slots(),
            final(self).notified() == old(self).notified(),
            final(self).local() == old(shared)@,
            final(shared)@ == cleared(old(shared)@.len()),
            final(self).requests() == old(self).requests().push(HardwareRequest::DisarmAlarm),
    {
        self.requests.push(HardwareRequest::DisarmAlarm);
        take_over_pushing(&mut self.channel, shared);
    }

    /// Takes the receiver's answers over and handles the first of them.
    pub fn service(&mut self, shared: &mut [Option<QemuRv32VirtMessage>]) -> (r: Option<u32>)
        requires
            old(self).wf(),
            old(shared)@.len() <= old(self).capacity(),
            old(shared)@.len() > 0 && old(shared)@[0] is Some ==> old(shared)@[0]->0.body is Response,
        ensures
            final(self).wf(),
            final(self).capacity() == old(self).capacity(),
            final(self).slots() == old(self).slots(),
            final(self).notified() == old(self).notified(),
            final(shared)@ == cleared(old(shared)@.len()),
            final(self).requests() == old(self).requests().push(HardwareRequest::DisarmAlarm),
            old(shared)@.len() == 0 ==> r is None && final(self).local() == old(shared)@,
            old(shared)@.len() > 0 ==> final(self).local() == old(shared)@.drop_first() && r
                == match old(shared)@[0] {
                Some(m) => Some(m.body->Response_0),
                None => None,
            },
    {
        self.service_prepare(shared);
        self.do_service()
    }

    /// Records a signal from the receiver.
    pub fn service_async(&mut self)
        requires
            old(self).notified() < usize::MAX,
        ensures
            final(self).notified() == old(self).notified() + 1,
            final(self).local() == old(self).local(),
            final(self).wf() == old(self).wf(),
            final(self).capacity() == old(self).capacity(),
            final(self).slots() == old(self).slots(),
            final(self).requests() == old(self).requests(),
    {
        self.notified = self.notified + 1;
    }

    pub fn has_pending_requests(&self) -> (r: bool)
        ensures
            r == (self.notified() != 0),
    {
        self.notified != 0
    }

    /// Marks one signal as handled.
    pub fn complete(&mut self)
        requires
            old(self).notified() > 0,
        ensures
            final(self).notified() == old(self).notified() - 1,
            final(self).local() == old(self).local(),
            final(self).wf() == old(self).wf(),
            final(self).capacity() == old(self).capacity(),
            final(self).slots() == old(self).slots(),
            final(self).requests() == old(self).requests(),
    {
        self.notified = self.notified - 1;
    }

    /// Queues `message` and, when it fits, hands the queue over at once with
    /// the longest deadline.
    pub fn write(&mut self, shared: &mut [Option<QemuRv32VirtMessage>], message: QemuRv32VirtMessage) -> (r: bool)
        requires
            old(self).wf(),
            old(self).slots() >= 1,
        ensures
            final(self).wf(),
            final(self).capacity() == old(self).capacity(),
            final(self).slots() == old(self).slots(),
            final(self).notified() == old(self).notified(),
            r == (old(self).local().len() < old(self).capacity()),
            r ==> final(self).local() == Seq::<Option<QemuRv32VirtMessage>>::empty(),
            r ==> final(shared)@ == handed_over(old(self).local().push(Some(message)), old(shared)@.len()),
            r ==> final(self).requests() == old(self).requests().push(
                HardwareRequest::SetAlarmTicks(u32::MAX),
            ).push(HardwareRequest::Notify(1)),
            !r ==> final(self).local() == old(self).local() && final(shared)@ == old(shared)@
                && final(self).requests() == old(self).requests(),
    {
        let success = self.channel.enqueue(Some(message));
        if success {
            self.send(shared, message, u32::MAX);
        }
        success
    }
}

impl OneWayQemuRv32VirtChannelReceiver {
    pub closed spec fn wf(&self) -> bool {
        self.channel.wf()
    }

    /// The local queue, oldest first.
    pub closed spec fn local(&self) -> Seq<Option<QemuRv32VirtMessage>> {
        self.channel@
    }

    pub closed spec fn capacity(&self) -> nat {
        self.channel.capacity()
    }

    /// How many slots the local ring has.
    pub closed spec fn slots(&self) -> nat {
        self.channel.slots()
    }

    /// Signals from the sender not yet handled.
    pub closed spec fn notified(&self) -> nat {
        self.notified as nat
    }

    /// Hardware steps asked for and not yet taken by the caller.
    pub closed spec fn requests(&self) -> Seq<HardwareRequest> {
        self.requests@
    }

    /// A receiver whose local queue uses the given slots.
    pub fn new(local_buffer: &[Option<QemuRv32VirtMessage>]) -> (r: Self)
        ensures
            r.wf(),
            r.local() == Seq::<Option<QemuRv32VirtMessage>>::empty(),
            r.slots() == local_buffer@.len(),
            r.capacity() == (if local_buffer@.len() == 0 { 0 } else { local_buffer@.len() - 1 }),
            r.notified() == 0,
            r.requests() == Seq::<HardwareRequest>::empty(),
    {
        OneWayQemuRv32VirtChannelReceiver {
            channel: RingBuffer::new(slots_from(local_buffer)),
            notified: 0,
            requests: Vec::new(),
        }
    }

    /// How many slots the local ring has.
    pub fn slot_count(&self) -> (r: usize)
        requires
            self.wf(),
        ensures
            r == self.slots(),
    {
        self.channel.slot_count()
    }

    /// How many signals are not yet handled.
    pub fn notified_count(&self) -> (r: usize)
        ensures
            r == self.notified(),
    {
        self.notified
    }

    /// The oldest item of the local queue, left in place, if there is one.
    pub fn front(&self) -> (r: Option<Option<QemuRv32VirtMessage>>)
        requires
            self.wf(),
        ensures
            self.local().len() == 0 ==> r is None,
            self.local().len() > 0 ==> r == Some(self.local()[0]),
    {
        self.channel.peek()
    }

    /// Hands the hardware steps asked for so far to the caller.
    pub fn take_requests(&mut self) -> (r: Vec<HardwareRequest>)
        ensures
            r@ == old(self).requests(),
            final(self).requests() == Seq::<HardwareRequest>::empty(),
            final(self).local() == old(self).local(),
            final(self).wf() == old(self).wf(),
            final(self).capacity() == old(self).capacity(),
            final(self).slots() == old(self).slots(),
            final(self).notified() == old(self).notified(),
    {
        let mut r: Vec<HardwareRequest> = Vec::new();
        std::mem::swap(&mut r, &mut self.requests);
        r
    }

    /// Takes the oldest item of the local queue; a message in it must be a
    /// request, which is answered at the back of the queue.
    pub fn do_service(&mut self)
        requires
            old(self).wf(),
            old(self).local().len() > 0 && old(self).local()[0] is Some
                ==> old(self).local()[0]->0.body is Request,
        ensures
            final(self).wf(),
            final(self).capacity() == old(self).capacity(),
            final(self).slots() == old(self).slots(),
            final(self).notified() == old(self).notified(),
            final(self).requests() == old(self).requests(),
            old(self).local().len() == 0 ==> final(self).local() == old(self).local(),
            old(self).local().len() > 0 ==> final(self).local() == match old(self).local()[0] {
                Some(m) => old(self).local().drop_first().push(
                    Some(response_to(m.body->Request_0)),
                ),
                None => old(self).local().drop_first(),
            },
    {
        proof {
            crate::collections::ring_buffer::lemma_len_within_capacity(&self.channel);
            lemma_capacity_of_slots(&self.channel);
        }
        match self.channel.dequeue() {
            Some(Some(message)) => match message.body {
                QemuRv32VirtMessageBody::Request(res) => {
                    let answered = self.channel.enqueue(
                        Some(
                            QemuRv32VirtMessage {
                                src: 1,
                                dst: 0,
                                body: QemuRv32VirtMessageBody::Response(res),
                            },
                        ),
                    );
                    if !answered {
                        proof {
                            assert(false);
                        }
                    }
                },
                _ => vstd::pervasive::unreached(),
            },
            _ => {},
        }
    }

    /// Hands the answers back to the sender and asks for the sender hart
    /// to be signalled.
    pub fn do_service_finalize(&mut self, shared: &mut [Option<QemuRv32VirtMessage>])
        requires
            old(self).wf(),
        ensures
            final(self).wf(),
            final(self).capacity() == old(self).capacity(),
            final(self).slots() == old(self).slots(),
            final(self).notified() == old(self).notified(),
            final(self).local() == Seq::<Option<QemuRv32VirtMessage>>::empty(),
            final(shared)@ == handed_over(old(self).local(), old(shared)@.len()),
            final(self).requests() == old(self).requests().push(HardwareRequest::Notify(0)),
    {
        hand_over(&mut self.channel, shared);
        self.requests.push(HardwareRequest::Notify(0));
    }

    /// Takes the sender's requests over from the shared buffer, after asking
    /// for the alarm to be re-armed `seconds` from now; slots beyond the local
    /// capacity are dropped.
    fn service_prepare(&mut self, shared: &mut [Option<QemuRv32VirtMessage>], seconds: u32)
        requires
            old(self).wf(),
            old(shared)@.len() > 0 ==> old(self).slots() >= 1,
        ensures
            final(self).wf(),
            final(self).capacity() == old(self).capacity(),
            final(self).slots() == old(self).slots(),
            final(self).notified() == old(self).notified(),
            final(self).local() == old(shared)@.take(
                if old(shared)@.len() <= old(self).capacity() {
                    old(shared)@.len() as int
                } else {
                    old(self).capacity() as int
                },
            ),
            final(shared)@ == cleared(old(shared)@.len()),
            final(self).requests() == old(self).requests().push(HardwareRequest::DisarmAlarm).push(
                HardwareRequest::SetAlarmSeconds(seconds),
            ),
    {
        self.requests.push(HardwareRequest::DisarmAlarm);
        self.requests.push(HardwareRequest::SetAlarmSeconds(seconds));
        take_over_enqueueing(&mut self.channel, shared);
    }

    /// Handles the oldest request.
    pub fn service(&mut self)
        requires
            old(self).wf(),
            old(self).local().len() > 0 && old(self).local()[0] is Some
                ==> old(self).local()[0]->0.body is Request,
        ensures
            final(self).wf(),
            final(self).capacity() == old(self).capacity(),
            final(self).slots() == old(self).slots(),
            final(self).notified() == old(self).notified(),
            final(self).requests() == old(self).requests(),
            old(self).local().len() == 0 ==> final(self).local() == old(self).local(),
            old(self).local().len() > 0 ==> final(self).local() == match old(self).local()[0] {
                Some(m) => old(self).local().drop_first().push(
                    Some(response_to(m.body->Request_0)),
                ),
                None => old(self).local().drop_first(),
            },
    {
        self.do_service();
    }

    /// The top half of the sender's signal: records it, takes the requests
    /// over and asks for an alarm one second out, by which the answers are
    /// handed back.
    pub fn service_async(&mut self, shared: &mut [Option<QemuRv32VirtMessage>])
        requires
            old(self).wf(),
            old(shared)@.len() > 0 ==> old(self).slots() >= 1,
            old(self).notified() < usize::MAX,
        ensures
            final(self).wf(),
            final(self).capacity() == old(self).capacity(),
            final(self).slots() == old(self).slots(),
            final(self).notified() == old(self).notified() + 1,
            final(self).local() == old(shared)@.take(
                if old(shared)@.len() <= old(self).capacity() {
                    old(shared)@.len() as int
                } else {
                    old(self).capacity() as int
                },
            ),
            final(shared)@ == cleared(old(shared)@.len()),
            final(self).requests() == old(self).requests().push(HardwareRequest::DisarmAlarm).push(
                HardwareRequest::SetAlarmSeconds(1),
            ),
    {
        self.notified = self.notified + 1;
        self.service_prepare(shared, 1);
    }

    pub fn has_pending_requests(&self) -> (r: bool)
        ensures
            r == (self.notified() != 0),
    {
        self.notified != 0
    }

    /// Marks one signal as handled.
    pub fn complete(&mut self)
        requires
            old(self).notified() > 0,
        ensures
            final(self).notified() == old(self).notified() - 1,
            final(self).local() == old(self).local(),
            final(self).wf() == old(self).wf(),
            final(self).capacity() == old(self).capacity(),
            final(self).slots() == old(self).slots(),
            final(self).requests() == old(self).requests(),
    {
        self.notified = self.notified - 1;
    }

    /// Queues an answer of the receiver's own.
    pub fn write_local(&mut self, message: QemuRv32VirtMessage) -> (r: bool)
        requires
            old(self).wf(),
            old(self).slots() >= 1,
        ensures
            final(self).wf(),
            final(self).capacity() == old(self).capacity(),
            final(self).slots() == old(self).slots(),
            final(self).notified() == old(self).notified(),
            final(self).requests() == old(self).requests(),
            r == (old(self).local().len() < old(self).capacity()),
            r ==> final(self).local() == old(self).local().push(Some(message)),
            !r ==> final(self).local() == old(self).local(),
    {
        self.channel.enqueue(Some(message))
    }
}

/// Handing a queue over and taking it over on the other side keeps its
/// messages in order: as many as the shared buffer and the other side's
/// queue both hold arrive, followed by empty slots.
pub proof fn lemma_transfer_in_order(items: Seq<Option<QemuRv32VirtMessage>>, n: nat, cap: nat)
    ensures
        ({
            let arrived = handed_over(items, n).take(if n <= cap { n as int } else { cap as int });
            &&& arrived.len() == if n <= cap { n } else { cap }
            &&& forall|i: int| 0 <= i < arrived.len() && i < items.len() ==> arrived[i] == items[i]
            &&& forall|i: int| items.len() <= i < arrived.len() ==> arrived[i] is None
        }),
{
}

/// A sender whose local ring has `n >= 1` slots queues at most `n - 1`
/// items, and one without slots queues none.
pub proof fn lemma_sender_capacity_of_slots(s: &OneWayQemuRv32VirtChannelSender)
    ensures
        s.slots() >= 1 ==> s.capacity() + 1 == s.slots(),
        s.slots() == 0 ==> s.capacity() == 0,
{
    lemma_capacity_of_slots(&s.channel);
}

/// A receiver whose local ring has `n >= 1` slots queues at most `n - 1`
/// items, and one without slots queues none.
pub proof fn lemma_receiver_capacity_of_slots(r: &OneWayQemuRv32VirtChannelReceiver)
    ensures
        r.slots() >= 1 ==> r.capacity() + 1 == r.slots(),
        r.slots() == 0 ==> r.capacity() == 0,
{
    lemma_capacity_of_slots(&r.channel);
}

/// Signals recorded minus signals handled, over a run of events in which
/// `true` records a signal and `false` handles one.
pub open spec fn net_signals(events: Seq<bool>) -> int
    decreases events.len(),
{
    if events.len() == 0 {
        0
    } else {
        net_signals(events.drop_last()) + if events.last() {
            1int
        } else {
            -1int
        }
    }
}

/// Over any run of `service_async` and `complete` calls on a fresh sender,
/// with no more completions than signals at any point, the count of pending
/// signals is the signals recorded minus those handled, so requests are
/// pending exactly when the two differ: `states[i]` is the sender after the
/// first `i` calls, `events[i]` tells which call came `i`-th.
pub proof fn lemma_pending_signals(states: Seq<OneWayQemuRv32VirtChannelSender>, events: Seq<bool>)
    requires
        states.len() == events.len() + 1,
        states[0].notified() == 0,
        forall|i: int|
            0 <= i < events.len() ==> #[trigger] states[i + 1].notified() == if events[i] {
                (states[i].notified() + 1) as int
            } else {
                states[i].notified() - 1int
            },
        forall|i: int| 0 <= i < events.len() && !events[i] ==> #[trigger] states[i].notified() > 0,
    ensures
        states[events.len() as int].notified() == net_signals(events),
        (states[events.len() as int].notified() != 0) == (net_signals(events) != 0),
    decreases events.len(),
{
    if events.len() > 0 {
        let n = events.len() - 1;
        let prefix = states.take(n + 1);
        let pe = events.drop_last();
        assert forall|i: int| 0 <= i < pe.len() implies #[trigger] prefix[i + 1].notified() == if pe[i] {
            (prefix[i].notified() + 1) as int
        } else {
            prefix[i].notified() - 1int
        } by {
            assert(prefix[i + 1] == states[i + 1]);
            assert(prefix[i] == states[i]);
            assert(pe[i] == events[i]);
        }
        assert forall|i: int| 0 <= i < pe.len() && !pe[i] implies #[trigger] prefix[i].notified() > 0 by {
            assert(prefix[i] == states[i]);
            assert(pe[i] == events[i]);
        }
        lemma_pending_signals(prefix, pe);
        assert(prefix[n] == states[n]);
        assert(states[n + 1].notified() == if events[n] {
            (states[n].notified() + 1) as int
        } else {
            states[n].notified() - 1int
        });
        if !events[n] {
            assert(states[n].notified() > 0);
        }
    }
}

impl QemuRv32VirtChannel for OneWayQemuRv32VirtChannelSender {
    open spec fn channel_wf(&self) -> bool {
        self.wf()
    }

    /// The answers fit the local queue, and the first one is a response.
    open spec fn can_service(&self, shared: Seq<Option<QemuRv32VirtMessage>>) -> bool {
        &&& shared.len() <= self.capacity()
        &&& shared.len() > 0 && shared[0] is Some ==> shared[0]->0.body is Response
    }

    open spec fn signals(&self) -> nat {
        self.notified()
    }

    /// Writing queues into the local ring, which needs a slot.
    open spec fn can_write(&self) -> bool {
        self.slots() >= 1
    }

    /// The sender only counts the signal; the answers are taken over when
    /// it services.
    open spec fn can_take_over(&self, shared: Seq<Option<QemuRv32VirtMessage>>) -> bool {
        true
    }

    fn service(&mut self, shared: &mut [Option<QemuRv32VirtMessage>])
        ensures
            final(self).capacity() == old(self).capacity(),
            final(self).slots() == old(self).slots(),
            final(shared)@ == cleared(old(shared)@.len()),
            final(self).requests() == old(self).requests().push(HardwareRequest::DisarmAlarm),
            old(shared)@.len() == 0 ==> final(self).local() == old(shared)@,
            old(shared)@.len() > 0 ==> final(self).local() == old(shared)@.drop_first(),
    {
        let _ = OneWayQemuRv32VirtChannelSender::service(self, shared);
    }

    fn service_async(&mut self, shared: &mut [Option<QemuRv32VirtMessage>])
        ensures
            final(self).local() == old(self).local(),
            final(self).capacity() == old(self).capacity(),
            final(self).slots() == old(self).slots(),
            final(self).requests() == old(self).requests(),
            final(shared)@ == old(shared)@,
    {
        OneWayQemuRv32VirtChannelSender::service_async(self);
    }

    fn complete(&mut self)
        ensures
            final(self).local() == old(self).local(),
            final(self).capacity() == old(self).capacity(),
            final(self).slots() == old(self).slots(),
            final(self).requests() == old(self).requests(),
    {
        OneWayQemuRv32VirtChannelSender::complete(self);
    }

    fn has_pending_requests(&self) -> (r: bool) {
        OneWayQemuRv32VirtChannelSender::has_pending_requests(self)
    }

    fn write(&mut self, shared: &mut [Option<QemuRv32VirtMessage>], message: QemuRv32VirtMessage) -> (r: bool)
        ensures
            final(self).capacity() == old(self).capacity(),
            final(self).slots() == old(self).slots(),
            r == (old(self).local().len() < old(self).capacity()),
            r ==> final(self).local() == Seq::<Option<QemuRv32VirtMessage>>::empty(),
            r ==> final(shared)@ == handed_over(old(self).local().push(Some(message)), old(shared)@.len()),
            r ==> final(self).requests() == old(self).requests().push(
                HardwareRequest::SetAlarmTicks(u32::MAX),
            ).push(HardwareRequest::Notify(1)),
            !r ==> final(self).local() == old(self).local() && final(shared)@ == old(shared)@
                && final(self).requests() == old(self).requests(),
    {
        OneWayQemuRv32VirtChannelSender::write(self, shared, message)
    }
}

impl QemuRv32VirtChannel for OneWayQemuRv32VirtChannelReceiver {
    open spec fn channel_wf(&self) -> bool {
        self.wf()
    }

    /// The oldest local item, if it is a message, is a request.
    open spec fn can_service(&self, shared: Seq<Option<QemuRv32VirtMessage>>) -> bool {
        self.local().len() > 0 && self.local()[0] is Some ==> self.local()[0]->0.body is Request
    }

    open spec fn signals(&self) -> nat {
        self.notified()
    }

    /// Writing queues into the local ring, which needs a slot.
    open spec fn can_write(&self) -> bool {
        self.slots() >= 1
    }

    /// Taking a non-empty shared buffer over queues into the local ring,
    /// which then needs a slot.
    open spec fn can_take_over(&self, shared: Seq<Option<QemuRv32VirtMessage>>) -> bool {
        shared.len() > 0 ==> self.slots() >= 1
    }

    fn service(&mut self, shared: &mut [Option<QemuRv32VirtMessage>])
        ensures
            final(self).capacity() == old(self).capacity(),
            final(self).slots() == old(self).slots(),
            final(self).requests() == old(self).requests(),
            final(shared)@ == old(shared)@,
            old(self).local().len() == 0 ==> final(self).local() == old(self).local(),
            old(self).local().len() > 0 ==> final(self).local() == match old(self).local()[0] {
                Some(m) => old(self).local().drop_first().push(
                    Some(response_to(m.body->Request_0)),
                ),
                None => old(self).local().drop_first(),
            },
    {
        OneWayQemuRv32VirtChannelReceiver::service(self);
    }

    fn service_async(&mut self, shared: &mut [Option<QemuRv32VirtMessage>])
        ensures
            final(self).capacity() == old(self).capacity(),
            final(self).slots() == old(self).slots(),
            final(self).local() == old(shared)@.take(
                if old(shared)@.len() <= old(self).capacity() {
                    old(shared)@.len() as int
                } else {
                    old(self).capacity() as int
                },
            ),
            final(shared)@ == cleared(old(shared)@.len()),
            final(self).requests() == old(self).requests().push(HardwareRequest::DisarmAlarm).push(
                HardwareRequest::SetAlarmSeconds(1),
            ),
    {
        OneWayQemuRv32VirtChannelReceiver::service_async(self, shared);
    }

    fn complete(&mut self)
        ensures
            final(self).local() == old(self).local(),
            final(self).capacity() == old(self).capacity(),
            final(self).slots() == old(self).slots(),
            final(self).requests() == old(self).requests(),
    {
        OneWayQemuRv32VirtChannelReceiver::complete(self);
    }

    fn has_pending_requests(&self) -> (r: bool) {
        OneWayQemuRv32VirtChannelReceiver::has_pending_requests(self)
    }

    fn write(&mut self, shared: &mut [Option<QemuRv32VirtMessage>], message: QemuRv32VirtMessage) -> (r: bool)
        ensures
            final(self).capacity() == old(self).capacity(),
            final(self).slots() == old(self).slots(),
            final(self).requests() == old(self).requests(),
            final(shared)@ == old(shared)@,
            r == (old(self).local().len() < old(self).capacity()),
            r ==> final(self).local() == old(self).local().push(Some(message)),
            !r ==> final(self).local() == old(self).local(),
    {
        OneWayQemuRv32VirtChannelReceiver::write_local(self, message)
    }
}

} // verus!
