//! Messages and the channel interface between the kernels on the harts of
//! the QEMU RISC-V 32 `virt` board.

pub mod oneway;

use vstd::prelude::*;

verus! {

#[derive(Clone, Copy, Debug, PartialEq, Eq, Structural)]
pub enum QemuRv32VirtMessageBody {
    PortalRequest(usize),
    /// A portal answer: the portal and the address of the object it hands over.
    PortalResponse(usize, usize),
    /// A request of the one-way channel.
    Request(u32),
    /// The answer to a [`QemuRv32VirtMessageBody::Request`].
    Response(u32),
}

#[derive(Clone, Copy, Debug, PartialEq, Eq, Structural)]
pub struct QemuRv32VirtMessage {
    pub src: usize,
    pub dst: usize,
    pub body: QemuRv32VirtMessageBody,
}

/// A hardware step that a channel asks its caller to carry out: the alarm
/// and the inter-hart interrupt are outside the channel.
#[derive(Clone, Copy, Debug, PartialEq, Eq, Structural)]
pub enum HardwareRequest {
    /// Disarm the channel's alarm if it is armed.
    DisarmAlarm,
    /// Arm the channel's alarm to fire this many ticks from now.
    SetAlarmTicks(u32),
    /// Arm the channel's alarm to fire this many seconds from now.
    SetAlarmSeconds(u32),
    /// Raise the software interrupt of this hart.
    Notify(usize),
}

/// A channel between the kernels of two harts, over a buffer they share.
pub trait QemuRv32VirtChannel {
    /// The channel's own state is consistent.
    spec fn channel_wf(&self) -> bool;

    /// Servicing with this shared buffer does not meet a message of a kind
    /// this side cannot handle.
    spec fn can_service(&self, shared: Seq<Option<QemuRv32VirtMessage>>) -> bool;

    /// Signals from the other side not yet handled.
    spec fn signals(&self) -> nat;

    /// The side can queue a message of its own.
    spec fn can_write(&self) -> bool;

    /// The side can take this shared buffer over when signalled.
    spec fn can_take_over(&self, shared: Seq<Option<QemuRv32VirtMessage>>) -> bool;

    /// Handles what the other side has sent.
    fn service(&mut self, shared: &mut [Option<QemuRv32VirtMessage>])
        requires
            old(self).channel_wf(),
            old(self).can_service(old(shared)@),
        ensures
            final(self).channel_wf(),
            final(self).signals() == old(self).signals(),
    ;

    /// The top half of the interrupt by which the other side signals.
    fn service_async(&mut self, shared: &mut [Option<QemuRv32VirtMessage>])
        requires
            old(self).channel_wf(),
            old(self).can_take_over(old(shared)@),
            old(self).signals() < usize::MAX,
        ensures
            final(self).channel_wf(),
            final(self).signals() == old(self).signals() + 1,
    ;

    /// Marks one signal as handled.
    fn complete(&mut self)
        requires
            old(self).channel_wf(),
            old(self).signals() > 0,
        ensures
            final(self).channel_wf(),
            final(self).signals() == old(self).signals() - 1,
    ;

    fn has_pending_requests(&self) -> (r: bool)
        ensures
            r == (self.signals() != 0),
    ;

    /// Queues a message for the other side.
    fn write(&mut self, shared: &mut [Option<QemuRv32VirtMessage>], message: QemuRv32VirtMessage) -> (r: bool)
        requires
            old(self).channel_wf(),
            old(self).can_write(),
        ensures
            final(self).channel_wf(),
            final(self).signals() == old(self).signals(),
    ;
}

} // verus!
