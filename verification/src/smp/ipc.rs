//! IPC across kernel threads: discovery first looks among the processes of
//! this thread and then asks the other threads; notifications for a process
//! of another thread are forwarded to it.

use vstd::prelude::*;

use crate::ipc::discover_answer;
use crate::process::{
    buffer_at, enqueued, first_named, grant_of, has_grant, is_live, with_grant, with_mpu_region,
    CommandReturn, Error, ErrorCode, GrantView, Kernel, ProcessView, ScheduledUpcall, Task,
};
use crate::smp::channel::{InterThreadMessage, InterThreadMessageBody, InterThreadMessageHeader};

verus! {

/// Syscall number
pub const DRIVER_NUM: usize = 0x10001;

/// How many bytes of a name a discovery request carries to another thread.
pub const DISCOVER_NAME_LEN: usize = 10;

/// The IPC requests and answers that travel between kernel threads.
#[derive(Clone, Copy, Debug, PartialEq, Eq)]
pub enum IPCInterThreadMessage {
    Invalid,
    Discover([u8; 10]),
    DiscoverSuccess(u32),
    DiscoverFail,
}

/// Which upcall an IPC task schedules.
#[derive(Clone, Copy, Debug, PartialEq, Eq, Structural)]
pub enum IPCUpcallType {
    /// Indicates that the upcall is for the service upcall handler this
    /// process has setup.
    Service,
    /// Indicates that the upcall is from a different service app and will
    /// call one of the client upcalls setup by this process.
    Client,
}

/// What a command of the thread-aware driver comes to: an answer now, or
/// work with another thread whose outcome decides the answer.
#[derive(Clone, Copy, Debug, PartialEq, Eq)]
pub enum CommandStep {
    Reply(CommandReturn),
    /// No local process has the name: ask the other threads, and finish
    /// with [`IPC::finish_discover`].
    DiscoverGlobal([u8; 10]),
    /// The notified process runs on thread `thread`, as process `target`
    /// there.
    Forward { thread: usize, target: usize },
}

pub type ThreadProcessTable = Seq<Option<ProcessView<IPCUpcallType>>>;

/// The thread a notification target belongs to: the top byte of its id.
pub open spec fn target_thread(target_id: usize) -> usize {
    (target_id & (0xffusize << (usize::BITS - 8))) >> (usize::BITS - 8)
}

/// The process index within its thread of a notification target.
pub open spec fn target_local(target_id: usize) -> usize {
    target_id & !(0xffusize << (usize::BITS - 8))
}

/// What notifying process `target` on behalf of `pid` with an upcall of
/// kind `kind` leaves behind and returns.
pub open spec fn notify_outcome(
    k: ThreadProcessTable,
    pid: int,
    target: int,
    kind: IPCUpcallType,
) -> (ThreadProcessTable, CommandReturn) {
    if !is_live(k, target) {
        (k, CommandReturn::Failure(ErrorCode::INVAL))
    } else {
        match enqueued(k, target, Task::IPC(pid as usize, kind)) {
            Ok(k1) => (k1, CommandReturn::Success),
            Err(e) => (k, CommandReturn::Failure(e)),
        }
    }
}

/// What scheduling an IPC upcall on process `on`, caused by `from`, leaves
/// behind and returns, for a driver with `n` upcalls and `n` read-write
/// allows per process: `on` is given access to the buffer that `from` allows
/// under the number `on`, and the upcall carries its length and address.
pub open spec fn schedule_outcome(
    k: ThreadProcessTable,
    on: int,
    from: int,
    cb: IPCUpcallType,
    n: nat,
) -> (ThreadProcessTable, Result<(), Error>) {
    if !is_live(k, on) || !is_live(k, from) {
        (k, Err(Error::NoSuchApp))
    } else if !has_grant(k, on) {
        (k, Err(Error::OutOfMemory))
    } else if from == on {
        (k, Err(Error::AlreadyInUse))
    } else if !has_grant(k, from) {
        (k, Err(Error::OutOfMemory))
    } else {
        let b = buffer_at(grant_of(k, from), on);
        let k1 = if on < n {
            with_mpu_region(k, on, b.addr, b.data.len() as usize)
        } else {
            k
        };
        let (len, addr) = if on < n {
            (b.data.len() as usize, b.addr)
        } else {
            (0usize, 0usize)
        };
        let to = if cb is Service {
            on
        } else {
            from
        };
        let g = grant_of(k1, on);
        let up = ScheduledUpcall { num: to as usize, args: (from as usize, len, addr) };
        if to < n {
            (with_grant(k1, on, GrantView { upcalls: g.upcalls.push(up), ..g }), Ok(()))
        } else {
            (k1, Ok(()))
        }
    }
}

/// The answer to a discovery request for `name` from the processes of one
/// thread.
pub open spec fn local_answer_for(k: ThreadProcessTable, name: Seq<u8>, r: IPCInterThreadMessage) -> bool {
    match r {
        IPCInterThreadMessage::DiscoverSuccess(v) => exists|i: int| first_named(k, name, Some(i)) && v == i as u32,
        IPCInterThreadMessage::DiscoverFail => first_named(k, name, None),
        _ => false,
    }
}

/// The thread and process index that a reply to a discovery request names,
/// if it reports success.
pub open spec fn found_in_reply(reply: Option<(usize, InterThreadMessage)>) -> Option<(usize, u32)> {
    match reply {
        Some((t, m)) => match m.spec_body() {
            InterThreadMessageBody::Ipc(IPCInterThreadMessage::DiscoverSuccess(i)) => Some((t, i)),
            _ => None,
        },
        None => None,
    }
}

impl IPCInterThreadMessage {
    /// The IPC message an inter-thread message carries, if it carries one.
    pub fn try_from_message(value: InterThreadMessage) -> (r: Result<Self, ()>)
        ensures
            value.spec_body() matches InterThreadMessageBody::Ipc(m) ==> r == Ok::<Self, ()>(m),
            value.spec_body() is Invalid ==> r is Err,
    {
        match *value.body() {
            InterThreadMessageBody::Ipc(m) => Ok(m),
            _ => Err(()),
        }
    }

    /// The inter-thread message that carries this IPC message.
    pub fn into_message(self) -> (r: InterThreadMessage)
        ensures
            r.spec_header() == (InterThreadMessageHeader { sender: 0, receivers: 0, uid: 0 }),
            r.spec_body() == InterThreadMessageBody::Ipc(self),
    {
        InterThreadMessage::from_parts(InterThreadMessageHeader::empty(), InterThreadMessageBody::Ipc(self))
    }
}

/// The IPC mechanism struct, for the kernel thread `thread_id`.
pub struct IPC<const NUM_PROCS: u8> {
    driver_num: usize,
    thread_id: usize,
}

impl<const NUM_PROCS: u8> IPC<NUM_PROCS> {
    pub closed spec fn spec_thread_id(&self) -> usize {
        self.thread_id
    }

    pub closed spec fn spec_driver_num(&self) -> usize {
        self.driver_num
    }

    /// The kernel thread this driver serves.
    pub fn thread_id(&self) -> (r: usize)
        ensures
            r == self.spec_thread_id(),
    {
        self.thread_id
    }

    /// The driver of kernel thread `thread_id`, registered under `driver_num`.
    pub fn new(driver_num: usize, thread_id: usize) -> (r: Self)
        ensures
            r.spec_driver_num() == driver_num,
            r.spec_thread_id() == thread_id,
    {
        Self { driver_num, thread_id }
    }

    /// Schedules an IPC upcall on process `schedule_on`, caused by process
    /// `called_from`.
    pub fn schedule_upcall(
        &self,
        kernel: &mut Kernel<IPCUpcallType>,
        schedule_on: usize,
        called_from: usize,
        cb_type: IPCUpcallType,
    ) -> (r: Result<(), Error>)
        ensures
            (final(kernel)@, r) == schedule_outcome(
                old(kernel)@,
                schedule_on as int,
                called_from as int,
                cb_type,
                NUM_PROCS as nat,
            ),
    {
        if !kernel.is_valid(schedule_on) || !kernel.is_valid(called_from) {
            return Err(Error::NoSuchApp);
        }
        if !kernel.can_enter(schedule_on) {
            return Err(Error::OutOfMemory);
        }
        if called_from == schedule_on {
            return Err(Error::AlreadyInUse);
        }
        if !kernel.can_enter(called_from) {
            return Err(Error::OutOfMemory);
        }
        let (len, ptr) = if schedule_on < NUM_PROCS as usize {
            let (len, ptr) = kernel.buffer_len_addr(called_from, schedule_on);
            let _ = kernel.add_mpu_region(schedule_on, ptr, len);
            (len, ptr)
        } else {
            (0, 0)
        };
        let to_schedule: usize = match cb_type {
            IPCUpcallType::Service => schedule_on,
            IPCUpcallType::Client => called_from,
        };
        let _ = kernel.schedule_upcall(
            schedule_on,
            NUM_PROCS as usize,
            ScheduledUpcall { num: to_schedule, args: (called_from, len, ptr) },
        );
        Ok(())
    }

    /// Makes sure the grant region of process `processid` is there.
    pub fn allocate_grant(&self, kernel: &Kernel<IPCUpcallType>, processid: usize) -> (r: Result<
        (),
        Error,
    >)
        ensures
            has_grant(kernel@, processid as int) ==> r is Ok,
            !has_grant(kernel@, processid as int) && is_live(kernel@, processid as int) ==> r
                == Err::<(), Error>(Error::OutOfMemory),
            !is_live(kernel@, processid as int) ==> r == Err::<(), Error>(Error::NoSuchApp),
    {
        if kernel.can_enter(processid) {
            Ok(())
        } else if kernel.is_valid(processid) {
            Err(Error::OutOfMemory)
        } else {
            Err(Error::NoSuchApp)
        }
    }

    /// Discovery among the processes of this thread: the index of the first
    /// process whose name is in the search buffer of process `processid`.
    pub fn discover(&self, kernel: &Kernel<IPCUpcallType>, processid: usize) -> (r: CommandReturn)
        ensures
            discover_answer(kernel@, processid as int, r),
    {
        if !kernel.can_enter(processid) {
            return CommandReturn::failure(ErrorCode::NOMEM);
        }
        match self.discover_local(kernel, kernel.search_of(processid).as_slice()) {
            Some(i) => CommandReturn::success_u32(i),
            None => CommandReturn::failure(ErrorCode::NODEVICE),
        }
    }

    /// The index of the first process of this thread named `slice`.
    pub fn discover_local(&self, kernel: &Kernel<IPCUpcallType>, slice: &[u8]) -> (r: Option<u32>)
        ensures
            r is None ==> first_named(kernel@, slice@, None),
            r matches Some(v) ==> exists|i: int| first_named(kernel@, slice@, Some(i)) && v == i as u32,
    {
        match kernel.find_named(slice) {
            Some(i) => Some(i as u32),
            None => None,
        }
    }

    /// The thread to ask in a discovery across threads, with the request:
    /// the first ten bytes of `slice`. Thread zero is asked, unless that is
    /// this thread.
    pub fn discover_global_request(&self, slice: &[u8]) -> (r: Option<(usize, InterThreadMessage)>)
        requires
            slice@.len() >= DISCOVER_NAME_LEN,
        ensures
            self.spec_thread_id() == 0 ==> r is None,
            self.spec_thread_id() != 0 ==> (r matches Some((t, m)) && t == 0 && (m.spec_body()
                matches InterThreadMessageBody::Ipc(IPCInterThreadMessage::Discover(buf)) && buf@
                == slice@.subrange(0, 10))),
    {
        if self.thread_id == 0 {
            return None;
        }
        let mut buf = [0u8; 10];
        let mut i: usize = 0;
        while i < DISCOVER_NAME_LEN
            invariant
                i <= 10,
                slice@.len() >= 10,
                forall|j: int| 0 <= j < i ==> buf@[j] == slice@[j],
            decreases 10 - i,
        {
            buf[i] = slice[i];
            i = i + 1;
        }
        assert(buf@ =~= slice@.subrange(0, 10));
        Some((0, IPCInterThreadMessage::Discover(buf).into_message()))
    }

    /// What the reply of the asked thread says: the thread and the index of
    /// the process found there, if it found one.
    pub fn discover_global_reply(reply: Option<(usize, InterThreadMessage)>) -> (r: Option<(usize, u32)>)
        ensures
            r == found_in_reply(reply),
    {
        match reply {
            Some((t, m)) => match *m.body() {
                InterThreadMessageBody::Ipc(IPCInterThreadMessage::DiscoverSuccess(i)) => Some((t, i)),
                _ => None,
            },
            None => None,
        }
    }

    /// The answer to a discovery that went to the other threads.
    pub fn finish_discover(found: Option<(usize, u32)>) -> (r: CommandReturn)
        ensures
            found matches Some((t, i)) ==> r == CommandReturn::SuccessU32(i),
            found is None ==> r == CommandReturn::Failure(ErrorCode::NODEVICE),
    {
        match found {
            Some((_, i)) => CommandReturn::success_u32(i),
            None => CommandReturn::failure(ErrorCode::NODEVICE),
        }
    }

    /// Answers the IPC request `message` that thread `sender` sent: a
    /// discovery among this thread's processes.
    pub fn service(&self, kernel: &Kernel<IPCUpcallType>, sender: usize, message: InterThreadMessage) -> (r: InterThreadMessage)
        requires
            message.spec_body() matches InterThreadMessageBody::Ipc(IPCInterThreadMessage::Discover(_)),
            sender != self.spec_thread_id(),
        ensures
            r.spec_header() == (InterThreadMessageHeader { sender: 0, receivers: 0, uid: 0 }),
            r.spec_body() matches InterThreadMessageBody::Ipc(answer) && (message.spec_body()
                matches InterThreadMessageBody::Ipc(IPCInterThreadMessage::Discover(target))
                ==> local_answer_for(kernel@, target@, answer)),
    {
        match IPCInterThreadMessage::try_from_message(message) {
            Ok(IPCInterThreadMessage::Discover(target)) => {
                let response = match self.discover_local(kernel, target.as_slice()) {
                    Some(i) => IPCInterThreadMessage::DiscoverSuccess(i),
                    None => IPCInterThreadMessage::DiscoverFail,
                };
                response.into_message()
            },
            _ => vstd::pervasive::unreached(),
        }
    }

    /// Notifies process `target` of this thread with an upcall of kind
    /// `kind` on behalf of process `processid`.
    fn notify(&self, kernel: &mut Kernel<IPCUpcallType>, processid: usize, target: usize, kind: IPCUpcallType) -> (r: CommandReturn)
        ensures
            (final(kernel)@, r) == notify_outcome(old(kernel)@, processid as int, target as int, kind),
    {
        if !kernel.is_valid(target) {
            return CommandReturn::failure(ErrorCode::INVAL);
        }
        match kernel.enqueue_task(target, Task::IPC(processid, kind)) {
            Ok(()) => CommandReturn::success(),
            Err(e) => CommandReturn::failure(e),
        }
    }

    /// The IPC commands of process `processid`:
    ///
    /// - `0`: driver existence check, always succeeds;
    /// - `1`: discovery, among this thread's processes first;
    /// - `2`: notify the service `target_id`, whose top byte names its thread;
    /// - `3`: notify the client `target_id` of this thread.
    pub fn command(
        &self,
        kernel: &mut Kernel<IPCUpcallType>,
        command_number: usize,
        target_id: usize,
        _arg: usize,
        processid: usize,
    ) -> (r: CommandStep)
        ensures
            command_number == 0 ==> r == CommandStep::Reply(CommandReturn::Success) && final(kernel)@ == old(kernel)@,
            command_number == 1 ==> final(kernel)@ == old(kernel)@,
            command_number == 1 && !has_grant(old(kernel)@, processid as int) ==> r == CommandStep::Reply(
                CommandReturn::Failure(ErrorCode::NOMEM),
            ),
            command_number == 1 && has_grant(old(kernel)@, processid as int) ==> match r {
                CommandStep::Reply(CommandReturn::SuccessU32(v)) => exists|i: int|
                    first_named(old(kernel)@, grant_of(old(kernel)@, processid as int).search, Some(i))
                        && v == i as u32,
                CommandStep::DiscoverGlobal(name) => first_named(
                    old(kernel)@,
                    grant_of(old(kernel)@, processid as int).search,
                    None,
                ) && grant_of(old(kernel)@, processid as int).search.len() >= DISCOVER_NAME_LEN && name@
                    == grant_of(old(kernel)@, processid as int).search.subrange(0, 10),
                CommandStep::Reply(CommandReturn::Failure(e)) => e == ErrorCode::NODEVICE && first_named(
                    old(kernel)@,
                    grant_of(old(kernel)@, processid as int).search,
                    None,
                ) && grant_of(old(kernel)@, processid as int).search.len() < DISCOVER_NAME_LEN,
                _ => false,
            },
            command_number == 2 && target_thread(target_id) == self.spec_thread_id() ==> (r
                matches CommandStep::Reply(ret) && (final(kernel)@, ret) == notify_outcome(
                old(kernel)@,
                processid as int,
                target_local(target_id) as int,
                IPCUpcallType::Service,
            )),
            command_number == 2 && target_thread(target_id) != self.spec_thread_id() ==> r
                == (CommandStep::Forward {
                thread: target_thread(target_id),
                target: target_local(target_id),
            }) && final(kernel)@ == old(kernel)@,
            command_number == 3 ==> (r matches CommandStep::Reply(ret) && (final(kernel)@, ret)
                == notify_outcome(old(kernel)@, processid as int, target_id as int, IPCUpcallType::Client)),
            command_number > 3 ==> r == CommandStep::Reply(CommandReturn::Failure(ErrorCode::NOSUPPORT)),
            command_number > 3 ==> final(kernel)@ == old(kernel)@,
    {
        match command_number {
            0 => CommandStep::Reply(CommandReturn::success()),
            1 => {
                if !kernel.can_enter(processid) {
                    return CommandStep::Reply(CommandReturn::failure(ErrorCode::NOMEM));
                }
                let search = kernel.search_of(processid);
                match self.discover_local(kernel, search.as_slice()) {
                    Some(i) => CommandStep::Reply(CommandReturn::success_u32(i)),
                    None => {
                        if search.len() < DISCOVER_NAME_LEN {
                            CommandStep::Reply(CommandReturn::failure(ErrorCode::NODEVICE))
                        } else {
                            let mut buf = [0u8; 10];
                            let mut i: usize = 0;
                            while i < DISCOVER_NAME_LEN
                                invariant
                                    i <= 10,
                                    search@.len() >= 10,
                                    forall|j: int| 0 <= j < i ==> buf@[j] == search@[j],
                                decreases 10 - i,
                            {
                                buf[i] = search[i];
                                i = i + 1;
                            }
                            assert(buf@ =~= search@.subrange(0, 10));
                            CommandStep::DiscoverGlobal(buf)
                        }
                    },
                }
            },
            2 => {
                let thread_id_mask: usize = 0xff << (usize::BITS - 8);
                let thread_id = (target_id & thread_id_mask) >> (usize::BITS - 8);
                let target = target_id & !thread_id_mask;
                if thread_id == self.thread_id {
                    CommandStep::Reply(self.notify(kernel, processid, target, IPCUpcallType::Service))
                } else {
                    CommandStep::Forward { thread: thread_id, target }
                }
            },
            3 => CommandStep::Reply(self.notify(kernel, processid, target_id, IPCUpcallType::Client)),
            _ => CommandStep::Reply(CommandReturn::failure(ErrorCode::NOSUPPORT)),
        }
    }
}

/// Scheduling an upcall on `on` for `from`, of either kind, gives `on`
/// access to the buffer that `from` allows under the number `on`, when that
/// allow number exists and `on`'s memory protection unit has room; the
/// upcall, numbered `on` for a service and `from` for a client, carries the
/// caller's index and that buffer's length and address.
pub proof fn lemma_upcall_shares_callers_buffer(
    k: ThreadProcessTable,
    on: int,
    from: int,
    cb: IPCUpcallType,
    n: nat,
)
    requires
        is_live(k, on),
        is_live(k, from),
        has_grant(k, on),
        has_grant(k, from),
        from != on,
        on < n,
    ensures
        ({
            let b = buffer_at(grant_of(k, from), on);
            let num = if cb is Service { on } else { from };
            let (k2, r) = schedule_outcome(k, on, from, cb, n);
            &&& r == Ok::<(), Error>(())
            &&& k2.len() == k.len()
            &&& k[on]->0.mpu_regions.len() < k[on]->0.mpu_capacity ==> k2[on]->0.mpu_regions
                == k[on]->0.mpu_regions.push((b.addr, b.data.len() as usize))
            &&& k[on]->0.mpu_regions.len() >= k[on]->0.mpu_capacity ==> k2[on]->0.mpu_regions
                == k[on]->0.mpu_regions
            &&& num < n ==> grant_of(k2, on).upcalls == grant_of(k, on).upcalls.push(
                ScheduledUpcall { num: num as usize, args: (from as usize, b.data.len() as usize, b.addr) },
            )
            &&& num >= n ==> grant_of(k2, on).upcalls == grant_of(k, on).upcalls
            &&& forall|j: int| 0 <= j < k.len() && j != on ==> k2[j] == k[j]
        }),
{
}

/// A reply that reports success names the thread it came from and the
/// index it carries, whatever they are; any other reply, or none, finds
/// nothing.
pub proof fn lemma_reply_reports_what_it_carries(t: usize, m: InterThreadMessage, i: u32)
    ensures
        m.spec_body() == InterThreadMessageBody::Ipc(IPCInterThreadMessage::DiscoverSuccess(i))
            ==> found_in_reply(Some((t, m))) == Some((t, i)),
        !(m.spec_body() is Ipc && m.spec_body()->Ipc_0 is DiscoverSuccess) ==> found_in_reply(
            Some((t, m)),
        ) is None,
        found_in_reply(None) is None,
{
}

/// Notifying a live, running `target` whose queue has room queues exactly
/// one task for it, from the caller and of the kind asked for, and succeeds;
/// no other process changes.
pub proof fn lemma_notify_queues_kind_asked(
    k: ThreadProcessTable,
    pid: int,
    target: int,
    kind: IPCUpcallType,
)
    requires
        is_live(k, target),
        k[target]->0.running,
        k[target]->0.tasks.len() < k[target]->0.task_capacity,
    ensures
        ({
            let (k2, r) = notify_outcome(k, pid, target, kind);
            &&& r == CommandReturn::Success
            &&& k2.len() == k.len()
            &&& k2[target] is Some
            &&& k2[target]->0.tasks == k[target]->0.tasks.push(Task::IPC(pid as usize, kind))
            &&& k2[target]->0.name == k[target]->0.name
            &&& k2[target]->0.grant == k[target]->0.grant
            &&& forall|j: int| 0 <= j < k.len() && j != target ==> k2[j] == k[j]
        }),
{
}

} // verus!
