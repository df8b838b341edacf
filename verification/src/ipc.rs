//! The IPC system call driver: service discovery by name, and streaming
//! messages between processes over the buffers they allow.
//!
//! Each process allows, for every peer index `i`, a send buffer at allow
//! number `2 * i` and a receive buffer at `2 * i + 1`. Sending copies the
//! sender's send buffer to the end of the receiver's receive buffer, then
//! queues an upcall task for both.

use vstd::prelude::*;

use crate::process::{
    appended, buffer_at, enqueued, first_named, grant_of, has_grant, is_live, named, with_buffer, with_grant,
    CommandReturn, Error, ErrorCode, GrantView, Kernel, ProcessView, ScheduledUpcall, Task,
    ALLOW_RW_COUNT,
};

verus! {

/// Syscall number
pub const DRIVER_NUM: usize = 0x10000;

/// Which upcall an IPC task schedules.
#[derive(Clone, Copy, Debug, PartialEq, Eq, Structural)]
pub enum IPCUpcallType {
    /// The sender's upcall, once its message is delivered.
    Sender,
    /// The receiver's upcall for a message from one of its clients.
    ClientReceiver,
    /// The receiver's upcall for a message to the service it offers.
    ServiceReceiver,
    /// Indicates that the upcall is for the service upcall handler this
    /// process has setup.
    Service,
    /// Indicates that the upcall is from a different service app and will
    /// call one of the client upcalls setup by this process.
    Client,
}

/// The IPC mechanism struct.
pub struct IPC<const NUM_PROCS: u8> {
    driver_num: usize,
}

pub type ProcessTable = Seq<Option<ProcessView<IPCUpcallType>>>;

/// The error of entering the grant region of process `i`, which cannot be
/// entered.
pub open spec fn enter_error(k: ProcessTable, i: int) -> Error {
    if !is_live(k, i) {
        Error::NoSuchApp
    } else {
        Error::OutOfMemory
    }
}

/// Whether scheduling an upcall on `on` for `from` gets as far as choosing
/// the upcall by its kind.
pub open spec fn reaches_upcall_choice(k: ProcessTable, on: int, from: int) -> bool {
    &&& is_live(k, on)
    &&& is_live(k, from)
    &&& has_grant(k, on)
    &&& from != on
    &&& has_grant(k, from)
}

/// What scheduling an IPC upcall on process `on`, caused by `from`, leaves
/// behind and returns.
pub open spec fn schedule_outcome(
    k: ProcessTable,
    on: int,
    from: int,
    cb: IPCUpcallType,
    num_upcalls: nat,
) -> (ProcessTable, Result<(), Error>) {
    if !is_live(k, on) || !is_live(k, from) {
        (k, Err(Error::NoSuchApp))
    } else if !has_grant(k, on) {
        (k, Err(Error::OutOfMemory))
    } else if cb is Sender {
        (k, Ok(()))
    } else if from == on {
        (k, Err(Error::AlreadyInUse))
    } else if !has_grant(k, from) {
        (k, Err(Error::OutOfMemory))
    } else {
        let to = if cb is ServiceReceiver {
            on
        } else {
            from
        };
        let g = grant_of(k, on);
        let b = buffer_at(g, to * 2 + 1);
        let (len, addr) = if to * 2 + 1 < ALLOW_RW_COUNT {
            (b.data.len() as usize, b.addr)
        } else {
            (0usize, 0usize)
        };
        let up = ScheduledUpcall { num: to as usize, args: (from as usize, len, addr) };
        if to < num_upcalls {
            (with_grant(k, on, GrantView { upcalls: g.upcalls.push(up), ..g }), Ok(()))
        } else {
            (k, Ok(()))
        }
    }
}

/// Whether `r` answers a discovery by process `pid`: the index of the
/// first process named as its search buffer says, `NODEVICE` when there is
/// none, and `NOMEM` when its grant region cannot be entered.
pub open spec fn discover_answer<U>(k: Seq<Option<ProcessView<U>>>, pid: int, r: CommandReturn) -> bool {
    if !has_grant(k, pid) {
        r == CommandReturn::Failure(ErrorCode::NOMEM)
    } else {
        let name = grant_of(k, pid).search;
        match r {
            CommandReturn::SuccessU32(v) => exists|i: int| first_named(k, name, Some(i)) && v == i as u32,
            CommandReturn::Failure(e) => e == ErrorCode::NODEVICE && first_named(k, name, None),
            CommandReturn::Success => false,
        }
    }
}

/// What sending a message from process `pid` leaves behind and returns:
/// to the service `target` when `client` is false, with buffers numbered by
/// `target`; to the client `target` when it is true, with buffers numbered
/// by `pid`.
pub open spec fn send_outcome(k: ProcessTable, pid: int, target: int, client: bool) -> (
    ProcessTable,
    CommandReturn,
) {
    let base = if client {
        pid
    } else {
        target
    };
    let kind = if client {
        IPCUpcallType::ClientReceiver
    } else {
        IPCUpcallType::ServiceReceiver
    };
    if !is_live(k, target) || !is_live(k, pid) || !has_grant(k, pid) || target == pid
        || !has_grant(k, target) || base * 2 + 1 >= ALLOW_RW_COUNT {
        (k, CommandReturn::Failure(ErrorCode::INVAL))
    } else {
        let s = buffer_at(grant_of(k, pid), base * 2).data;
        let g = grant_of(k, target);
        match appended(buffer_at(g, base * 2 + 1), s) {
            None => (k, CommandReturn::Failure(ErrorCode::INVAL)),
            Some(b) => {
                let k1 = with_grant(k, target, with_buffer(g, base * 2 + 1, b));
                match enqueued(k1, pid, Task::IPC(pid as usize, IPCUpcallType::Sender)) {
                    Err(e) => (k1, CommandReturn::Failure(e)),
                    Ok(k2) => match enqueued(k2, target, Task::IPC(pid as usize, kind)) {
                        Err(e) => (k2, CommandReturn::Failure(e)),
                        Ok(k3) => (k3, CommandReturn::Success),
                    },
                }
            },
        }
    }
}

impl<const NUM_PROCS: u8> IPC<NUM_PROCS> {
    pub closed spec fn spec_driver_num(&self) -> usize {
        self.driver_num
    }

    /// The driver, registered under `driver_num`.
    pub fn new(driver_num: usize) -> (r: Self)
        ensures
            r.spec_driver_num() == driver_num,
    {
        Self { driver_num }
    }

    /// Schedules an IPC upcall on process `schedule_on`, caused by process
    /// `called_from`: the upcall numbered by the receiving side, with the
    /// caller's index and the length and address of the receive buffer.
    pub fn schedule_upcall(
        &self,
        kernel: &mut Kernel<IPCUpcallType>,
        schedule_on: usize,
        called_from: usize,
        cb_type: IPCUpcallType,
    ) -> (r: Result<(), Error>)
        requires
            (cb_type is Service || cb_type is Client) ==> !reaches_upcall_choice(
                old(kernel)@,
                schedule_on as int,
                called_from as int,
            ),
        ensures
            (final(kernel)@, r) == schedule_outcome(
                old(kernel)@,
                schedule_on as int,
                called_from as int,
                cb_type,
                NUM_PROCS as nat,
            ),
    {
        if !kernel.is_valid(schedule_on) || !kernel.is_valid(called_from) {
            return Err(Error::NoSuchApp);
        }
        if !kernel.can_enter(schedule_on) {
            return Err(Error::OutOfMemory);
        }
        match cb_type {
            IPCUpcallType::Sender => Ok(()),
            _ => {
                if called_from == schedule_on {
                    return Err(Error::AlreadyInUse);
                }
                if !kernel.can_enter(called_from) {
                    return Err(Error::OutOfMemory);
                }
                let to_schedule: usize = match cb_type {
                    IPCUpcallType::ServiceReceiver => schedule_on,
                    IPCUpcallType::ClientReceiver => called_from,
                    _ => vstd::pervasive::unreached(),
                };
                let (len, ptr) = if to_schedule < ALLOW_RW_COUNT / 2 {
                    kernel.buffer_len_addr(schedule_on, to_schedule * 2 + 1)
                } else {
                    (0, 0)
                };
                let _ = kernel.schedule_upcall(
                    schedule_on,
                    NUM_PROCS as usize,
                    ScheduledUpcall { num: to_schedule, args: (called_from, len, ptr) },
                );
                Ok(())
            },
        }
    }

    /// Discovery: the index of the first process whose name is in the
    /// search buffer of process `processid`.
    fn discover(&self, kernel: &Kernel<IPCUpcallType>, processid: usize) -> (r: CommandReturn)
        ensures
            discover_answer(kernel@, processid as int, r),
    {
        if !kernel.can_enter(processid) {
            return CommandReturn::failure(ErrorCode::NOMEM);
        }
        match kernel.find_named(kernel.search_of(processid).as_slice()) {
            Some(i) => CommandReturn::success_u32(i as u32),
            None => CommandReturn::failure(ErrorCode::NODEVICE),
        }
    }

    /// Sends the message of process `processid` to process `target_id`, as
    /// to a service (`client` false) or to a client (`client` true).
    fn send(
        &self,
        kernel: &mut Kernel<IPCUpcallType>,
        target_id: usize,
        processid: usize,
        client: bool,
    ) -> (r: CommandReturn)
        ensures
            (final(kernel)@, r) == send_outcome(
                old(kernel)@,
                processid as int,
                target_id as int,
                client,
            ),
    {
        if !kernel.is_valid(target_id) || !kernel.is_valid(processid) {
            return CommandReturn::failure(ErrorCode::INVAL);
        }
        if !kernel.can_enter(processid) || target_id == processid || !kernel.can_enter(target_id) {
            return CommandReturn::failure(ErrorCode::INVAL);
        }
        let base = if client {
            processid
        } else {
            target_id
        };
        if base >= ALLOW_RW_COUNT / 2 {
            return CommandReturn::failure(ErrorCode::INVAL);
        }
        let kind = if client {
            IPCUpcallType::ClientReceiver
        } else {
            IPCUpcallType::ServiceReceiver
        };
        let sslice = kernel.buffer_bytes(processid, base * 2);
        if kernel.append_to_buffer(target_id, base * 2 + 1, &sslice).is_err() {
            return CommandReturn::failure(ErrorCode::INVAL);
        }
        let ret = match kernel.enqueue_task(processid, Task::IPC(processid, IPCUpcallType::Sender)) {
            Ok(()) => kernel.enqueue_task(target_id, Task::IPC(processid, kind)),
            Err(e) => Err(e),
        };
        match ret {
            Ok(()) => CommandReturn::success(),
            Err(e) => CommandReturn::failure(e),
        }
    }

    /// The IPC commands of process `processid`:
    ///
    /// - `0`: driver existence check, always succeeds;
    /// - `1`: discovery of the process named in the search buffer;
    /// - `2`: send to the service `target_id`;
    /// - `3`: send to the client `target_id`;
    /// - `4`: the caller's own index.
    pub fn command(
        &self,
        kernel: &mut Kernel<IPCUpcallType>,
        command_number: usize,
        target_id: usize,
        _arg: usize,
        processid: usize,
    ) -> (r: CommandReturn)
        ensures
            command_number == 0 ==> r == CommandReturn::Success && final(kernel)@ == old(kernel)@,
            command_number == 1 ==> final(kernel)@ == old(kernel)@ && discover_answer(
                old(kernel)@,
                processid as int,
                r,
            ),
            command_number == 2 ==> (final(kernel)@, r) == send_outcome(
                old(kernel)@,
                processid as int,
                target_id as int,
                false,
            ),
            command_number == 3 ==> (final(kernel)@, r) == send_outcome(
                old(kernel)@,
                processid as int,
                target_id as int,
                true,
            ),
            command_number == 4 ==> final(kernel)@ == old(kernel)@ && r == if is_live(
                old(kernel)@,
                processid as int,
            ) {
                CommandReturn::SuccessU32(processid as u32)
            } else {
                CommandReturn::Failure(ErrorCode::INVAL)
            },
            command_number > 4 ==> r == CommandReturn::Failure(ErrorCode::NOSUPPORT),
            command_number > 4 ==> final(kernel)@ == old(kernel)@,
    {
        match command_number {
            0 => CommandReturn::success(),
            1 => self.discover(kernel, processid),
            2 => self.send(kernel, target_id, processid, false),
            3 => self.send(kernel, target_id, processid, true),
            4 => {
                if kernel.is_valid(processid) {
                    CommandReturn::success_u32(processid as u32)
                } else {
                    CommandReturn::failure(ErrorCode::INVAL)
                }
            },
            _ => CommandReturn::failure(ErrorCode::NOSUPPORT),
        }
    }

    /// Makes sure the grant region of process `processid` is there.
    pub fn allocate_grant(&self, kernel: &Kernel<IPCUpcallType>, processid: usize) -> (r: Result<
        (),
        Error,
    >)
        ensures
            has_grant(kernel@, processid as int) ==> r is Ok,
            !has_grant(kernel@, processid as int) ==> r == Err::<(), Error>(
                enter_error(kernel@, processid as int),
            ),
    {
        if kernel.can_enter(processid) {
            Ok(())
        } else if kernel.is_valid(processid) {
            Err(Error::OutOfMemory)
        } else {
            Err(Error::NoSuchApp)
        }
    }
}

/// Sending to a process that does not exist, or to oneself, is refused
/// with `INVAL` and changes nothing.
pub proof fn lemma_send_to_missing_or_self_is_inval(k: ProcessTable, pid: int, target: int, client: bool)
    requires
        !is_live(k, target) || target == pid,
    ensures
        send_outcome(k, pid, target, client) == (k, CommandReturn::Failure(ErrorCode::INVAL)),
{
}

/// Whenever a send is refused with `INVAL`, nothing has changed.
pub proof fn lemma_inval_send_changes_nothing(k: ProcessTable, pid: int, target: int, client: bool)
    requires
        send_outcome(k, pid, target, client).1 == CommandReturn::Failure(ErrorCode::INVAL),
    ensures
        send_outcome(k, pid, target, client).0 == k,
{
}

/// A successful send delivers: the receiver's receive buffer ends with the
/// sender's bytes, and the sender and the receiver each have the matching
/// upcall task queued last.
pub proof fn lemma_send_success_delivers(k: ProcessTable, pid: int, target: int, client: bool)
    requires
        send_outcome(k, pid, target, client).1 == CommandReturn::Success,
    ensures
        ({
            let base = if client { pid } else { target };
            let k3 = send_outcome(k, pid, target, client).0;
            let s = buffer_at(grant_of(k, pid), base * 2).data;
            let before = buffer_at(grant_of(k, target), base * 2 + 1);
            let after = buffer_at(grant_of(k3, target), base * 2 + 1);
            &&& k3.len() == k.len()
            &&& after.used == before.used + s.len()
            &&& after.data.len() == before.data.len()
            &&& after.data.subrange(0, before.used as int) == before.data.subrange(0, before.used as int)
            &&& after.data.subrange(before.used as int, after.used as int) == s
            &&& k3[pid]->0.tasks.last() == Task::IPC(pid as usize, IPCUpcallType::Sender)
            &&& k3[target]->0.tasks.last() == Task::IPC(
                pid as usize,
                if client { IPCUpcallType::ClientReceiver } else { IPCUpcallType::ServiceReceiver },
            )
        }),
{
    let base = if client { pid } else { target };
    let s = buffer_at(grant_of(k, pid), base * 2).data;
    let before = buffer_at(grant_of(k, target), base * 2 + 1);
    let b = appended(before, s)->0;
    assert(b.data.subrange(before.used as int, b.used as int) =~= s);
    assert(b.data.subrange(0, before.used as int) =~= before.data.subrange(0, before.used as int));
}

/// Scheduling a receiver upcall tells the receiving side where its message
/// is. For `ServiceReceiver` the upcall is numbered by the process it is
/// scheduled on, `on`; for `ClientReceiver` by the caller, `from`. Its
/// arguments are the caller's index and the length and address of the
/// receive buffer that `on` allows for that number, `2 * number + 1`, or
/// zeros where that allow number does not exist; nothing else changes.
pub proof fn lemma_receiver_upcall_points_at_receive_buffer(
    k: ProcessTable,
    on: int,
    from: int,
    cb: IPCUpcallType,
    n: nat,
)
    requires
        cb is ServiceReceiver || cb is ClientReceiver,
        reaches_upcall_choice(k, on, from),
    ensures
        ({
            let num = if cb is ServiceReceiver { on } else { from };
            let b = buffer_at(grant_of(k, on), 2 * num + 1);
            let (len, addr) = if 2 * num + 1 < ALLOW_RW_COUNT {
                (b.data.len() as usize, b.addr)
            } else {
                (0usize, 0usize)
            };
            let (k2, r) = schedule_outcome(k, on, from, cb, n);
            &&& r == Ok::<(), Error>(())
            &&& num < n ==> k2.len() == k.len() && grant_of(k2, on).upcalls == grant_of(k, on).upcalls.push(
                ScheduledUpcall { num: num as usize, args: (from as usize, len, addr) },
            ) && grant_of(k2, on).buffers == grant_of(k, on).buffers
                && forall|j: int| 0 <= j < k.len() && j != on ==> k2[j] == k[j]
            &&& num >= n ==> k2 == k
        }),
{
}

/// Scheduling a `Sender` upcall schedules nothing, once both processes
/// exist and `on`'s grant region can be entered.
pub proof fn lemma_sender_upcall_is_quiet(k: ProcessTable, on: int, from: int, n: nat)
    requires
        is_live(k, on),
        is_live(k, from),
        has_grant(k, on),
    ensures
        schedule_outcome(k, on, from, IPCUpcallType::Sender, n) == (k, Ok::<(), Error>(())),
{
}

/// A discovery that succeeds names a process whose name is the one searched
/// for.
pub proof fn lemma_discover_finds_named(k: ProcessTable, pid: int, v: u32)
    requires
        discover_answer(k, pid, CommandReturn::SuccessU32(v)),
    ensures
        exists|i: int| named(k, i, grant_of(k, pid).search) && v == i as u32,
{
}

} // verus!
