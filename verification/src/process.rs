//! The parts of the kernel that the IPC driver reads and changes, held as
//! plain values: the process table, each process's IPC grant region with the
//! buffers it has allowed, and its pending tasks.

use vstd::prelude::*;

verus! {

/// How many read-write buffers a process can allow to the IPC driver.
pub const ALLOW_RW_COUNT: usize = 16;

/// Errors returned to userspace.
#[derive(Clone, Copy, Debug, PartialEq, Eq, Structural)]
pub enum ErrorCode {
    FAIL,
    BUSY,
    ALREADY,
    OFF,
    RESERVE,
    INVAL,
    SIZE,
    CANCEL,
    NOMEM,
    NOSUPPORT,
    NODEVICE,
    UNINSTALLED,
    NOACK,
}

/// Errors of kernel operations on a process.
#[derive(Clone, Copy, Debug, PartialEq, Eq, Structural)]
pub enum Error {
    NoSuchApp,
    OutOfMemory,
    AddressOutOfBounds,
    KernelError,
    InactiveApp,
    AlreadyInUse,
}

/// What a system call command returns to userspace.
#[derive(Clone, Copy, Debug, PartialEq, Eq, Structural)]
pub enum CommandReturn {
    Success,
    SuccessU32(u32),
    Failure(ErrorCode),
}

impl CommandReturn {
    pub fn success() -> (r: Self)
        ensures
            r == CommandReturn::Success,
    {
        CommandReturn::Success
    }

    pub fn success_u32(v: u32) -> (r: Self)
        ensures
            r == CommandReturn::SuccessU32(v),
    {
        CommandReturn::SuccessU32(v)
    }

    pub fn failure(e: ErrorCode) -> (r: Self)
        ensures
            r == CommandReturn::Failure(e),
    {
        CommandReturn::Failure(e)
    }
}

/// A task queued for a process: an IPC upcall of kind `U` caused by the
/// process at the given index.
#[derive(Debug, PartialEq, Eq)]
pub enum Task<U> {
    IPC(usize, U),
}

/// An upcall scheduled in a grant region: its number and its arguments.
#[derive(Clone, Copy, Debug, PartialEq, Eq)]
pub struct ScheduledUpcall {
    pub num: usize,
    pub args: (usize, usize, usize),
}

/// A buffer a process has allowed: where it lies, its bytes, and how many
/// of them, from the start, hold data appended to it.
pub struct ProcessBuffer {
    pub addr: usize,
    pub data: Vec<u8>,
    pub used: usize,
}

/// The IPC driver's grant region in one process.
pub struct IpcGrant {
    /// The read-only buffer holding the name a discovery looks for.
    pub search: Vec<u8>,
    /// The read-write buffers, by allow number; `None` where none is allowed.
    pub buffers: Vec<Option<ProcessBuffer>>,
    /// Upcalls scheduled so far.
    pub upcalls: Vec<ScheduledUpcall>,
}

pub struct Process<U> {
    pub name: Vec<u8>,
    /// The IPC grant region, or `None` where it cannot be allocated.
    pub grant: Option<IpcGrant>,
    /// Whether the process runs; a faulted or stopped one takes no tasks.
    pub running: bool,
    pub tasks: Vec<Task<U>>,
    /// How many tasks the queue holds.
    pub task_capacity: usize,
    /// Memory regions, as start and length, the process has been given
    /// access to besides its own memory.
    pub mpu_regions: Vec<(usize, usize)>,
    /// How many such regions the memory protection unit can hold.
    pub mpu_capacity: usize,
}

/// The process table: slot `i` holds the process whose index is `i`.
pub struct Kernel<U> {
    pub processes: Vec<Option<Process<U>>>,
}

#[verifier::ext_equal]
pub struct BufferView {
    pub addr: usize,
    pub data: Seq<u8>,
    pub used: nat,
}

#[verifier::ext_equal]
pub struct GrantView {
    pub search: Seq<u8>,
    pub buffers: Seq<Option<BufferView>>,
    pub upcalls: Seq<ScheduledUpcall>,
}

#[verifier::ext_equal]
pub struct ProcessView<U> {
    pub name: Seq<u8>,
    pub grant: Option<GrantView>,
    pub running: bool,
    pub tasks: Seq<Task<U>>,
    pub task_capacity: nat,
    pub mpu_regions: Seq<(usize, usize)>,
    pub mpu_capacity: nat,
}

impl View for ProcessBuffer {
    type V = BufferView;

    open spec fn view(&self) -> BufferView {
        BufferView { addr: self.addr, data: self.data@, used: self.used as nat }
    }
}

pub open spec fn buffer_opt_view(b: Option<ProcessBuffer>) -> Option<BufferView> {
    match b {
        Some(x) => Some(x@),
        None => None,
    }
}

impl View for IpcGrant {
    type V = GrantView;

    open spec fn view(&self) -> GrantView {
        GrantView {
            search: self.search@,
            buffers: self.buffers@.map_values(|b: Option<ProcessBuffer>| buffer_opt_view(b)),
            upcalls: self.upcalls@,
        }
    }
}

pub open spec fn grant_opt_view(g: Option<IpcGrant>) -> Option<GrantView> {
    match g {
        Some(x) => Some(x@),
        None => None,
    }
}

impl<U> View for Process<U> {
    type V = ProcessView<U>;

    open spec fn view(&self) -> ProcessView<U> {
        ProcessView {
            name: self.name@,
            grant: grant_opt_view(self.grant),
            tasks: self.tasks@,
            running: self.running,
            task_capacity: self.task_capacity as nat,
            mpu_regions: self.mpu_regions@,
            mpu_capacity: self.mpu_capacity as nat,
        }
    }
}

pub open spec fn process_opt_view<U>(p: Option<Process<U>>) -> Option<ProcessView<U>> {
    match p {
        Some(x) => Some(x@),
        None => None,
    }
}

impl<U> View for Kernel<U> {
    type V = Seq<Option<ProcessView<U>>>;

    open spec fn view(&self) -> Seq<Option<ProcessView<U>>> {
        self.processes@.map_values(|p: Option<Process<U>>| process_opt_view(p))
    }
}

/// The buffer a default allow gives: no bytes, at address zero.
pub open spec fn empty_buffer() -> BufferView {
    BufferView { addr: 0, data: Seq::empty(), used: 0 }
}

/// Read-write buffer `n` of a grant: the allowed one, or the default.
pub open spec fn buffer_at(g: GrantView, n: int) -> BufferView {
    if 0 <= n < g.buffers.len() && g.buffers[n] is Some {
        g.buffers[n]->0
    } else {
        empty_buffer()
    }
}

/// `g` with read-write buffer `n` replaced by `b`, where one is allowed.
pub open spec fn with_buffer(g: GrantView, n: int, b: BufferView) -> GrantView {
    if 0 <= n < g.buffers.len() && g.buffers[n] is Some {
        GrantView { buffers: g.buffers.update(n, Some(b)), ..g }
    } else {
        g
    }
}

/// The buffer after appending `s` behind its used bytes, or `None` when
/// `s` does not fit.
///
/// This is the library's own definition of appending to a receive buffer:
/// each allowed buffer carries a count of the bytes already filled, and a
/// message goes right behind them, whole or not at all. The kernel's slice
/// buffer that the driver writes through is not part of this library.
pub open spec fn appended(b: BufferView, s: Seq<u8>) -> Option<BufferView> {
    if b.used + s.len() <= b.data.len() {
        Some(
            BufferView {
                data: b.data.subrange(0, b.used as int) + s + b.data.subrange(
                    (b.used + s.len()) as int,
                    b.data.len() as int,
                ),
                used: b.used + s.len(),
                ..b
            },
        )
    } else {
        None
    }
}

/// Whether slot `i` of the table holds a process.
pub open spec fn is_live<U>(k: Seq<Option<ProcessView<U>>>, i: int) -> bool {
    0 <= i < k.len() && k[i] is Some
}

/// Whether the IPC grant region of process `i` can be entered.
pub open spec fn has_grant<U>(k: Seq<Option<ProcessView<U>>>, i: int) -> bool {
    is_live(k, i) && k[i]->0.grant is Some
}

pub open spec fn grant_of<U>(k: Seq<Option<ProcessView<U>>>, i: int) -> GrantView {
    k[i]->0.grant->0
}

/// The table with the grant region of process `i` replaced by `g`.
pub open spec fn with_grant<U>(k: Seq<Option<ProcessView<U>>>, i: int, g: GrantView) -> Seq<
    Option<ProcessView<U>>,
> {
    k.update(i, Some(ProcessView { grant: Some(g), ..k[i]->0 }))
}

/// The table after queueing `t` for process `i`; `NODEVICE` when the
/// process does not run, `NOMEM` when its queue is full.
pub open spec fn enqueued<U>(k: Seq<Option<ProcessView<U>>>, i: int, t: Task<U>) -> Result<
    Seq<Option<ProcessView<U>>>,
    ErrorCode,
> {
    if !k[i]->0.running {
        Err(ErrorCode::NODEVICE)
    } else if k[i]->0.tasks.len() < k[i]->0.task_capacity {
        Ok(k.update(i, Some(ProcessView { tasks: k[i]->0.tasks.push(t), ..k[i]->0 })))
    } else {
        Err(ErrorCode::NOMEM)
    }
}

/// The table after giving process `i` access to the region of `len` bytes
/// at `start`, when its memory protection unit has room for one more.
pub open spec fn with_mpu_region<U>(k: Seq<Option<ProcessView<U>>>, i: int, start: usize, len: usize) -> Seq<
    Option<ProcessView<U>>,
> {
    if k[i]->0.mpu_regions.len() < k[i]->0.mpu_capacity {
        k.update(
            i,
            Some(ProcessView { mpu_regions: k[i]->0.mpu_regions.push((start, len)), ..k[i]->0 }),
        )
    } else {
        k
    }
}

/// Whether process `i` is named `name`.
pub open spec fn named<U>(k: Seq<Option<ProcessView<U>>>, i: int, name: Seq<u8>) -> bool {
    is_live(k, i) && k[i]->0.name == name
}

/// Whether `r` is the index of the first process named `name`, or `None`
/// when no process has that name.
pub open spec fn first_named<U>(k: Seq<Option<ProcessView<U>>>, name: Seq<u8>, r: Option<int>) -> bool {
    match r {
        Some(i) => named(k, i, name) && forall|j: int| 0 <= j < i ==> !named(k, j, name),
        None => forall|j: int| 0 <= j < k.len() ==> !named(k, j, name),
    }
}

/// Appending keeps the buffer where it is and as long as it is, keeps the
/// bytes already there and those after the new ones, puts the new bytes
/// right behind the old ones, and counts them as used; it succeeds exactly
/// when they fit.
pub proof fn lemma_appended_keeps_earlier_bytes(b: BufferView, s: Seq<u8>)
    ensures
        (appended(b, s) is Some) == (b.used + s.len() <= b.data.len()),
        appended(b, s) matches Some(a) ==> {
            &&& a.addr == b.addr
            &&& a.data.len() == b.data.len()
            &&& a.used == b.used + s.len()
            &&& a.data.subrange(0, b.used as int) == b.data.subrange(0, b.used as int)
            &&& a.data.subrange(b.used as int, a.used as int) == s
            &&& a.data.subrange(a.used as int, a.data.len() as int) == b.data.subrange(
                a.used as int,
                b.data.len() as int,
            )
        },
{
    if b.used + s.len() <= b.data.len() {
        let a = appended(b, s)->0;
        assert(a.data.subrange(0, b.used as int) =~= b.data.subrange(0, b.used as int));
        assert(a.data.subrange(b.used as int, a.used as int) =~= s);
        assert(a.data.subrange(a.used as int, a.data.len() as int) =~= b.data.subrange(
            a.used as int,
            b.data.len() as int,
        ));
    }
}

impl ProcessBuffer {
    /// Appends `s` behind the used bytes, if it fits.
    pub fn append(&mut self, s: &Vec<u8>) -> (r: Result<(), ErrorCode>)
        ensures
            appended(old(self)@, s@) is Some ==> r is Ok && final(self)@ == appended(
                old(self)@,
                s@,
            )->0,
            appended(old(self)@, s@) is None ==> r == Err::<(), ErrorCode>(ErrorCode::SIZE)
                && final(self)@ == old(self)@,
    {
        if self.used > self.data.len() || s.len() > self.data.len() - self.used {
            return Err(ErrorCode::SIZE);
        }
        let used = self.used;
        let dlen = self.data.len();
        let mut i: usize = 0;
        while i < s.len()
            invariant
                dlen == self.data@.len(),
                i <= s@.len(),
                used == old(self).used,
                used + s@.len() <= old(self).data@.len(),
                self.used == used,
                self.addr == old(self).addr,
                self.data@.len() == old(self).data@.len(),
                forall|j: int| 0 <= j < used ==> self.data@[j] == old(self).data@[j],
                forall|j: int| 0 <= j < i ==> self.data@[used + j] == s@[j],
                forall|j: int| used + s@.len() <= j < self.data@.len() ==> self.data@[j] == old(
                    self,
                ).data@[j],
            decreases s@.len() - i,
        {
            self.data.set(used + i, s[i]);
            i = i + 1;
        }
        self.used = used + s.len();
        assert(self.data@ =~= old(self).data@.subrange(0, used as int) + s@ + old(
            self,
        ).data@.subrange(used + s@.len(), old(self).data@.len() as int));
        Ok(())
    }
}

/// Whether two byte strings are equal.
pub fn bytes_eq(a: &[u8], b: &[u8]) -> (r: bool)
    ensures
        r == (a@ == b@),
{
    if a.len() != b.len() {
        return false;
    }
    let mut i: usize = 0;
    while i < a.len()
        invariant
            i <= a@.len(),
            a@.len() == b@.len(),
            forall|j: int| 0 <= j < i ==> a@[j] == b@[j],
        decreases a@.len() - i,
    {
        if a[i] != b[i] {
            return false;
        }
        i = i + 1;
    }
    assert(a@ =~= b@);
    true
}

impl<U> Kernel<U> {
    /// Whether the process at `index` exists, as `ProcessId::index` tells.
    pub fn is_valid(&self, index: usize) -> (r: bool)
        ensures
            r == is_live(self@, index as int),
    {
        index < self.processes.len() && self.processes[index].is_some()
    }

    /// Whether the IPC grant region of the process at `index` can be entered.
    pub fn can_enter(&self, index: usize) -> (r: bool)
        ensures
            r == has_grant(self@, index as int),
    {
        if index < self.processes.len() {
            match &self.processes[index] {
                Some(p) => p.grant.is_some(),
                None => false,
            }
        } else {
            false
        }
    }
}

impl<U> Kernel<U> {
    /// Queues `task` for the live process at `index`; a process that does
    /// not run refuses it with `NODEVICE`, a full queue with `NOMEM`.
    pub fn enqueue_task(&mut self, index: usize, task: Task<U>) -> (r: Result<(), ErrorCode>)
        requires
            is_live(old(self)@, index as int),
        ensures
            enqueued(old(self)@, index as int, task) matches Ok(k) ==> r is Ok && final(self)@ == k,
            enqueued(old(self)@, index as int, task) matches Err(e) ==> r == Err::<(), ErrorCode>(e)
                && final(self)@ == old(self)@,
    {
        let mut slot: Option<Process<U>> = None;
        self.processes.set_and_swap(index, &mut slot);
        let mut p = match slot {
            Some(p) => p,
            None => vstd::pervasive::unreached(),
        };
        let r = if !p.running {
            Err(ErrorCode::NODEVICE)
        } else if p.tasks.len() < p.task_capacity {
            p.tasks.push(task);
            Ok(())
        } else {
            Err(ErrorCode::NOMEM)
        };
        self.processes.set(index, Some(p));
        proof {
            if r is Ok {
                assert(self@ =~= enqueued(old(self)@, index as int, task)->Ok_0);
            } else {
                assert(self@ =~= old(self)@);
            }
        }
        r
    }

    /// Appends `s` to read-write buffer `n` of the process at `index`,
    /// whose grant region can be entered.
    pub fn append_to_buffer(&mut self, index: usize, n: usize, s: &Vec<u8>) -> (r: Result<
        (),
        ErrorCode,
    >)
        requires
            has_grant(old(self)@, index as int),
        ensures
            ({
                let g = grant_of(old(self)@, index as int);
                match appended(buffer_at(g, n as int), s@) {
                    Some(b) => r is Ok && final(self)@ == with_grant(
                        old(self)@,
                        index as int,
                        with_buffer(g, n as int, b),
                    ),
                    None => r is Err && final(self)@ == old(self)@,
                }
            }),
    {
        let mut slot: Option<Process<U>> = None;
        self.processes.set_and_swap(index, &mut slot);
        let mut p = match slot {
            Some(p) => p,
            None => vstd::pervasive::unreached(),
        };
        let mut g = match p.grant.take() {
            Some(g) => g,
            None => vstd::pervasive::unreached(),
        };
        let ghost g0 = g@;
        let r = if n < g.buffers.len() && g.buffers[n].is_some() {
            let mut bslot: Option<ProcessBuffer> = None;
            g.buffers.set_and_swap(n, &mut bslot);
            let mut b = match bslot {
                Some(b) => b,
                None => vstd::pervasive::unreached(),
            };
            let r = b.append(s);
            g.buffers.set(n, Some(b));
            proof {
                if r is Ok {
                    assert(g@ =~= with_buffer(g0, n as int, appended(buffer_at(g0, n as int), s@)->0));
                } else {
                    assert(g@ =~= g0);
                }
            }
            r
        } else if s.len() == 0 {
            proof {
                assert(appended(empty_buffer(), s@)->0 =~= empty_buffer());
            }
            Ok(())
        } else {
            Err(ErrorCode::SIZE)
        };
        p.grant = Some(g);
        self.processes.set(index, Some(p));
        proof {
            if r is Ok {
                assert(self@ =~= with_grant(
                    old(self)@,
                    index as int,
                    with_buffer(g0, n as int, appended(buffer_at(g0, n as int), s@)->0),
                ));
            } else {
                assert(self@ =~= old(self)@);
            }
        }
        r
    }

    /// Schedules `upcall` in the grant region of the process at `index`,
    /// provided its number is one of the `count` upcalls the region has.
    pub fn schedule_upcall(&mut self, index: usize, count: usize, upcall: ScheduledUpcall) -> (r:
        bool)
        requires
            has_grant(old(self)@, index as int),
        ensures
            r == (upcall.num < count),
            r ==> final(self)@ == with_grant(
                old(self)@,
                index as int,
                GrantView {
                    upcalls: grant_of(old(self)@, index as int).upcalls.push(upcall),
                    ..grant_of(old(self)@, index as int)
                },
            ),
            !r ==> final(self)@ == old(self)@,
    {
        if upcall.num >= count {
            return false;
        }
        let mut slot: Option<Process<U>> = None;
        self.processes.set_and_swap(index, &mut slot);
        let mut p = match slot {
            Some(p) => p,
            None => vstd::pervasive::unreached(),
        };
        let mut g = match p.grant.take() {
            Some(g) => g,
            None => vstd::pervasive::unreached(),
        };
        g.upcalls.push(upcall);
        p.grant = Some(g);
        self.processes.set(index, Some(p));
        proof {
            assert(self@ =~= with_grant(
                old(self)@,
                index as int,
                GrantView {
                    upcalls: grant_of(old(self)@, index as int).upcalls.push(upcall),
                    ..grant_of(old(self)@, index as int)
                },
            ));
        }
        true
    }

    /// The length and address of read-write buffer `n` of the process at
    /// `index`.
    pub fn buffer_len_addr(&self, index: usize, n: usize) -> (r: (usize, usize))
        requires
            has_grant(self@, index as int),
        ensures
            r.0 == buffer_at(grant_of(self@, index as int), n as int).data.len(),
            r.1 == buffer_at(grant_of(self@, index as int), n as int).addr,
    {
        match &self.processes[index] {
            Some(p) => match &p.grant {
                Some(g) => {
                    if n < g.buffers.len() {
                        match &g.buffers[n] {
                            Some(b) => (b.data.len(), b.addr),
                            None => (0, 0),
                        }
                    } else {
                        (0, 0)
                    }
                },
                None => vstd::pervasive::unreached(),
            },
            None => vstd::pervasive::unreached(),
        }
    }

    /// A copy of the bytes of read-write buffer `n` of the process at `index`.
    pub fn buffer_bytes(&self, index: usize, n: usize) -> (r: Vec<u8>)
        requires
            has_grant(self@, index as int),
        ensures
            r@ == buffer_at(grant_of(self@, index as int), n as int).data,
    {
        match &self.processes[index] {
            Some(p) => match &p.grant {
                Some(g) => {
                    if n < g.buffers.len() {
                        match &g.buffers[n] {
                            Some(b) => copy_bytes(&b.data),
                            None => Vec::new(),
                        }
                    } else {
                        Vec::new()
                    }
                },
                None => vstd::pervasive::unreached(),
            },
            None => vstd::pervasive::unreached(),
        }
    }

    /// The name in the search buffer of the process at `index`.
    pub fn search_of(&self, index: usize) -> (r: &Vec<u8>)
        requires
            has_grant(self@, index as int),
        ensures
            r@ == grant_of(self@, index as int).search,
    {
        match &self.processes[index] {
            Some(p) => match &p.grant {
                Some(g) => &g.search,
                None => vstd::pervasive::unreached(),
            },
            None => vstd::pervasive::unreached(),
        }
    }

    /// The index of the first process named `name`, as a walk over the
    /// processes in order finds it.
    pub fn find_named(&self, name: &[u8]) -> (r: Option<usize>)
        ensures
            first_named(self@, name@, match r {
                Some(i) => Some(i as int),
                None => None,
            }),
    {
        let mut i: usize = 0;
        while i < self.processes.len()
            invariant
                i <= self@.len(),
                self@.len() == self.processes@.len(),
                forall|j: int| 0 <= j < i ==> !named(self@, j, name@),
            decreases self@.len() - i,
        {
            match &self.processes[i] {
                Some(p) => {
                    if bytes_eq(p.name.as_slice(), name) {
                        return Some(i);
                    }
                },
                None => {},
            }
            i = i + 1;
        }
        None
    }
}

impl<U> Kernel<U> {
    /// Gives the live process at `index` access to the region of `len`
    /// bytes at `start`, if its memory protection unit has room.
    pub fn add_mpu_region(&mut self, index: usize, start: usize, len: usize) -> (r: bool)
        requires
            is_live(old(self)@, index as int),
        ensures
            final(self)@ == with_mpu_region(old(self)@, index as int, start, len),
            r == (old(self)@[index as int]->0.mpu_regions.len() < old(self)@[index as int]->0.mpu_capacity),
    {
        let mut slot: Option<Process<U>> = None;
        self.processes.set_and_swap(index, &mut slot);
        let mut p = match slot {
            Some(p) => p,
            None => vstd::pervasive::unreached(),
        };
        let r = if p.mpu_regions.len() < p.mpu_capacity {
            p.mpu_regions.push((start, len));
            true
        } else {
            false
        };
        self.processes.set(index, Some(p));
        proof {
            assert(self@ =~= with_mpu_region(old(self)@, index as int, start, len));
        }
        r
    }
}

/// A copy of a byte string.
pub fn copy_bytes(a: &Vec<u8>) -> (r: Vec<u8>)
    ensures
        r@ == a@,
{
    let mut r: Vec<u8> = Vec::new();
    let mut i: usize = 0;
    while i < a.len()
        invariant
            i <= a@.len(),
            r@ == a@.subrange(0, i as int),
        decreases a@.len() - i,
    {
        r.push(a[i]);
        i = i + 1;
        assert(r@ =~= a@.subrange(0, i as int));
    }
    assert(r@ =~= a@);
    r
}

} // verus!
