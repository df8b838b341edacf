# tock_smp

Verified pieces of a multi-core extension of the Tock kernel, written in
Verus.

- `collections::ring_buffer`: a bounded FIFO ring that keeps one slot free;
  its contents are modelled as a `Seq` and every operation is specified
  against it (`retain` included).
- `collections::blocking_atomic_ring_buffer`: a spin `Mutex` and the ring
  buffer whose operations all run under it.
- `smp::rwlock`: a readers-writer spin lock.
- `smp::channel`: inter-thread message headers and the receiver bit sets.
- `smp::ipc`: discovery across kernel threads and the thread-aware IPC
  commands.
- `ipc`: the IPC system call driver (discovery and streaming messages over
  allowed buffers).
- `process`: the process table, grant regions, allowed buffers and task
  queues that the IPC drivers read and change, as plain values.
- `chips::qemu_rv32_virt_chip::channel`: the one-way channel between two
  harts over a shared buffer.

Locks are modelled as ownership protocols: taking a lock moves the value
into the guard and handing the guard back restores it. An acquisition that
would spin forever is excluded by its precondition. Hardware steps (alarms,
inter-hart interrupts) and the exchanges with other kernel threads are
returned to the caller as requests; `app/` carries them out.
