use tock_smp::ipc::{IPCUpcallType, DRIVER_NUM, IPC};
use tock_smp::process::{
    CommandReturn, Error, ErrorCode, IpcGrant, Kernel, Process, ProcessBuffer, ScheduledUpcall, Task,
};

fn process(name: &[u8], search: &[u8]) -> Process<IPCUpcallType> {
    Process {
        name: name.to_vec(),
        grant: Some(IpcGrant {
            search: search.to_vec(),
            buffers: (0..16).map(|_| None).collect(),
            upcalls: Vec::new(),
        }),
        running: true,
        tasks: Vec::new(),
        task_capacity: 4,
        mpu_regions: Vec::new(),
        mpu_capacity: 2,
    }
}

fn buffer(addr: usize, data: &[u8], used: usize) -> Option<ProcessBuffer> {
    Some(ProcessBuffer { addr, data: data.to_vec(), used })
}

fn two_processes() -> Kernel<IPCUpcallType> {
    let mut a = process(b"client", b"service");
    let mut b = process(b"service", b"");
    // a sends to b (index 1): send buffer 2, receive buffer 3 at b
    a.grant.as_mut().unwrap().buffers[2] = buffer(0x100, b"hi", 0);
    b.grant.as_mut().unwrap().buffers[3] = buffer(0x200, &[0; 4], 1);
    Kernel { processes: vec![Some(a), Some(b)] }
}

fn ipc() -> IPC<4> {
    IPC::new(DRIVER_NUM)
}

#[test]
fn existence_check_succeeds() {
    let mut k = two_processes();
    assert_eq!(ipc().command(&mut k, 0, 0, 0, 0), CommandReturn::Success);
}

#[test]
fn discover_finds_the_named_service() {
    let mut k = two_processes();
    assert_eq!(ipc().command(&mut k, 1, 0, 0, 0), CommandReturn::SuccessU32(1));
    // the service looks for the empty name: nobody has it
    assert_eq!(ipc().command(&mut k, 1, 0, 0, 1), CommandReturn::Failure(ErrorCode::NODEVICE));
    // no such caller
    assert_eq!(ipc().command(&mut k, 1, 0, 0, 7), CommandReturn::Failure(ErrorCode::NOMEM));
}

#[test]
fn discover_takes_the_first_of_equal_names() {
    let mut k = Kernel {
        processes: vec![None, Some(process(b"x", b"dup")), Some(process(b"dup", b"")), Some(process(b"dup", b""))],
    };
    assert_eq!(ipc().command(&mut k, 1, 0, 0, 1), CommandReturn::SuccessU32(2));
}

#[test]
fn send_to_service_appends_and_queues_tasks() {
    let mut k = two_processes();
    assert_eq!(ipc().command(&mut k, 2, 1, 0, 0), CommandReturn::Success);
    let b = k.processes[1].as_ref().unwrap();
    let rb = b.grant.as_ref().unwrap().buffers[3].as_ref().unwrap();
    assert_eq!(rb.data, vec![0, b'h', b'i', 0]);
    assert_eq!(rb.used, 3);
    assert_eq!(b.tasks, vec![Task::IPC(0, IPCUpcallType::ServiceReceiver)]);
    let a = k.processes[0].as_ref().unwrap();
    assert_eq!(a.tasks, vec![Task::IPC(0, IPCUpcallType::Sender)]);
}

#[test]
fn send_that_does_not_fit_is_inval() {
    let mut k = two_processes();
    assert_eq!(ipc().command(&mut k, 2, 1, 0, 0), CommandReturn::Success);
    // only one byte of room is left
    assert_eq!(ipc().command(&mut k, 2, 1, 0, 0), CommandReturn::Failure(ErrorCode::INVAL));
    assert_eq!(k.processes[1].as_ref().unwrap().tasks.len(), 1);
}

#[test]
fn send_to_missing_or_self_is_inval() {
    let mut k = two_processes();
    assert_eq!(ipc().command(&mut k, 2, 5, 0, 0), CommandReturn::Failure(ErrorCode::INVAL));
    assert_eq!(ipc().command(&mut k, 2, 0, 0, 0), CommandReturn::Failure(ErrorCode::INVAL));
    assert_eq!(ipc().command(&mut k, 3, 1, 0, 9), CommandReturn::Failure(ErrorCode::INVAL));
    assert!(k.processes[0].as_ref().unwrap().tasks.is_empty());
}

#[test]
fn send_with_full_task_queue_is_nomem_after_delivery() {
    let mut k = two_processes();
    k.processes[1].as_mut().unwrap().task_capacity = 0;
    assert_eq!(ipc().command(&mut k, 2, 1, 0, 0), CommandReturn::Failure(ErrorCode::NOMEM));
    // the bytes were delivered and the sender's task queued before the refusal
    let b = k.processes[1].as_ref().unwrap();
    assert_eq!(b.grant.as_ref().unwrap().buffers[3].as_ref().unwrap().used, 3);
    assert_eq!(k.processes[0].as_ref().unwrap().tasks.len(), 1);
}

#[test]
fn send_to_client_uses_the_callers_buffers() {
    let mut k = two_processes();
    // b (index 1) answers its client a (index 0): buffers 2 and 3 numbered by b
    k.processes[1].as_mut().unwrap().grant.as_mut().unwrap().buffers[2] = buffer(0x300, b"ok", 0);
    k.processes[0].as_mut().unwrap().grant.as_mut().unwrap().buffers[3] = buffer(0x400, &[9; 2], 0);
    assert_eq!(ipc().command(&mut k, 3, 0, 0, 1), CommandReturn::Success);
    let a = k.processes[0].as_ref().unwrap();
    assert_eq!(a.grant.as_ref().unwrap().buffers[3].as_ref().unwrap().data, b"ok".to_vec());
    assert_eq!(a.tasks, vec![Task::IPC(1, IPCUpcallType::ClientReceiver)]);
}

#[test]
fn own_index_and_unknown_commands() {
    let mut k = two_processes();
    assert_eq!(ipc().command(&mut k, 4, 0, 0, 1), CommandReturn::SuccessU32(1));
    assert_eq!(ipc().command(&mut k, 4, 0, 0, 3), CommandReturn::Failure(ErrorCode::INVAL));
    assert_eq!(ipc().command(&mut k, 9, 0, 0, 0), CommandReturn::Failure(ErrorCode::NOSUPPORT));
}

#[test]
fn schedule_upcall_for_a_service() {
    let mut k = two_processes();
    let ipc = ipc();
    assert_eq!(ipc.schedule_upcall(&mut k, 1, 0, IPCUpcallType::ServiceReceiver), Ok(()));
    let up = &k.processes[1].as_ref().unwrap().grant.as_ref().unwrap().upcalls;
    assert_eq!(*up, vec![ScheduledUpcall { num: 1, args: (0, 4, 0x200) }]);
    assert_eq!(ipc.schedule_upcall(&mut k, 0, 1, IPCUpcallType::ClientReceiver), Ok(()));
    let up = &k.processes[0].as_ref().unwrap().grant.as_ref().unwrap().upcalls;
    assert_eq!(*up, vec![ScheduledUpcall { num: 1, args: (1, 0, 0) }]);
}

#[test]
fn schedule_upcall_errors() {
    let mut k = two_processes();
    let ipc = ipc();
    assert_eq!(ipc.schedule_upcall(&mut k, 3, 0, IPCUpcallType::Sender), Err(Error::NoSuchApp));
    assert_eq!(ipc.schedule_upcall(&mut k, 0, 0, IPCUpcallType::Sender), Ok(()));
    assert_eq!(ipc.schedule_upcall(&mut k, 0, 0, IPCUpcallType::ClientReceiver), Err(Error::AlreadyInUse));
    k.processes[1].as_mut().unwrap().grant = None;
    assert_eq!(ipc.schedule_upcall(&mut k, 0, 1, IPCUpcallType::ClientReceiver), Err(Error::OutOfMemory));
    assert_eq!(ipc.allocate_grant(&k, 1), Err(Error::OutOfMemory));
    assert_eq!(ipc.allocate_grant(&k, 0), Ok(()));
    assert_eq!(ipc.allocate_grant(&k, 2), Err(Error::NoSuchApp));
}

#[test]
fn send_to_a_stopped_receiver_is_nodevice() {
    let mut k = two_processes();
    k.processes[1].as_mut().unwrap().running = false;
    assert_eq!(ipc().command(&mut k, 2, 1, 0, 0), CommandReturn::Failure(ErrorCode::NODEVICE));
    // the sender's own task went in before the receiver refused
    assert_eq!(k.processes[0].as_ref().unwrap().tasks, vec![Task::IPC(0, IPCUpcallType::Sender)]);
    assert!(k.processes[1].as_ref().unwrap().tasks.is_empty());
}
