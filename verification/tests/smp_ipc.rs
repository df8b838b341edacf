use tock_smp::process::{CommandReturn, ErrorCode, IpcGrant, Kernel, Process, ProcessBuffer, ScheduledUpcall, Task};
use tock_smp::smp::channel::{InterThreadMessage, InterThreadMessageBody};
use tock_smp::smp::ipc::{CommandStep, IPCInterThreadMessage, IPCUpcallType, DRIVER_NUM, IPC};

fn process(name: &[u8], search: &[u8]) -> Process<IPCUpcallType> {
    Process {
        name: name.to_vec(),
        grant: Some(IpcGrant {
            search: search.to_vec(),
            buffers: (0..4).map(|_| None).collect(),
            upcalls: Vec::new(),
        }),
        running: true,
        tasks: Vec::new(),
        task_capacity: 2,
        mpu_regions: Vec::new(),
        mpu_capacity: 1,
    }
}

fn kernel() -> Kernel<IPCUpcallType> {
    Kernel { processes: vec![Some(process(b"console", b"timer_svc_x")), Some(process(b"timer_svc_", b"nope"))] }
}

#[test]
fn local_discovery() {
    let mut k = kernel();
    let ipc: IPC<4> = IPC::new(DRIVER_NUM, 1);
    assert_eq!(ipc.discover_local(&k, b"console"), Some(0));
    assert_eq!(ipc.discover(&k, 0), CommandReturn::Failure(ErrorCode::NODEVICE));
    // not found here, long enough to ask another thread
    assert_eq!(ipc.command(&mut k, 1, 0, 0, 0), CommandStep::DiscoverGlobal(*b"timer_svc_"));
    // not found and too short to ask
    assert_eq!(ipc.command(&mut k, 1, 0, 0, 1), CommandStep::Reply(CommandReturn::Failure(ErrorCode::NODEVICE)));
}

#[test]
fn service_answers_discovery_requests() {
    let k = kernel();
    let ipc: IPC<4> = IPC::new(DRIVER_NUM, 1);
    let request = IPCInterThreadMessage::Discover(*b"timer_svc_").into_message();
    let reply = ipc.service(&k, 0, request);
    assert_eq!(*reply.body(), InterThreadMessageBody::Ipc(IPCInterThreadMessage::DiscoverSuccess(1)));
    let request = IPCInterThreadMessage::Discover(*b"nothing___").into_message();
    let reply = ipc.service(&k, 0, request);
    assert_eq!(*reply.body(), InterThreadMessageBody::Ipc(IPCInterThreadMessage::DiscoverFail));
}

#[test]
fn global_discovery_exchange() {
    let ipc: IPC<4> = IPC::new(DRIVER_NUM, 1);
    let (target, msg) = ipc.discover_global_request(b"timer_svc_xyz").unwrap();
    assert_eq!(target, 0);
    assert_eq!(*msg.body(), InterThreadMessageBody::Ipc(IPCInterThreadMessage::Discover(*b"timer_svc_")));
    let on_zero: IPC<4> = IPC::new(DRIVER_NUM, 0);
    assert!(on_zero.discover_global_request(b"timer_svc_xyz").is_none());
    let ok = IPCInterThreadMessage::DiscoverSuccess(5).into_message();
    assert_eq!(IPC::<4>::discover_global_reply(Some((0, ok))), Some((0, 5)));
    let fail = IPCInterThreadMessage::DiscoverFail.into_message();
    assert_eq!(IPC::<4>::discover_global_reply(Some((0, fail))), None);
    assert_eq!(IPC::<4>::discover_global_reply(None), None);
    assert_eq!(IPC::<4>::finish_discover(Some((0, 5))), CommandReturn::SuccessU32(5));
    assert_eq!(IPC::<4>::finish_discover(None), CommandReturn::Failure(ErrorCode::NODEVICE));
    assert_eq!(*InterThreadMessage::empty().body(), InterThreadMessageBody::Invalid);
}

#[test]
fn notify_local_and_forward() {
    let mut k = kernel();
    let ipc: IPC<4> = IPC::new(DRIVER_NUM, 0);
    // thread byte 0: this thread, process 1
    assert_eq!(ipc.command(&mut k, 2, 1, 0, 0), CommandStep::Reply(CommandReturn::Success));
    assert_eq!(k.processes[1].as_ref().unwrap().tasks, vec![Task::IPC(0, IPCUpcallType::Service)]);
    // thread byte 2: forwarded
    let target = (2usize << (usize::BITS - 8)) | 1;
    assert_eq!(ipc.command(&mut k, 2, target, 0, 0), CommandStep::Forward { thread: 2, target: 1 });
    assert_eq!(ipc.command(&mut k, 3, 0, 0, 1), CommandStep::Reply(CommandReturn::Success));
    assert_eq!(k.processes[0].as_ref().unwrap().tasks, vec![Task::IPC(1, IPCUpcallType::Client)]);
    assert_eq!(ipc.command(&mut k, 3, 6, 0, 1), CommandStep::Reply(CommandReturn::Failure(ErrorCode::INVAL)));
    assert_eq!(ipc.command(&mut k, 0, 0, 0, 1), CommandStep::Reply(CommandReturn::Success));
    assert_eq!(ipc.command(&mut k, 8, 0, 0, 1), CommandStep::Reply(CommandReturn::Failure(ErrorCode::NOSUPPORT)));
}

#[test]
fn schedule_upcall_shares_the_buffer() {
    let mut k = kernel();
    k.processes[0].as_mut().unwrap().grant.as_mut().unwrap().buffers[1] =
        Some(ProcessBuffer { addr: 0x800, data: vec![0; 8], used: 0 });
    let ipc: IPC<4> = IPC::new(DRIVER_NUM, 0);
    assert_eq!(ipc.schedule_upcall(&mut k, 1, 0, IPCUpcallType::Service), Ok(()));
    let p1 = k.processes[1].as_ref().unwrap();
    assert_eq!(p1.mpu_regions, vec![(0x800, 8)]);
    assert_eq!(p1.grant.as_ref().unwrap().upcalls, vec![ScheduledUpcall { num: 1, args: (0, 8, 0x800) }]);
    // no more room in the memory protection unit; the upcall still goes out
    assert_eq!(ipc.schedule_upcall(&mut k, 1, 0, IPCUpcallType::Client), Ok(()));
    let p1 = k.processes[1].as_ref().unwrap();
    assert_eq!(p1.mpu_regions.len(), 1);
    assert_eq!(p1.grant.as_ref().unwrap().upcalls[1], ScheduledUpcall { num: 0, args: (0, 8, 0x800) });
    assert_eq!(ipc.allocate_grant(&k, 0), Ok(()));
}

#[test]
fn notify_a_stopped_process_is_nodevice() {
    let mut k = kernel();
    k.processes[1].as_mut().unwrap().running = false;
    let ipc: IPC<4> = IPC::new(DRIVER_NUM, 0);
    assert_eq!(ipc.command(&mut k, 2, 1, 0, 0), CommandStep::Reply(CommandReturn::Failure(ErrorCode::NODEVICE)));
    assert!(k.processes[1].as_ref().unwrap().tasks.is_empty());
}
