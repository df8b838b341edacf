use tock_smp::chips::qemu_rv32_virt_chip::channel::oneway::{
    OneWayQemuRv32VirtChannelReceiver, OneWayQemuRv32VirtChannelSender,
};
use tock_smp::chips::qemu_rv32_virt_chip::channel::{
    HardwareRequest, QemuRv32VirtChannel, QemuRv32VirtMessage, QemuRv32VirtMessageBody,
};

fn request(x: u32) -> QemuRv32VirtMessage {
    QemuRv32VirtMessage { src: 0, dst: 1, body: QemuRv32VirtMessageBody::Request(x) }
}

#[test]
fn request_comes_back_as_response() {
    let local_s = [None; 4];
    let local_r = [None; 4];
    let mut shared = [None; 1];
    let mut sender = OneWayQemuRv32VirtChannelSender::new(&local_s);
    let mut receiver = OneWayQemuRv32VirtChannelReceiver::new(&local_r);

    assert!(sender.write(&mut shared, request(7)));
    assert_eq!(shared[0], Some(request(7)));
    assert_eq!(
        sender.take_requests(),
        vec![HardwareRequest::SetAlarmTicks(u32::MAX), HardwareRequest::Notify(1)]
    );

    // receiver side: interrupt top half, then bottom half
    QemuRv32VirtChannel::service_async(&mut receiver, &mut shared);
    assert!(receiver.has_pending_requests());
    assert_eq!(shared[0], None);
    assert_eq!(
        receiver.take_requests(),
        vec![HardwareRequest::DisarmAlarm, HardwareRequest::SetAlarmSeconds(1)]
    );
    receiver.service();
    receiver.complete();
    assert!(!receiver.has_pending_requests());
    receiver.do_service_finalize(&mut shared);
    assert_eq!(
        shared[0],
        Some(QemuRv32VirtMessage { src: 1, dst: 0, body: QemuRv32VirtMessageBody::Response(7) })
    );
    assert_eq!(receiver.take_requests(), vec![HardwareRequest::Notify(0)]);

    // sender side
    sender.service_async();
    assert!(sender.has_pending_requests());
    assert_eq!(sender.service(&mut shared), Some(7));
    sender.complete();
    assert!(!sender.has_pending_requests());
    assert_eq!(shared[0], None);
    assert_eq!(sender.take_requests(), vec![HardwareRequest::DisarmAlarm]);
}

#[test]
fn sender_write_refused_when_local_queue_full() {
    let local_s = [None; 1];
    let mut shared = [None; 2];
    let mut sender = OneWayQemuRv32VirtChannelSender::new(&local_s);
    assert!(!sender.write(&mut shared, request(1)));
    assert_eq!(shared, [None, None]);
    assert!(sender.take_requests().is_empty());
}

#[test]
fn send_flushes_and_copies_in_order() {
    let local_s = [None; 4];
    let mut shared = [Some(request(99)); 3];
    let mut sender = OneWayQemuRv32VirtChannelSender::new(&local_s);
    sender.send(&mut shared, request(0), 5);
    assert_eq!(shared, [None, None, None]);
    assert_eq!(
        sender.take_requests(),
        vec![HardwareRequest::SetAlarmTicks(5), HardwareRequest::Notify(1)]
    );
    assert_eq!(sender.do_service(), None);
}

#[test]
fn receiver_drops_what_does_not_fit() {
    let local_r = [None; 2];
    let mut shared = [Some(request(1)), Some(request(2)), Some(request(3))];
    let mut receiver = OneWayQemuRv32VirtChannelReceiver::new(&local_r);
    QemuRv32VirtChannel::service_async(&mut receiver, &mut shared);
    assert_eq!(shared, [None, None, None]);
    // only one slot of room: the first request is answered
    receiver.do_service();
    let mut back = [None; 2];
    receiver.do_service_finalize(&mut back);
    assert_eq!(
        back,
        [Some(QemuRv32VirtMessage { src: 1, dst: 0, body: QemuRv32VirtMessageBody::Response(1) }), None]
    );
}

#[test]
fn receiver_write_queues_locally() {
    let local_r = [None; 3];
    let mut receiver = OneWayQemuRv32VirtChannelReceiver::new(&local_r);
    let m = QemuRv32VirtMessage { src: 1, dst: 0, body: QemuRv32VirtMessageBody::Response(5) };
    assert!(receiver.write_local(m));
    assert!(receiver.write_local(m));
    assert!(!receiver.write_local(m));
    let mut shared = [None; 3];
    receiver.do_service_finalize(&mut shared);
    assert_eq!(shared, [Some(m), Some(m), None]);
}

#[test]
fn receiver_through_the_channel_interface() {
    let local_r = [None; 3];
    let mut shared = [None; 1];
    let mut receiver = OneWayQemuRv32VirtChannelReceiver::new(&local_r);
    assert!(QemuRv32VirtChannel::write(&mut receiver, &mut shared, request(4)));
    QemuRv32VirtChannel::service(&mut receiver, &mut shared);
    assert_eq!(shared, [None]);
    receiver.do_service_finalize(&mut shared);
    assert_eq!(
        shared,
        [Some(QemuRv32VirtMessage { src: 1, dst: 0, body: QemuRv32VirtMessageBody::Response(4) })]
    );
}

#[test]
fn sides_without_slots_and_getters() {
    let none: [Option<QemuRv32VirtMessage>; 0] = [];
    let mut sender = OneWayQemuRv32VirtChannelSender::new(&none);
    let mut receiver = OneWayQemuRv32VirtChannelReceiver::new(&none);
    assert_eq!(sender.slot_count(), 0);
    assert_eq!(receiver.slot_count(), 0);
    let mut empty_shared: [Option<QemuRv32VirtMessage>; 0] = [];
    QemuRv32VirtChannel::service_async(&mut receiver, &mut empty_shared);
    assert_eq!(receiver.notified_count(), 1);
    assert_eq!(receiver.front(), None);
    assert_eq!(sender.service(&mut empty_shared), None);
    sender.service_async();
    sender.service_async();
    sender.complete();
    assert_eq!(sender.notified_count(), 1);
    assert!(sender.has_pending_requests());
    sender.complete();
    assert!(!sender.has_pending_requests());
}

#[test]
fn receiver_front_shows_the_oldest_request() {
    let local_r = [None; 3];
    let mut shared = [Some(request(2)), Some(request(3))];
    let mut receiver = OneWayQemuRv32VirtChannelReceiver::new(&local_r);
    QemuRv32VirtChannel::service_async(&mut receiver, &mut shared);
    assert_eq!(receiver.front(), Some(Some(request(2))));
    receiver.service();
    assert_eq!(receiver.front(), Some(Some(request(3))));
}
