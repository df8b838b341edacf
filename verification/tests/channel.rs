use tock_smp::smp::channel::{
    InterThreadChannel, InterThreadMessage, InterThreadMessageBody, InterThreadMessageHeader,
    InterThreadMessageWrapper,
};
use tock_smp::smp::ipc::IPCInterThreadMessage;

#[test]
fn empty_header_and_message() {
    let h = InterThreadMessageHeader::empty();
    assert_eq!(h, InterThreadMessageHeader { sender: 0, receivers: 0, uid: 0 });
    let m = InterThreadMessage::empty();
    assert_eq!(*m.header(), h);
    assert_eq!(*m.body(), InterThreadMessageBody::Invalid);
}

#[test]
fn header_addresses_one_receiver() {
    let h = InterThreadMessageHeader::new(3, 5, 77);
    assert_eq!(h.sender, 3);
    assert_eq!(h.receivers, 0b10_0000);
    assert_eq!(h.uid, 77);
    // the sender id is kept in a byte
    let h = InterThreadMessageHeader::new(0x1_02, 0, 1);
    assert_eq!(h.sender, 2);
    assert_eq!(h.receivers, 1);
}

#[test]
fn response_goes_back_to_the_sender() {
    let request = InterThreadMessage::from_parts(
        InterThreadMessageHeader::new(4, 1, 99),
        InterThreadMessageBody::Ipc(IPCInterThreadMessage::Discover([1; 10])),
    );
    let reply = request.to_response(1, InterThreadMessageBody::Ipc(IPCInterThreadMessage::DiscoverFail));
    assert_eq!(reply.header().sender, 1);
    assert_eq!(reply.header().receivers, 1 << 4);
    assert_eq!(reply.header().uid, 99);
    assert_eq!(*reply.body(), InterThreadMessageBody::Ipc(IPCInterThreadMessage::DiscoverFail));
}

#[test]
fn wrapper_tracks_its_recipients() {
    let mut w = InterThreadMessageWrapper::new(0, 2, 11, InterThreadMessage::empty());
    assert_eq!(w.id(), 11);
    assert!(w.is_recipient(2));
    assert!(!w.is_recipient(3));
    assert!(!w.is_recipient(0));
    w.receivers |= 1 << 5;
    assert_eq!(w.mark_recipient(2), 1 << 5);
    assert!(!w.is_recipient(2));
    assert!(w.is_recipient(5));
    assert_eq!(w.mark_recipient(5), 0);
    assert_eq!(w.mark_recipient(5), 0);
    assert_eq!(w.extract(), InterThreadMessage::empty());
}

#[test]
fn empty_wrapper_waits_for_nobody() {
    let w = InterThreadMessageWrapper::empty();
    assert_eq!(w.id(), 0);
    for i in 0..8 {
        assert!(!w.is_recipient(i));
    }
}

#[test]
fn unit_channel_carries_nothing() {
    let c = ();
    let id = c.write(1, &InterThreadMessage::empty());
    assert_eq!(c.try_read(&id), None);
    assert_eq!(c.read(id), None);
}

#[test]
fn ipc_message_conversions() {
    let m = IPCInterThreadMessage::DiscoverSuccess(3).into_message();
    assert_eq!(*m.header(), InterThreadMessageHeader::empty());
    assert_eq!(IPCInterThreadMessage::try_from_message(m), Ok(IPCInterThreadMessage::DiscoverSuccess(3)));
    assert_eq!(IPCInterThreadMessage::try_from_message(InterThreadMessage::empty()), Err(()));
}

#[test]
fn marks_keep_id_sender_and_message() {
    let mut w = InterThreadMessageWrapper::new(7, 1, 42, InterThreadMessage::empty());
    w.receivers |= (1 << 3) | (1 << 4);
    for t in [1u8, 4, 1] {
        w.mark_recipient(t);
        assert_eq!(w.id(), 42);
        assert_eq!(w.sender, 7);
    }
    assert!(w.is_recipient(3));
    assert!(!w.is_recipient(1));
    assert!(!w.is_recipient(4));
}
