use texture_share_vk::ipc::io_error::IoErrorKind;
use texture_share_vk::ipc::ipc_commands::{
    CommFindImage, CommandMsg, ProtocolError, ResultFindImage, ResultMsg, COMMAND_MSG_LEN,
    IMAGE_NAME_LEN, RESULT_MSG_LEN,
};
use texture_share_vk::ipc::ipc_unix_socket::{
    AncillaryReceiver, IPCConnection, IPCSocket, MessageReceiver, MAX_HANDLE_COUNT,
};
use texture_share_vk::ipc::retry::{try_fcn_timeout, RetryStep};
use texture_share_vk::ipc::span::{sleep_interval, Span};

fn timeout() -> Span {
    Span::from_millis(10000)
}

/// A listener that has accepted one connection, and the connected peer.
fn _ipc_stream_create() -> (IPCSocket, IPCConnection) {
    let mut listener = IPCSocket::new(Ok(()), timeout())
        .unwrap()
        .expect("Failed to create socket");
    let _ = listener
        .try_accept(Ok(()))
        .unwrap()
        .expect("Failed to listen for connection");
    let conn = IPCConnection::try_connect(Ok(()), timeout())
        .unwrap()
        .expect("Failed to connect to socket");
    (listener, conn)
}

/// Delivers `sent` to `receiver` in pieces of at most `piece` bytes, asking
/// for no more than the receiver wants each time.
fn deliver(receiver: &mut MessageReceiver, sent: &[u8], piece: usize) -> Option<()> {
    let mut at = 0;
    let mut last = None;
    while at < sent.len() && !receiver.is_complete() {
        let want = receiver.wanted().min(piece).min(sent.len() - at);
        last = receiver.on_read(&sent[at..at + want]);
        at += want;
    }
    last
}

#[test]
fn socket_creation() {
    let socket = IPCSocket::new(Ok(()), timeout()).unwrap().unwrap();
    assert!(socket.connections.is_empty());
    assert_eq!(socket.timeout, timeout());
}

#[test]
fn ipc_stream_create() {
    let (listener, conn) = _ipc_stream_create();
    assert_eq!(listener.connections.len(), 1);
    assert_eq!(listener.connections[0].proc_id, 0);
    assert_eq!(listener.connections[0].timeout, timeout());
    assert_eq!(conn.proc_id, 0);
    assert_eq!(conn.timeout, timeout());
}

#[test]
fn ipc_ack() {
    let (listener, conn) = _ipc_stream_create();

    let send_conn = listener.connections.last().unwrap();
    let sent = send_conn.send_ack();
    assert_eq!(sent, vec![1u8]);

    let elapsed = Span::from_millis(3);
    let step = try_fcn_timeout(
        Ok(conn.recv_ack(sent.len())),
        elapsed,
        conn.timeout,
        sleep_interval(conn.timeout),
    );
    match step {
        RetryStep::Done(()) => {}
        _ => panic!("Failed to receive ack"),
    }
}

#[test]
fn ipc_msg() {
    let (listener, conn) = _ipc_stream_create();

    let send_conn = listener.connections.last().unwrap();
    let msg = CommandMsg::FindImage(CommFindImage {
        image_name: [1u8; IMAGE_NAME_LEN],
    });
    let sent = send_conn.send_command(&msg);
    let s_res = sent.len();

    let mut receiver = conn.command_receiver();
    let _ = deliver(&mut receiver, &sent, 300);
    let r_res = conn.recv_command(&receiver).expect("Failed to recv cmd");

    assert_eq!(s_res, COMMAND_MSG_LEN);
    assert!(r_res.is_some());

    let cmp_msg = CommandMsg::FindImage(CommFindImage {
        image_name: [1u8; IMAGE_NAME_LEN],
    });
    let rec_msg = r_res.unwrap();

    assert_eq!(cmp_msg.tag(), rec_msg.tag());
    let CommandMsg::FindImage(cmp_find) = cmp_msg;
    let CommandMsg::FindImage(rec_find) = rec_msg;
    assert_eq!(cmp_find.image_name, rec_find.image_name);
}

#[test]
fn ipc_result_msg() {
    let (listener, conn) = _ipc_stream_create();

    let send_conn = listener.connections.last().unwrap();
    let ResultMsg::FindImage(mut found) = ResultMsg::default();
    found.img_data.height = 1024;
    let msg = ResultMsg::FindImage(found);
    let sent = send_conn.send_result(&msg);
    let s_res = sent.len();

    let mut receiver = conn.result_receiver();
    let _ = deliver(&mut receiver, &sent, 5);
    let r_res = conn.recv_result(&receiver).expect("Failed to recv res");

    assert_eq!(s_res, RESULT_MSG_LEN);
    assert!(r_res.is_some());

    let ResultMsg::FindImage(mut cmp_found) = ResultMsg::default();
    cmp_found.img_data.height = 1024;
    let cmp_msg = ResultMsg::FindImage(cmp_found);
    let rec_msg = r_res.unwrap();

    assert_eq!(cmp_msg.tag(), rec_msg.tag());
    let ResultMsg::FindImage(rec_found) = rec_msg;
    assert_eq!(cmp_found.img_data.height, rec_found.img_data.height);
    assert_eq!(rec_found.img_data.height, 1024);
}

#[test]
fn ipc_ancillary() {
    let (listener, conn) = _ipc_stream_create();

    let fd1 = 7;
    let fd2 = 8;

    let send_conn = listener.connections.last().unwrap();
    let handles = [fd1, fd2];
    let marker = send_conn.send_anillary_handles(&handles);
    assert_eq!(marker, vec![1u8; 4]);

    let mut receiver = conn.recv_ancillary(2).expect("Failed to recv ancillary");
    let attempt = receiver.on_read(receiver.buffer_size, &handles);
    assert_eq!(attempt, Some(2));
    let mut r_res = receiver.finish();

    assert_eq!(r_res.len(), 2);
    assert_eq!(r_res, vec![fd1, fd2]);
    r_res.clear();
}

#[test]
fn sleep_interval_is_a_tenth_of_the_timeout_up_to_100_ms() {
    assert_eq!(sleep_interval(Span::from_millis(10000)), Span::from_millis(100));
    assert_eq!(sleep_interval(Span::from_millis(1000)), Span::from_millis(100));
    assert_eq!(sleep_interval(Span::from_millis(999)), Span { nanos: 99_900_000 });
    assert_eq!(sleep_interval(Span::from_millis(500)), Span::from_millis(50));
    assert_eq!(sleep_interval(Span { nanos: 19 }), Span { nanos: 1 });
    assert_eq!(sleep_interval(Span { nanos: 9 }), Span { nanos: 0 });
    assert_eq!(sleep_interval(Span { nanos: 0 }), Span { nanos: 0 });
    assert_eq!(sleep_interval(Span { nanos: u128::MAX }), Span::from_millis(100));
}

#[test]
fn span_from_millis_counts_nanoseconds() {
    assert_eq!(Span::from_millis(0).nanos, 0);
    assert_eq!(Span::from_millis(1).nanos, 1_000_000);
    assert_eq!(Span::from_millis(u64::MAX).nanos, (u64::MAX as u128) * 1_000_000);
    assert!(Span::from_millis(2).exceeds(&Span::from_millis(1)));
    assert!(!Span::from_millis(1).exceeds(&Span::from_millis(1)));
    assert!(!Span::from_millis(1).exceeds(&Span::from_millis(2)));
}

#[test]
fn an_attempt_with_a_result_ends_the_operation() {
    let late = Span::from_millis(99999);
    let step = try_fcn_timeout(Ok(Some(5u32)), late, timeout(), Span::from_millis(100));
    assert_eq!(step, RetryStep::Done(5));
}

#[test]
fn an_attempt_without_a_result_pauses_until_the_timeout_has_run_out() {
    let pause = Span::from_millis(100);
    let t = Span::from_millis(1000);
    let before: RetryStep<u32> = try_fcn_timeout(Ok(None), Span::from_millis(999), t, pause);
    assert_eq!(before, RetryStep::Sleep(pause));
    let at: RetryStep<u32> = try_fcn_timeout(Ok(None), t, t, pause);
    assert_eq!(at, RetryStep::Sleep(pause));
    let after: RetryStep<u32> = try_fcn_timeout(Ok(None), Span { nanos: t.nanos + 1 }, t, pause);
    assert_eq!(after, RetryStep::GiveUp);
}

#[test]
fn would_block_counts_as_nothing_yet_and_other_failures_end_the_operation() {
    let pause = Span::from_millis(100);
    let t = Span::from_millis(1000);
    let early = Span::from_millis(1);
    let late = Span::from_millis(1001);
    let blocked: RetryStep<u32> = try_fcn_timeout(Err(IoErrorKind::WouldBlock), early, t, pause);
    assert_eq!(blocked, RetryStep::Sleep(pause));
    let blocked_late: RetryStep<u32> =
        try_fcn_timeout(Err(IoErrorKind::WouldBlock), late, t, pause);
    assert_eq!(blocked_late, RetryStep::GiveUp);
    for kind in [
        IoErrorKind::NotFound,
        IoErrorKind::AddrInUse,
        IoErrorKind::AddrNotAvailable,
        IoErrorKind::AlreadyExists,
        IoErrorKind::Interrupted,
        IoErrorKind::Other,
    ] {
        let failed: RetryStep<u32> = try_fcn_timeout(Err(kind), early, t, pause);
        assert_eq!(failed, RetryStep::Fail(kind));
        let failed_late: RetryStep<u32> = try_fcn_timeout(Err(kind), late, t, pause);
        assert_eq!(failed_late, RetryStep::Fail(kind));
    }
}

/// Runs an operation that never has anything, with a clock on which
/// attempts take no time and pauses last exactly as long as asked. Returns
/// the number of attempts and the time at which the operation gave up.
fn run_until_given_up(t: Span) -> (u32, Span) {
    let pause = sleep_interval(t);
    let mut elapsed = Span { nanos: 0 };
    let mut attempts = 0;
    loop {
        attempts += 1;
        let step: RetryStep<()> = try_fcn_timeout(Ok(None), elapsed, t, pause);
        match step {
            RetryStep::Sleep(p) => {
                assert_eq!(p, pause);
                elapsed = Span {
                    nanos: elapsed.nanos + p.nanos,
                };
            }
            RetryStep::GiveUp => return (attempts, elapsed),
            _ => panic!("an attempt without a result neither ends nor fails the operation"),
        }
    }
}

#[test]
fn an_operation_gives_up_within_one_pause_after_the_timeout() {
    let (attempts, elapsed) = run_until_given_up(Span::from_millis(1000));
    assert_eq!(attempts, 12);
    assert_eq!(elapsed, Span::from_millis(1100));

    let (attempts, elapsed) = run_until_given_up(Span::from_millis(10000));
    assert_eq!(attempts, 102);
    assert_eq!(elapsed, Span::from_millis(10100));

    let t = Span { nanos: 1_234_567 };
    let (_, elapsed) = run_until_given_up(t);
    assert!(elapsed.nanos > t.nanos);
    assert!(elapsed.nanos <= t.nanos + sleep_interval(t).nanos);
}

#[test]
fn connecting_before_the_listener_is_there_is_nothing_yet() {
    for kind in [
        IoErrorKind::AddrNotAvailable,
        IoErrorKind::NotFound,
        IoErrorKind::Interrupted,
    ] {
        assert_eq!(IPCConnection::try_connect(Err(kind), timeout()), Ok(None));
        let late = Span::from_millis(10001);
        let step = try_fcn_timeout(
            IPCConnection::try_connect(Err(kind), timeout()),
            late,
            timeout(),
            sleep_interval(timeout()),
        );
        assert_eq!(step, RetryStep::GiveUp);
    }
    for kind in [
        IoErrorKind::AddrInUse,
        IoErrorKind::AlreadyExists,
        IoErrorKind::WouldBlock,
        IoErrorKind::Other,
    ] {
        assert_eq!(IPCConnection::try_connect(Err(kind), timeout()), Err(kind));
    }
    assert_eq!(
        IPCConnection::try_connect(Ok(()), Span::from_millis(5)),
        Ok(Some(IPCConnection {
            proc_id: 0,
            timeout: Span::from_millis(5)
        }))
    );
}

#[test]
fn binding_a_path_that_is_still_held_is_nothing_yet() {
    for kind in [
        IoErrorKind::AddrInUse,
        IoErrorKind::AddrNotAvailable,
        IoErrorKind::AlreadyExists,
    ] {
        assert_eq!(IPCSocket::new(Err(kind), timeout()), Ok(None));
    }
    for kind in [
        IoErrorKind::NotFound,
        IoErrorKind::WouldBlock,
        IoErrorKind::Interrupted,
        IoErrorKind::Other,
    ] {
        assert_eq!(IPCSocket::new(Err(kind), timeout()), Err(kind));
    }
}

#[test]
fn accepted_connections_are_kept_in_the_order_of_their_arrival() {
    let mut listener = IPCSocket::new(Ok(()), Span::from_millis(70))
        .unwrap()
        .unwrap();
    assert_eq!(listener.last(), None);
    assert_eq!(listener.try_accept(Err(IoErrorKind::WouldBlock)), Ok(None));
    assert_eq!(listener.connections.len(), 0);
    assert_eq!(listener.try_accept(Ok(())), Ok(Some(0)));
    assert_eq!(
        listener.try_accept(Err(IoErrorKind::Other)),
        Err(IoErrorKind::Other)
    );
    assert_eq!(
        listener.try_accept(Err(IoErrorKind::Interrupted)),
        Err(IoErrorKind::Interrupted)
    );
    assert_eq!(listener.connections.len(), 1);
    assert_eq!(listener.try_accept(Ok(())), Ok(Some(1)));
    assert_eq!(listener.connections.len(), 2);
    assert_eq!(
        listener.last(),
        Some(&IPCConnection {
            proc_id: 0,
            timeout: Span::from_millis(70)
        })
    );
    assert_eq!(listener.timeout, Span::from_millis(70));
}

#[test]
fn no_byte_read_is_no_acknowledgement() {
    let conn = IPCConnection::new(4, Span::from_millis(100));
    assert_eq!(conn.recv_ack(0), None);
    assert_eq!(conn.recv_ack(1), Some(()));
    let late = Span::from_millis(101);
    let step = try_fcn_timeout(
        Ok(conn.recv_ack(0)),
        late,
        conn.timeout,
        sleep_interval(conn.timeout),
    );
    assert_eq!(step, RetryStep::GiveUp);
    let soon = Span::from_millis(100);
    let step = try_fcn_timeout(
        Ok(conn.recv_ack(0)),
        soon,
        conn.timeout,
        sleep_interval(conn.timeout),
    );
    assert_eq!(step, RetryStep::Sleep(Span::from_millis(10)));
}

#[test]
fn a_record_is_there_when_its_last_byte_is() {
    let conn = IPCConnection::new(0, timeout());
    let sent = conn.send_result(&ResultMsg::default());
    let mut receiver = conn.result_receiver();
    assert_eq!(receiver.wanted(), RESULT_MSG_LEN);
    assert_eq!(receiver.on_read(&sent[..27]), None);
    assert_eq!(receiver.wanted(), 1);
    assert!(!receiver.is_complete());
    assert_eq!(conn.recv_result(&receiver), Ok(None));
    assert_eq!(receiver.on_read(&[]), None);
    assert_eq!(receiver.on_read(&sent[27..]), Some(()));
    assert!(receiver.is_complete());
    assert_eq!(receiver.wanted(), 0);
    assert_eq!(conn.recv_result(&receiver), Ok(Some(ResultMsg::default())));
}

#[test]
fn bytes_beyond_the_end_of_a_record_are_left_out() {
    let conn = IPCConnection::new(0, timeout());
    let mut sent = conn.send_result(&ResultMsg::default());
    sent.extend_from_slice(&[9, 9, 9]);
    let mut receiver = conn.result_receiver();
    assert_eq!(receiver.on_read(&sent), Some(()));
    assert_eq!(receiver.bytes.len(), RESULT_MSG_LEN);
    assert_eq!(receiver.bytes, sent[..RESULT_MSG_LEN].to_vec());
    assert_eq!(receiver.on_read(&[1, 2]), Some(()));
    assert_eq!(receiver.bytes.len(), RESULT_MSG_LEN);
}

#[test]
fn a_command_that_is_not_all_there_is_no_command() {
    let conn = IPCConnection::new(0, timeout());
    let sent = conn.send_command(&CommandMsg::default());
    let mut receiver = conn.command_receiver();
    assert_eq!(deliver(&mut receiver, &sent[..1027], 100), None);
    assert!(matches!(conn.recv_command(&receiver), Ok(None)));
}

#[test]
fn a_record_with_an_unknown_tag_is_refused() {
    let conn = IPCConnection::new(0, timeout());
    let mut sent = conn.send_command(&CommandMsg::default());
    sent[0] = 7;
    let mut receiver = conn.command_receiver();
    assert_eq!(deliver(&mut receiver, &sent, 4096), Some(()));
    assert_eq!(
        conn.recv_command(&receiver),
        Err(ProtocolError::UnrecognizedTag(7))
    );

    let mut sent = conn.send_result(&ResultMsg::default());
    sent[1] = 1;
    let mut receiver = conn.result_receiver();
    assert_eq!(deliver(&mut receiver, &sent, 4096), Some(()));
    assert_eq!(
        conn.recv_result(&receiver),
        Err(ProtocolError::UnrecognizedTag(256))
    );
}

#[test]
fn no_handles_means_nothing_to_send_and_nothing_to_wait_for() {
    let conn = IPCConnection::new(0, timeout());
    assert_eq!(conn.send_anillary_handles(&[]), Vec::<u8>::new());
    let receiver = conn.recv_ancillary(0).unwrap();
    assert!(receiver.is_complete());
    assert_eq!(receiver.finish(), Vec::<i32>::new());
}

#[test]
fn handles_add_up_over_several_reads() {
    let conn = IPCConnection::new(0, timeout());
    let mut receiver = conn.recv_ancillary(3).unwrap();
    assert!(!receiver.is_complete());
    assert_eq!(receiver.on_read(20, &[11]), None);
    assert_eq!(receiver.on_read(0, &[99]), None);
    assert_eq!(receiver.handles, vec![11]);
    assert_eq!(receiver.on_read(16, &[]), None);
    assert_eq!(receiver.on_read(24, &[12, 13]), Some(3));
    assert!(receiver.is_complete());
    assert_eq!(receiver.finish(), vec![11, 12, 13]);
}

#[test]
fn handles_that_did_not_all_arrive_are_handed_out_all_the_same() {
    let conn = IPCConnection::new(0, timeout());
    let mut receiver = conn.recv_ancillary(2).unwrap();
    assert_eq!(receiver.on_read(20, &[5]), None);
    assert_eq!(receiver.finish(), vec![5]);
}

#[test]
fn more_handles_than_were_waited_for_are_all_kept() {
    let conn = IPCConnection::new(0, timeout());
    let mut receiver = conn.recv_ancillary(1).unwrap();
    assert_eq!(receiver.on_read(24, &[5, 6]), Some(2));
    assert_eq!(receiver.finish(), vec![5, 6]);
}

#[test]
fn the_buffer_for_handles_has_room_for_a_header_and_the_handles() {
    let conn = IPCConnection::new(0, timeout());
    let receiver: AncillaryReceiver = conn.recv_ancillary(2).unwrap();
    assert_eq!(receiver.expected, 2);
    assert!(receiver.buffer_size >= 4 * 2 + 12);
    assert!(receiver.buffer_size <= 4 * 2 + 16);
    assert_eq!(
        receiver.buffer_size,
        interprocess::os::unix::udsocket::AncillaryData::encoded_size_of_file_descriptors(2)
    );
    let none = conn.recv_ancillary(0).unwrap();
    assert!(none.buffer_size >= 12 && none.buffer_size <= 16);
}

#[test]
fn a_count_of_handles_whose_buffer_cannot_be_sized_is_refused() {
    let conn = IPCConnection::new(0, timeout());
    assert_eq!(MAX_HANDLE_COUNT, (usize::MAX - 16) / 4);
    assert!(conn.recv_ancillary(MAX_HANDLE_COUNT).is_some());
    assert!(conn.recv_ancillary(MAX_HANDLE_COUNT + 1).is_none());
    assert!(conn.recv_ancillary(usize::MAX).is_none());
}

#[test]
fn find_image_results_carry_the_whole_description() {
    let ResultMsg::FindImage(ResultFindImage { mut img_data }) = ResultMsg::default();
    img_data.id = 0x0102_0304;
    img_data.width = 640;
    img_data.height = 1024;
    img_data.format.raw = -2;
    img_data.allocation_size = 0x1122_3344_5566_7788;
    let msg = ResultMsg::FindImage(ResultFindImage { img_data });
    let bytes = msg.encode();
    assert_eq!(
        bytes,
        vec![
            0, 0, 0, 0, // tag
            4, 3, 2, 1, // id
            0x80, 2, 0, 0, // width
            0, 4, 0, 0, // height
            0xfe, 0xff, 0xff, 0xff, // format
            0x88, 0x77, 0x66, 0x55, 0x44, 0x33, 0x22, 0x11, // allocation size
        ]
    );
    assert_eq!(ResultMsg::decode(&bytes), Ok(msg));
}
