use passive_open::isn::IsnGenerator;
use passive_open::retry::{HandshakeRetry, RetryAction, RetryEvent, RetryPhase};
use passive_open::socket::{LocalConfig, PassiveSocket, TaskStart};
use passive_open::types::{
    ControlBlock, Endpoint, Fail, Ipv4Header, Malformed, Poll, TcpHeader, TcpOption, FALLBACK_MSS,
    seq_successor,
};
use passive_open::window::{negotiate_options, scaled_window};

const LOCAL_ADDR: u32 = 0x0a00_0001;
const REMOTE_ADDR: u32 = 0x0a00_0002;
const LOCAL_LINK: [u8; 6] = [2, 0, 0, 0, 0, 1];
const REMOTE_LINK: [u8; 6] = [2, 0, 0, 0, 0, 2];

fn socket(backlog: usize) -> PassiveSocket {
    let config = LocalConfig { link_addr: LOCAL_LINK, receive_window_size: 65535 };
    PassiveSocket::new(Endpoint::new(LOCAL_ADDR, 80), backlog, 0x1234_5678, config)
}

fn ip_from(addr: u32) -> Ipv4Header {
    Ipv4Header { src_addr: addr, dst_addr: LOCAL_ADDR }
}

fn header(port: u16, syn: bool, ack: bool, rst: bool) -> TcpHeader {
    TcpHeader {
        src_port: port,
        dst_port: 80,
        seq_num: 1000,
        ack_num: 0,
        syn,
        ack,
        rst,
        window_size: 100,
        options: Vec::new(),
    }
}

fn syn(port: u16) -> TcpHeader {
    header(port, true, false, false)
}

fn ack_for(port: u16, ack_num: u32) -> TcpHeader {
    let mut h = header(port, false, true, false);
    h.seq_num = 1001;
    h.ack_num = ack_num;
    h
}

#[test]
fn fresh_syn_records_one_attempt() {
    let mut s = socket(4);
    let r = s.receive2(&ip_from(REMOTE_ADDR), &syn(5000));
    let remote = Endpoint::new(REMOTE_ADDR, 5000);
    assert_eq!(r, Ok(Some(TaskStart { remote, task: 0 })));
    assert_eq!(s.inflight_len(), 1);
    assert_eq!(s.ready_len(), 0);
    let e = s.inflight_entry(&remote).unwrap();
    assert_eq!(e.remote_isn, 1000);
    assert_eq!(e.window_scale, 1);
    assert_eq!(e.window_size, 200);
    assert_eq!(e.mss, FALLBACK_MSS);
    assert_eq!(e.task, 0);
    assert_eq!(e.retry.rounds, 0);
    assert_eq!(e.retry.phase, RetryPhase::Resolving);
    assert!(s.inflight_entry(&Endpoint::new(REMOTE_ADDR, 5001)).is_none());
}

#[test]
fn second_attempt_gets_next_task() {
    let mut s = socket(4);
    s.receive2(&ip_from(REMOTE_ADDR), &syn(5000)).unwrap();
    let r = s.receive2(&ip_from(REMOTE_ADDR), &syn(5001));
    assert_eq!(r, Ok(Some(TaskStart { remote: Endpoint::new(REMOTE_ADDR, 5001), task: 1 })));
    assert_eq!(s.inflight_len(), 2);
}

#[test]
fn missing_ack_is_malformed_and_keeps_attempt() {
    let mut s = socket(4);
    let remote = Endpoint::new(REMOTE_ADDR, 5000);
    s.receive2(&ip_from(REMOTE_ADDR), &syn(5000)).unwrap();
    let before = s.inflight_entry(&remote).unwrap();
    let r = s.receive2(&ip_from(REMOTE_ADDR), &syn(5000));
    assert_eq!(r, Err(Fail::Malformed { details: Malformed::ExpectedAck }));
    assert_eq!(s.inflight_entry(&remote), Some(before));
    assert_eq!(s.inflight_len(), 1);
    assert_eq!(s.ready_len(), 0);
}

#[test]
fn wrong_ack_number_is_malformed_and_keeps_attempt() {
    let mut s = socket(4);
    let remote = Endpoint::new(REMOTE_ADDR, 5000);
    s.receive2(&ip_from(REMOTE_ADDR), &syn(5000)).unwrap();
    let before = s.inflight_entry(&remote).unwrap();
    let r = s.receive2(&ip_from(REMOTE_ADDR), &ack_for(5000, before.local_isn));
    assert_eq!(r, Err(Fail::Malformed { details: Malformed::InvalidAckNumber }));
    assert_eq!(s.inflight_entry(&remote), Some(before));
    assert_eq!(s.ready_len(), 0);
}

#[test]
fn confirming_ack_yields_one_connection() {
    let mut s = socket(4);
    let remote = Endpoint::new(REMOTE_ADDR, 5000);
    let mut h = syn(5000);
    h.options = vec![TcpOption::MaximumSegmentSize(1460), TcpOption::WindowScale(2)];
    s.receive2(&ip_from(REMOTE_ADDR), &h).unwrap();
    let e = s.inflight_entry(&remote).unwrap();
    let r = s.receive2(&ip_from(REMOTE_ADDR), &ack_for(5000, e.local_isn.wrapping_add(1)));
    assert_eq!(r, Ok(None));
    assert_eq!(s.inflight_len(), 0);
    assert_eq!(s.ready_len(), 1);
    match s.poll_accept() {
        Poll::Ready(Ok(cb)) => {
            let expected: ControlBlock = cb;
            assert_eq!(expected.local, Endpoint::new(LOCAL_ADDR, 80));
            assert_eq!(expected.remote, remote);
            assert_eq!(expected.sender.seq, e.local_isn.wrapping_add(1));
            assert_eq!(expected.sender.window_size, 400);
            assert_eq!(expected.sender.window_scale, 2);
            assert_eq!(expected.sender.mss, 1460);
            assert_eq!(expected.receiver.seq, 1001);
            assert_eq!(expected.receiver.window_size, 65535);
        },
        other => panic!("expected a connection, got {:?}", other),
    }
    assert_eq!(s.poll_accept(), Poll::Pending);
}

#[test]
fn full_backlog_refuses_syn() {
    let mut s = socket(2);
    s.receive2(&ip_from(REMOTE_ADDR), &syn(5000)).unwrap();
    s.receive2(&ip_from(REMOTE_ADDR), &syn(5001)).unwrap();
    let r = s.receive2(&ip_from(REMOTE_ADDR), &syn(5002));
    assert_eq!(r, Err(Fail::ConnectionRefused));
    assert_eq!(s.inflight_len(), 2);
    assert_eq!(s.ready_len(), 0);
}

#[test]
fn ready_entries_count_against_backlog() {
    let mut s = socket(1);
    let remote = Endpoint::new(REMOTE_ADDR, 5000);
    s.receive2(&ip_from(REMOTE_ADDR), &syn(5000)).unwrap();
    let e = s.inflight_entry(&remote).unwrap();
    s.receive2(&ip_from(REMOTE_ADDR), &ack_for(5000, e.local_isn.wrapping_add(1))).unwrap();
    assert_eq!(s.inflight_len(), 0);
    assert_eq!(s.ready_len(), 1);
    let r = s.receive2(&ip_from(REMOTE_ADDR), &syn(5001));
    assert_eq!(r, Err(Fail::ConnectionRefused));
    assert_eq!(s.inflight_len(), 0);
    assert_eq!(s.ready_len(), 1);
}

#[test]
fn invalid_flags_are_malformed() {
    let mut s = socket(4);
    let cases = [header(5000, true, true, false), header(5000, true, false, true), header(5000, false, false, false)];
    for h in cases.iter() {
        let r = s.receive2(&ip_from(REMOTE_ADDR), h);
        assert_eq!(r, Err(Fail::Malformed { details: Malformed::InvalidFlags }));
    }
    assert_eq!(s.inflight_len(), 0);
}

#[test]
fn segment_for_waiting_connection_is_ignored() {
    let mut s = socket(4);
    let remote = Endpoint::new(REMOTE_ADDR, 5000);
    s.receive2(&ip_from(REMOTE_ADDR), &syn(5000)).unwrap();
    let e = s.inflight_entry(&remote).unwrap();
    let confirm = ack_for(5000, e.local_isn.wrapping_add(1));
    s.receive2(&ip_from(REMOTE_ADDR), &confirm).unwrap();
    assert_eq!(s.receive2(&ip_from(REMOTE_ADDR), &confirm), Ok(None));
    assert_eq!(s.receive2(&ip_from(REMOTE_ADDR), &syn(5000)), Ok(None));
    assert_eq!(s.inflight_len(), 0);
    assert_eq!(s.ready_len(), 1);
}

#[test]
fn unresolved_attempt_times_out_once() {
    let mut s = socket(4);
    let remote = Endpoint::new(REMOTE_ADDR, 5000);
    let start = s.receive2(&ip_from(REMOTE_ADDR), &syn(5000)).unwrap().unwrap();
    let a = s.on_retry_event(remote, start.task, RetryEvent::Started);
    assert!(matches!(a, RetryAction::Resolve { addr: REMOTE_ADDR }));
    let a = s.on_retry_event(remote, start.task, RetryEvent::ResolveFailed);
    assert!(matches!(a, RetryAction::Resolve { addr: REMOTE_ADDR }));
    let a = s.on_retry_event(remote, start.task, RetryEvent::ResolveFailed);
    assert!(matches!(a, RetryAction::Resolve { addr: REMOTE_ADDR }));
    assert_eq!(s.ready_len(), 0);
    let a = s.on_retry_event(remote, start.task, RetryEvent::ResolveFailed);
    assert!(matches!(a, RetryAction::GiveUp));
    assert_eq!(s.ready_len(), 1);
    let a = s.on_retry_event(remote, start.task, RetryEvent::ResolveFailed);
    assert!(matches!(a, RetryAction::Idle));
    assert_eq!(s.ready_len(), 1);
    assert_eq!(s.poll_accept(), Poll::Ready(Err(Fail::Timeout)));
    assert_eq!(s.poll_accept(), Poll::Pending);
    // the attempt stays recorded after it gave up
    assert_eq!(s.inflight_len(), 1);
}

#[test]
fn resolved_attempt_sends_syn_ack() {
    let mut s = socket(4);
    let remote = Endpoint::new(REMOTE_ADDR, 5000);
    let start = s.receive2(&ip_from(REMOTE_ADDR), &syn(5000)).unwrap().unwrap();
    let isn = s.inflight_entry(&remote).unwrap().local_isn;
    let a = s.on_retry_event(remote, start.task, RetryEvent::Resolved { link_addr: REMOTE_LINK });
    match a {
        RetryAction::TransmitThenWait { segment, timeout_secs } => {
            assert_eq!(timeout_secs, 5);
            assert_eq!(segment.dst_link, REMOTE_LINK);
            assert_eq!(segment.src_link, LOCAL_LINK);
            assert_eq!(segment.src_addr, LOCAL_ADDR);
            assert_eq!(segment.dst_addr, REMOTE_ADDR);
            assert_eq!(segment.src_port, 80);
            assert_eq!(segment.dst_port, 5000);
            assert_eq!(segment.seq_num, isn);
            assert_eq!(segment.ack_num, 1001);
            assert!(segment.syn && segment.ack);
            assert_eq!(segment.window_size, 1024);
            assert_eq!(segment.data.len(), 0);
        },
        other => panic!("expected a SYN-ACK, got {:?}", other),
    }
    let a = s.on_retry_event(remote, start.task, RetryEvent::TimerExpired);
    assert!(matches!(a, RetryAction::Resolve { addr: REMOTE_ADDR }));
    assert_eq!(s.inflight_entry(&remote).unwrap().retry.rounds, 1);
}

#[test]
fn confirmed_attempt_cancels_its_task() {
    let mut s = socket(4);
    let remote = Endpoint::new(REMOTE_ADDR, 5000);
    let start = s.receive2(&ip_from(REMOTE_ADDR), &syn(5000)).unwrap().unwrap();
    let isn = s.inflight_entry(&remote).unwrap().local_isn;
    s.receive2(&ip_from(REMOTE_ADDR), &ack_for(5000, isn.wrapping_add(1))).unwrap();
    let a = s.on_retry_event(remote, start.task, RetryEvent::TimerExpired);
    assert!(matches!(a, RetryAction::Cancelled));
    assert_eq!(s.ready_len(), 1);
}

#[test]
fn stale_task_id_is_cancelled() {
    let mut s = socket(4);
    let remote = Endpoint::new(REMOTE_ADDR, 5000);
    let start = s.receive2(&ip_from(REMOTE_ADDR), &syn(5000)).unwrap().unwrap();
    let a = s.on_retry_event(remote, start.task + 7, RetryEvent::ResolveFailed);
    assert!(matches!(a, RetryAction::Cancelled));
    assert_eq!(s.inflight_entry(&remote).unwrap().retry.rounds, 0);
}

#[test]
fn window_scale_three_gives_eight_hundred() {
    assert_eq!(scaled_window(100, 3), 800);
    let mut s = socket(4);
    let mut h = syn(5000);
    h.options = vec![TcpOption::WindowScale(3)];
    s.receive2(&ip_from(REMOTE_ADDR), &h).unwrap();
    let e = s.inflight_entry(&Endpoint::new(REMOTE_ADDR, 5000)).unwrap();
    assert_eq!(e.window_size, 800);
    assert_eq!(e.window_scale, 3);
}

#[test]
fn scaled_window_edges() {
    assert_eq!(scaled_window(0, 200), 0);
    assert_eq!(scaled_window(65535, 0), 65535);
    assert_eq!(scaled_window(65535, 14), 65535 << 14);
    assert_eq!(scaled_window(1, 31), 1 << 31);
}

#[test]
fn last_option_wins() {
    let opts = vec![
        TcpOption::WindowScale(4),
        TcpOption::NoOperation,
        TcpOption::MaximumSegmentSize(1200),
        TcpOption::Timestamp { sender: 1, echo: 0 },
        TcpOption::WindowScale(7),
        TcpOption::SelectiveAcknowledgementPermitted,
    ];
    assert_eq!(negotiate_options(&opts), (7, 1200));
    assert_eq!(negotiate_options(&Vec::new()), (1, FALLBACK_MSS));
}

#[test]
fn end_to_end_handshake() {
    let mut s = socket(1);
    let remote = Endpoint::new(REMOTE_ADDR, 5000);
    let start = s.receive2(&ip_from(REMOTE_ADDR), &syn(5000)).unwrap().unwrap();
    assert_eq!(start.remote, remote);
    assert_eq!(s.inflight_len(), 1);
    assert_eq!(s.ready_len(), 0);
    assert!(matches!(s.on_retry_event(remote, start.task, RetryEvent::Started), RetryAction::Resolve { .. }));
    let a = s.on_retry_event(remote, start.task, RetryEvent::Resolved { link_addr: REMOTE_LINK });
    assert!(matches!(a, RetryAction::TransmitThenWait { .. }));
    let isn = s.inflight_entry(&remote).unwrap().local_isn;
    assert_eq!(s.receive2(&ip_from(REMOTE_ADDR), &ack_for(5000, isn.wrapping_add(1))), Ok(None));
    assert_eq!(s.inflight_len(), 0);
    assert_eq!(s.ready_len(), 1);
    match s.poll_accept() {
        Poll::Ready(Ok(cb)) => assert_eq!(cb.remote, remote),
        other => panic!("expected a connection, got {:?}", other),
    }
    assert_eq!(s.poll_accept(), Poll::Pending);
}

#[test]
fn waiting_consumer_is_woken_once() {
    let mut s = socket(4);
    let remote = Endpoint::new(REMOTE_ADDR, 5000);
    assert_eq!(s.poll_accept(), Poll::Pending);
    assert!(!s.take_wake());
    s.receive2(&ip_from(REMOTE_ADDR), &syn(5000)).unwrap();
    assert!(!s.take_wake());
    let isn = s.inflight_entry(&remote).unwrap().local_isn;
    s.receive2(&ip_from(REMOTE_ADDR), &ack_for(5000, isn.wrapping_add(1))).unwrap();
    assert!(s.take_wake());
    assert!(!s.take_wake());
}

#[test]
fn sequence_successor_wraps() {
    assert_eq!(seq_successor(u32::MAX), 0);
    assert_eq!(seq_successor(41), 42);
}

#[test]
fn isn_generator_is_keyed_and_counts() {
    let a = Endpoint::new(LOCAL_ADDR, 80);
    let b = Endpoint::new(REMOTE_ADDR, 5000);
    let c = Endpoint::new(REMOTE_ADDR, 5001);
    let mut g1 = IsnGenerator::new(99);
    let mut g2 = IsnGenerator::new(99);
    let x = g1.generate(&a, &b);
    assert_eq!(x, g2.generate(&a, &b));
    assert_eq!(g1.counter, 1);
    let y = g1.generate(&a, &b);
    assert_eq!(y, x.wrapping_add(1));
    let mut g3 = IsnGenerator::new(99);
    assert_ne!(g3.generate(&a, &c), x);
    let mut g4 = IsnGenerator::new(100);
    assert_ne!(g4.generate(&a, &b), x);
}

#[test]
fn retry_schedule_alone() {
    let local = Endpoint::new(LOCAL_ADDR, 80);
    let remote = Endpoint::new(REMOTE_ADDR, 5000);
    let mut r = HandshakeRetry::new(7, u32::MAX, local, remote);
    assert!(matches!(r.step(RetryEvent::TimerExpired, LOCAL_LINK), RetryAction::Idle));
    match r.step(RetryEvent::Resolved { link_addr: REMOTE_LINK }, LOCAL_LINK) {
        RetryAction::TransmitThenWait { segment, .. } => {
            assert_eq!(segment.seq_num, 7);
            assert_eq!(segment.ack_num, 0);
        },
        other => panic!("expected a SYN-ACK, got {:?}", other),
    }
    assert_eq!(r.phase, RetryPhase::Waiting);
    assert!(matches!(r.step(RetryEvent::TimerExpired, LOCAL_LINK), RetryAction::Resolve { .. }));
    assert!(matches!(r.step(RetryEvent::ResolveFailed, LOCAL_LINK), RetryAction::Resolve { .. }));
    assert!(matches!(r.step(RetryEvent::ResolveFailed, LOCAL_LINK), RetryAction::GiveUp));
    assert!(matches!(r.step(RetryEvent::Started, LOCAL_LINK), RetryAction::Idle));
    assert_eq!(r.phase, RetryPhase::Finished);
    assert_eq!(r.rounds, 3);
}
