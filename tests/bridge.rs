use mcp_server_runner::{
    advance, after_delivery, Flow, egress_step, frame_line, ingress_step, read_step, should_stop, stdin_step,
    AttemptEvent, AttemptPhase, EgressAction, Inbound, IngressAction, LineAction, ProcessManager,
    RuntimeFlags, StdinAction, MESSAGE_BUFFER_SIZE,
};

fn s(x: &str) -> String {
    x.to_string()
}

#[test]
fn stop_at_end_of_stream_or_shutdown() {
    assert!(should_stop(0, false));
    assert!(should_stop(5, true));
    assert!(!should_stop(5, false));
}

#[test]
fn input_pump_frames_each_message() {
    assert_eq!(frame_line(s("hello")), "hello\n");
    assert_eq!(frame_line(s("")), "\n");
    assert_eq!(stdin_step(false, Some(s("{\"id\":1}"))), StdinAction::Write(s("{\"id\":1}\n")));
    assert_eq!(stdin_step(false, None), StdinAction::Stop);
    assert_eq!(stdin_step(true, Some(s("x"))), StdinAction::Stop);
}

#[test]
fn output_pump_trims_lines() {
    assert_eq!(read_step(false, Some(9), "  hi \r\n"), LineAction::Emit(s("  hi")));
    assert_eq!(read_step(false, Some(3), "a b\n"), LineAction::Emit(s("a b")));
    assert_eq!(read_step(false, Some(8), "\u{3000}x\u{a0}\n"), LineAction::Emit(s("\u{3000}x")));
    assert_eq!(read_step(false, Some(2), " x"), LineAction::Emit(s(" x")));
    assert_eq!(read_step(false, Some(1), "\n"), LineAction::Emit(s("")));
}

#[test]
fn output_pump_stops() {
    assert_eq!(read_step(false, Some(0), ""), LineAction::Stop);
    assert_eq!(read_step(false, None, "partial"), LineAction::Stop);
    assert_eq!(read_step(true, Some(4), "abc\n"), LineAction::Stop);
}

#[test]
fn ingress_forwards_text_verbatim() {
    assert_eq!(ingress_step(false, Some(Inbound::Text(s(" a \n")))), IngressAction::Forward(s(" a \n")));
    assert_eq!(ingress_step(false, Some(Inbound::Other)), IngressAction::Skip);
    assert_eq!(ingress_step(false, Some(Inbound::Close)), IngressAction::Stop);
    assert_eq!(ingress_step(false, Some(Inbound::Failed)), IngressAction::Stop);
    assert_eq!(ingress_step(false, None), IngressAction::Stop);
    assert_eq!(ingress_step(true, Some(Inbound::Text(s("a")))), IngressAction::Stop);
}

#[test]
fn egress_sends_each_line() {
    assert_eq!(egress_step(false, Some(s("out"))), EgressAction::Send(s("out")));
    assert_eq!(egress_step(false, None), EgressAction::Stop);
    assert_eq!(egress_step(true, Some(s("out"))), EgressAction::Stop);
}

#[test]
fn echo_round_trip_preserves_messages_in_order() {
    let sent = vec![s("first"), s("{\"jsonrpc\":\"2.0\",\"id\":1}"), s(""), s(" a"), s("\tlast one")];
    let mut received = Vec::new();
    for m in &sent {
        let forwarded = match ingress_step(false, Some(Inbound::Text(m.clone()))) {
            IngressAction::Forward(t) => t,
            other => panic!("{:?}", other),
        };
        let written = match stdin_step(false, Some(forwarded)) {
            StdinAction::Write(w) => w,
            other => panic!("{:?}", other),
        };
        let echoed = match read_step(false, Some(written.len()), &written) {
            LineAction::Emit(l) => l,
            other => panic!("{:?}", other),
        };
        match egress_step(false, Some(echoed)) {
            EgressAction::Send(out) => received.push(out),
            other => panic!("{:?}", other),
        }
    }
    assert_eq!(received, sent);
}

#[test]
fn second_connection_is_rejected_while_occupied() {
    let mut flags = RuntimeFlags::new();
    let mut first = advance(&mut flags, AttemptPhase::Accepted, AttemptEvent::Admit);
    assert_eq!(first, AttemptPhase::Spawning);
    first = advance(&mut flags, first, AttemptEvent::SpawnOk);
    first = advance(&mut flags, first, AttemptEvent::HandshakeOk);
    assert_eq!(first, AttemptPhase::Relaying);
    assert!(flags.connected);
    let second = advance(&mut flags, AttemptPhase::Accepted, AttemptEvent::Admit);
    assert_eq!(second, AttemptPhase::Rejected);
    let second = advance(&mut flags, second, AttemptEvent::HandshakeOk);
    assert_eq!(second, AttemptPhase::Rejected);
    assert_eq!(flags, RuntimeFlags { shutdown: false, connected: true, pending: false });
}

#[test]
fn relay_end_frees_the_slot() {
    let mut flags = RuntimeFlags::new();
    let mut p = AttemptPhase::Accepted;
    for e in [AttemptEvent::Admit, AttemptEvent::SpawnOk, AttemptEvent::HandshakeOk, AttemptEvent::RelayEnded] {
        p = advance(&mut flags, p, e);
    }
    assert_eq!(p, AttemptPhase::Closed);
    assert!(!flags.connected);
    assert_eq!(flags.admission(), AttemptPhase::Spawning);
}

#[test]
fn failed_handshake_leaves_slot_free() {
    let mut flags = RuntimeFlags::new();
    let mut p = AttemptPhase::Accepted;
    for e in [AttemptEvent::Admit, AttemptEvent::SpawnOk, AttemptEvent::HandshakeFailed] {
        p = advance(&mut flags, p, e);
    }
    assert_eq!(p, AttemptPhase::Closed);
    assert!(!flags.connected);
}

#[test]
fn shutdown_stops_accepting_and_every_loop() {
    let mut flags = RuntimeFlags::new();
    flags.initiate_shutdown();
    assert!(flags.shutdown);
    assert_eq!(advance(&mut flags, AttemptPhase::Accepted, AttemptEvent::Admit), AttemptPhase::Stopped);
    flags.occupy();
    flags.release();
    assert!(flags.shutdown);
    assert_eq!(stdin_step(flags.shutdown, Some(s("x"))), StdinAction::Stop);
    assert_eq!(read_step(flags.shutdown, Some(2), "x\n"), LineAction::Stop);
    assert_eq!(ingress_step(flags.shutdown, Some(Inbound::Text(s("x")))), IngressAction::Stop);
    assert_eq!(egress_step(flags.shutdown, Some(s("x"))), EgressAction::Stop);
}

#[test]
fn failed_spawn_rejects_and_keeps_slot_free() {
    let mut flags = RuntimeFlags::new();
    let p = advance(&mut flags, AttemptPhase::Accepted, AttemptEvent::Admit);
    let p = advance(&mut flags, p, AttemptEvent::SpawnFailed);
    assert_eq!(p, AttemptPhase::Rejected);
    let p = advance(&mut flags, p, AttemptEvent::HandshakeOk);
    assert_eq!(p, AttemptPhase::Rejected);
    assert!(!flags.connected);
}

#[test]
fn supervisor_owns_at_most_one_process() {
    let mut pm: ProcessManager<u32> = ProcessManager::new();
    assert!(!pm.is_running());
    assert_eq!(pm.attach(7), None);
    assert!(pm.is_running());
    assert_eq!(pm.attach(8), Some(7));
    assert_eq!(pm.take_child(), Some(8));
    assert_eq!(pm.take_child(), None);
    assert!(!pm.is_running());
}

#[test]
fn bounded_channel_applies_backpressure_after_capacity() {
    let (tx, mut rx) = tokio::sync::mpsc::channel::<String>(MESSAGE_BUFFER_SIZE);
    for i in 0..MESSAGE_BUFFER_SIZE {
        assert!(tx.try_send(format!("{}", i)).is_ok());
    }
    assert!(matches!(
        tx.try_send(s("one too many")),
        Err(tokio::sync::mpsc::error::TrySendError::Full(_))
    ));
    assert_eq!(rx.try_recv().unwrap(), "0");
    assert!(tx.try_send(s("now fits")).is_ok());
}

#[test]
fn second_socket_is_rejected_while_first_is_starting() {
    let mut flags = RuntimeFlags::new();
    let a = advance(&mut flags, AttemptPhase::Accepted, AttemptEvent::Admit);
    assert_eq!(a, AttemptPhase::Spawning);
    assert!(flags.pending && !flags.connected);
    let b = advance(&mut flags, AttemptPhase::Accepted, AttemptEvent::Admit);
    assert_eq!(b, AttemptPhase::Rejected);
    let a = advance(&mut flags, a, AttemptEvent::SpawnOk);
    let b2 = advance(&mut flags, AttemptPhase::Accepted, AttemptEvent::Admit);
    assert_eq!(b2, AttemptPhase::Rejected);
    let a = advance(&mut flags, a, AttemptEvent::HandshakeOk);
    assert_eq!(a, AttemptPhase::Relaying);
    assert_eq!(flags, RuntimeFlags { shutdown: false, connected: true, pending: false });
    advance(&mut flags, a, AttemptEvent::RelayEnded);
    assert_eq!(flags, RuntimeFlags::new());
}

#[test]
fn failed_handshake_drops_reservation() {
    let mut flags = RuntimeFlags::new();
    let a = advance(&mut flags, AttemptPhase::Accepted, AttemptEvent::Admit);
    let a = advance(&mut flags, a, AttemptEvent::SpawnOk);
    assert!(flags.pending);
    let a = advance(&mut flags, a, AttemptEvent::HandshakeFailed);
    assert_eq!(a, AttemptPhase::Closed);
    assert_eq!(flags, RuntimeFlags::new());
    assert_eq!(flags.admission(), AttemptPhase::Spawning);
}

#[test]
fn delivery_failure_or_shutdown_ends_loop() {
    assert_eq!(after_delivery(false, true), Flow::Continue);
    assert_eq!(after_delivery(false, false), Flow::Stop);
    assert_eq!(after_delivery(true, true), Flow::Stop);
    assert_eq!(after_delivery(true, false), Flow::Stop);
}
