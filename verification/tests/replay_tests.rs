use g910_replay::claims::{resolve_interface, TeardownStep};
use g910_replay::color::{Color, FlushPacket};
use g910_replay::replay::{
    classify_exchange, listen_request, plan_submission, plan_transfer, run_stop_policy,
    set_all_colors_plan, set_color_plan, Control, HandshakePhase, LoopAction, PacketInfo,
    ReplayCompare, ReplayError, SendFailure, SendOutcome, StopLoop, StopRule, SubmissionPlan,
    TransferRequest, TransportError,
};
use g910_replay::color::KeyColor;
use g910_replay::keys::KeyType;
use g910_replay::usb::Packet;

fn request_record(
    urb_type: u8,
    transfer_type: u8,
    endpoint_direction: u8,
    payload: &[u8],
) -> Packet {
    Packet {
        id: 1,
        urb_type,
        transfer_type,
        endpoint_direction,
        device: 1,
        bus_id: 1,
        setup_request: 0,
        data_present: if payload.is_empty() { 1 } else { 0 },
        sec: 0,
        usec: 0,
        status: 0,
        length: 8,
        data_length: payload.len() as u32,
        bm_request_type: 0x21,
        b_request: 0x0a,
        descriptor_index: 0x12,
        descriptor_type: 0x02,
        language_id: 0x0001,
        w_length: 5,
        interval: 0,
        start_frame: 0,
        transfer_flags: 0,
        num_iso_desc: 0,
        data: payload.to_vec(),
    }
}

#[test]
fn inbound_control_gets_zeroed_buffer() {
    let req = request_record(0x53, 0x02, 0x80, &[]);
    let (t, info) = plan_transfer(&req).unwrap();
    match t {
        TransferRequest::Control { endpoint_direction, buf, request_type, request, value, index } => {
            assert_eq!(endpoint_direction, 0x80);
            assert_eq!(buf, vec![0u8; 5]);
            assert_eq!(request_type, 0x21);
            assert_eq!(request, 0x0a);
            assert_eq!(value, 0x0212);
            assert_eq!(index, 0x0001);
        },
        _ => panic!("expected a control transfer"),
    }
    assert_eq!(info, PacketInfo { req_len: 5, b_request: 0x0a });
}

#[test]
fn outbound_control_carries_captured_payload() {
    let req = request_record(0x53, 0x02, 0x00, &[9, 8, 7]);
    let (t, info) = plan_transfer(&req).unwrap();
    match t {
        TransferRequest::Control { buf, .. } => assert_eq!(buf, vec![9, 8, 7]),
        _ => panic!("expected a control transfer"),
    }
    assert_eq!(info.req_len, 3);
}

#[test]
fn interrupt_gets_zeroed_buffer_of_captured_length() {
    let req = request_record(0x53, 0x01, 0x82, &[]);
    let (t, info) = plan_transfer(&req).unwrap();
    match t {
        TransferRequest::Interrupt { endpoint_direction, buf } => {
            assert_eq!(endpoint_direction, 0x82);
            assert_eq!(buf, vec![0u8; 8]);
        },
        _ => panic!("expected an interrupt transfer"),
    }
    assert_eq!(info.req_len, 8);
}

#[test]
fn completion_record_is_dropped_not_replayed() {
    let req = request_record(0x43, 0x02, 0x00, &[]);
    assert_eq!(plan_transfer(&req).err().unwrap(), ReplayError::InvalidInput);
    assert!(matches!(plan_submission(&req), SubmissionPlan::Dropped));
    let submit = request_record(0x53, 0x01, 0x82, &[]);
    assert!(matches!(plan_submission(&submit), SubmissionPlan::Transfer { .. }));
}

#[test]
fn classify_correct_and_incorrect() {
    let info = PacketInfo { req_len: 2, b_request: 0x0a };
    let expected = request_record(0x43, 0x02, 0x80, &[1, 2]);
    let r = classify_exchange(
        &Ok(SendOutcome::Success { info }),
        Ok(vec![1, 2]),
        Some(&expected),
    );
    assert_eq!(r.unwrap(), ReplayCompare::Correct(0x0a));
    let r = classify_exchange(
        &Ok(SendOutcome::Success { info }),
        Ok(vec![1, 3]),
        Some(&expected),
    );
    assert_eq!(r.unwrap(), ReplayCompare::Incorrect);
}

#[test]
fn length_mismatch_alone_is_not_incorrect() {
    let info = PacketInfo { req_len: 64, b_request: 0x0a };
    let expected = request_record(0x43, 0x02, 0x80, &[1, 2]);
    let r = classify_exchange(
        &Ok(SendOutcome::Success { info }),
        Ok(vec![1, 2]),
        Some(&expected),
    );
    assert_eq!(r.unwrap(), ReplayCompare::Correct(0x0a));
}

#[test]
fn classify_dropped_and_recv_failure() {
    let r = classify_exchange(&Ok(SendOutcome::Dropped), Ok(vec![]), None);
    assert_eq!(r.unwrap(), ReplayCompare::Dropped);
    let r = classify_exchange(
        &Ok(SendOutcome::Dropped),
        Err(TransportError::Timeout),
        None,
    );
    assert_eq!(r.err().unwrap(), ReplayError::Transport(TransportError::Timeout));
}

#[test]
fn classify_expected_error_by_status() {
    let info = PacketInfo { req_len: 0, b_request: 0x0a };
    let mut expected = request_record(0x43, 0x02, 0x80, &[]);
    expected.status = (-110i32) as u32;
    let failure = SendFailure { info, err: TransportError::Timeout };
    let r = classify_exchange(&Err(failure), Ok(vec![]), Some(&expected));
    assert_eq!(r.unwrap(), ReplayCompare::ErrorExpected(0x0a));
    expected.status = 0;
    let r = classify_exchange(&Err(failure), Ok(vec![]), Some(&expected));
    assert_eq!(r.err().unwrap(), ReplayError::Transport(TransportError::Timeout));
}

#[test]
fn stop_loop_actions() {
    let mut lp = StopLoop::new(StopRule::UntilCorrectCount { request: 0x0a, count: 2 });
    assert_eq!(lp.observe(&Ok(ReplayCompare::Dropped)), LoopAction::Continue);
    assert_eq!(lp.observe(&Ok(ReplayCompare::Incorrect)), LoopAction::AwaitOperator);
    assert_eq!(
        lp.observe(&Err(ReplayError::Transport(TransportError::Pipe))),
        LoopAction::AwaitOperator
    );
    assert_eq!(lp.observe(&Err(ReplayError::InvalidInput)), LoopAction::Abort);
    assert_eq!(lp.observe(&Ok(ReplayCompare::Correct(0x09))), LoopAction::Continue);
    assert_eq!(lp.observe(&Ok(ReplayCompare::Correct(0x0a))), LoopAction::Continue);
    assert_eq!(lp.observe(&Ok(ReplayCompare::Correct(0x0a))), LoopAction::Stop);
}

#[test]
fn handshake_consumes_through_second_signature() {
    let outcomes = vec![
        ReplayCompare::Dropped,
        ReplayCompare::Correct(0x0a),
        ReplayCompare::Correct(0x06),
        ReplayCompare::ErrorExpected(0x06),
        ReplayCompare::Correct(0x0a),
        ReplayCompare::Correct(0x09),
    ];
    let mut engine = Control::new();
    let mut lp = engine.begin_basic_handshake().unwrap();
    let consumed = run_stop_policy(&mut lp, &outcomes);
    assert_eq!(consumed, Some(5));
    assert_eq!(engine.begin_basic_handshake().err().unwrap(), ReplayError::InvalidInput);
}

#[test]
fn replay_without_signature_never_stops() {
    let outcomes = vec![ReplayCompare::Correct(0x0a), ReplayCompare::Dropped];
    let mut lp = Control::handshake_completion_stop();
    assert_eq!(run_stop_policy(&mut lp, &outcomes), None);
    let mut lp = Control::handshake_completion_stop();
    let outcomes = vec![ReplayCompare::Dropped, ReplayCompare::Correct(0x09)];
    assert_eq!(run_stop_policy(&mut lp, &outcomes), Some(2));
}

#[test]
fn replay_all_rule_never_stops() {
    let mut lp = Control::replay_all_stop();
    assert_eq!(lp.observe(&Ok(ReplayCompare::Correct(0x0a))), LoopAction::Continue);
    assert_eq!(lp.observe(&Ok(ReplayCompare::Correct(0x09))), LoopAction::Continue);
    assert_eq!(lp.observe(&Ok(ReplayCompare::Incorrect)), LoopAction::AwaitOperator);
}

#[test]
fn interface_two_is_remapped_to_one() {
    assert_eq!(resolve_interface(2), 1);
    assert_eq!(resolve_interface(0), 0);
    assert_eq!(resolve_interface(1), 1);
    assert_eq!(resolve_interface(3), 3);
    let mut engine = Control::new();
    assert_eq!(engine.plan_claim(2), Some(1));
    engine.record_claim(1, true);
    assert_eq!(engine.plan_claim(2), None);
    assert_eq!(engine.plan_claim(1), None);
    assert_eq!(engine.plan_claim(0), Some(0));
}

#[test]
fn teardown_releases_in_reverse_and_reattaches_detached() {
    let mut engine = Control::new();
    engine.record_claim(0, true);
    engine.record_claim(1, false);
    let plan = engine.teardown_plan();
    assert_eq!(
        plan,
        vec![
            TeardownStep::Release { iface: 1 },
            TeardownStep::Release { iface: 0 },
            TeardownStep::Reattach { iface: 0 },
        ]
    );
}

#[test]
fn listen_request_prearms_secondary_endpoint() {
    match listen_request() {
        TransferRequest::Interrupt { endpoint_direction, buf } => {
            assert_eq!(endpoint_direction, 0x82);
            assert_eq!(buf, vec![0u8; 64]);
        },
        _ => panic!("expected an interrupt transfer"),
    }
}

#[test]
fn set_color_plan_stages_then_flushes() {
    let kc = KeyColor::new(4, Color::new(10, 20, 30));
    let plan = set_color_plan(kc, KeyType::Standard);
    assert_eq!(plan.len(), 4);
    match &plan[1] {
        TransferRequest::Control { buf, request_type, request, value, index, .. } => {
            assert_eq!(*request_type, 0x21);
            assert_eq!(*request, 0x09);
            assert_eq!(*value, 0x0212);
            assert_eq!(*index, 0x0001);
            assert_eq!(buf.len(), 64);
            assert_eq!(&buf[..8], &[0x12, 0xff, 0x0f, 0x3b, 0x00, 0x00, 0x00, 0x01]);
            assert_eq!(&buf[8..12], &[4, 10, 20, 30]);
        },
        _ => panic!("expected a control transfer"),
    }
    match &plan[3] {
        TransferRequest::Control { buf, .. } => {
            assert_eq!(buf, &FlushPacket::new().to_bytes());
        },
        _ => panic!("expected a control transfer"),
    }
}

#[test]
fn all_colors_chunking_and_single_flush() {
    let plan = set_all_colors_plan(Color::new(0, 0x65, 0xbd));
    // 111 standard keys -> 8 packets; 9 gaming keys -> 1 packet.
    assert_eq!(plan.packets.len(), 9);
    for (i, p) in plan.packets.iter().enumerate() {
        assert!(p.len <= 14);
        if i < 7 {
            assert_eq!(p.len, 14);
            assert_eq!(p.key_type, KeyType::Standard);
        }
    }
    assert_eq!(plan.packets[7].len, 13);
    assert_eq!(plan.packets[7].key_type, KeyType::Standard);
    assert_eq!(plan.packets[8].len, 9);
    assert_eq!(plan.packets[8].key_type, KeyType::Gaming);
    for p in plan.packets.iter() {
        for slot in 0..(p.len as usize) {
            assert_ne!(p.colors[slot].key_code, 0);
            assert_eq!(p.colors[slot].color, Color::new(0, 0x65, 0xbd));
        }
    }
    assert_eq!(plan.flush.to_bytes().len(), 20);
}

#[test]
fn handshake_phases_run_in_order() {
    let mut phase = HandshakePhase::BasicHandshake;
    let mut order = vec![phase];
    while phase != HandshakePhase::Done {
        phase = phase.next();
        order.push(phase);
    }
    assert_eq!(
        order,
        vec![
            HandshakePhase::BasicHandshake,
            HandshakePhase::CompareReportDescriptor,
            HandshakePhase::ArmSecondaryListen,
            HandshakePhase::ReplayUntilSetReport,
            HandshakePhase::DrainSecondaryResponse,
            HandshakePhase::Done,
        ]
    );
    let lp = HandshakePhase::BasicHandshake.stop_policy().unwrap();
    assert_eq!(lp.rule, StopRule::UntilCorrectCount { request: 0x0a, count: 2 });
    let lp = HandshakePhase::ReplayUntilSetReport.stop_policy().unwrap();
    assert_eq!(lp.rule, StopRule::UntilCorrectCount { request: 0x09, count: 1 });
    assert!(HandshakePhase::ArmSecondaryListen.stop_policy().is_none());
}

#[test]
fn transport_errors_match_capture_status() {
    assert!(TransportError::Timeout.matches_status((-110i32) as u32));
    assert!(TransportError::Pipe.matches_status((-32i32) as u32));
    assert!(!TransportError::Pipe.matches_status((-110i32) as u32));
}
