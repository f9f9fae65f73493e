use concentratord::command::{
    downlink_reply, handle_command, is_stop, stop_received, Command, Dispatch, Reply, Signal,
    COMMAND_TIMEOUT_MS,
};
use concentratord::downlink::{
    handle_downlink, Candidate, ConvertError, DownlinkRequest, FrequencyRange, PhyModulation,
    Span, Timing, TxInfo,
};
use concentratord::jit::{jit_step, JitAction, JitEvent, JitState, JIT_POLL_MS};
use concentratord::packet::{Modulation, ScheduledPacket};
use concentratord::queue::{QueueConfig, TimeQueue};
use concentratord::status::StatusCode;

fn small_queue() -> TimeQueue {
    TimeQueue::new(QueueConfig { capacity: 4, grace: 100, horizon: 1_000_000, guard: 50 })
}

fn beacon_free_packet(id: u32, count_us: u32) -> ScheduledPacket {
    ScheduledPacket {
        downlink_id: id,
        count_us,
        freq_hz: 2_425_000_000,
        bandwidth: 812_000,
        modulation: Modulation::LoRa,
        datarate: 12,
        rf_power: 10,
        rf_chain: 0,
        payload: vec![0xaa],
    }
}

fn one_candidate_request() -> DownlinkRequest {
    DownlinkRequest {
        downlink_id: 3,
        items: vec![Candidate {
            payload: vec![1, 2],
            tx_info: Some(TxInfo {
                frequency: 868_100_000,
                power: 14,
                modulation: Some(PhyModulation::LoRa { bandwidth: 125_000, spreading_factor: 7 }),
                rf_chain: Some(0),
                timing: Some(Timing::Delay(Some(Span { seconds: 0, nanos: 2_000_000 }))),
                context: vec![0, 0, 0x0b, 0xb8],
            }),
        }],
    }
}

#[test]
fn poll_bounds() {
    assert_eq!(JIT_POLL_MS, 10);
    assert_eq!(COMMAND_TIMEOUT_MS, 100);
}

#[test]
fn scheduler_waits_when_nothing_is_due() {
    let mut q = small_queue();
    assert_eq!(
        jit_step(JitState::Running, &mut q, JitEvent::Tick(1_000)),
        (JitState::Running, JitAction::Wait)
    );
    assert_eq!(q.enqueue(1_000, beacon_free_packet(1, 5_000)), Ok(()));
    assert_eq!(
        jit_step(JitState::Running, &mut q, JitEvent::Tick(4_999)),
        (JitState::Running, JitAction::Wait)
    );
    assert_eq!(q.len(), 1);
}

#[test]
fn scheduler_hands_out_the_due_packet() {
    let mut q = small_queue();
    assert_eq!(q.enqueue(1_000, beacon_free_packet(1, 5_000)), Ok(()));
    assert_eq!(
        jit_step(JitState::Running, &mut q, JitEvent::Tick(5_000)),
        (JitState::Running, JitAction::Transmit(beacon_free_packet(1, 5_000)))
    );
    assert_eq!(q.len(), 0);
}

#[test]
fn scheduler_records_a_transmission() {
    let mut q = small_queue();
    assert_eq!(
        jit_step(JitState::Running, &mut q, JitEvent::Sent),
        (JitState::Running, JitAction::Record)
    );
}

#[test]
fn scheduler_stops_on_stop_notification() {
    let mut q = small_queue();
    assert_eq!(q.enqueue(1_000, beacon_free_packet(1, 5_000)), Ok(()));
    assert_eq!(
        jit_step(JitState::Running, &mut q, JitEvent::Stop),
        (JitState::Stopping, JitAction::Exit)
    );
    assert_eq!(q.len(), 1);
}

#[test]
fn stopping_scheduler_does_no_further_work() {
    let mut q = small_queue();
    assert_eq!(q.enqueue(1_000, beacon_free_packet(1, 5_000)), Ok(()));
    assert_eq!(
        jit_step(JitState::Stopping, &mut q, JitEvent::Tick(9_000)),
        (JitState::Stopping, JitAction::Exit)
    );
    assert_eq!(
        jit_step(JitState::Stopping, &mut q, JitEvent::Sent),
        (JitState::Stopping, JitAction::Exit)
    );
    assert_eq!(
        jit_step(JitState::Stopping, &mut q, JitEvent::SendFailed),
        (JitState::Stopping, JitAction::Exit)
    );
    assert_eq!(
        jit_step(JitState::Stopping, &mut q, JitEvent::Stop),
        (JitState::Stopping, JitAction::Exit)
    );
    assert_eq!(q.len(), 1);
}

#[test]
fn failed_transmission_is_not_queued_again() {
    let mut q = small_queue();
    assert_eq!(q.enqueue(1_000, beacon_free_packet(1, 5_000)), Ok(()));
    assert_eq!(q.enqueue(1_000, beacon_free_packet(2, 8_000)), Ok(()));
    let (state, action) = jit_step(JitState::Running, &mut q, JitEvent::Tick(5_000));
    assert_eq!(action, JitAction::Transmit(beacon_free_packet(1, 5_000)));
    let (state, action) = jit_step(state, &mut q, JitEvent::SendFailed);
    assert_eq!((state, action), (JitState::Running, JitAction::Report));
    assert_eq!(q.len(), 1);
    let (state, action) = jit_step(state, &mut q, JitEvent::Tick(5_010));
    assert_eq!((state, action), (JitState::Running, JitAction::Wait));
    let (state, action) = jit_step(state, &mut q, JitEvent::Tick(8_000));
    assert_eq!(state, JitState::Running);
    assert_eq!(action, JitAction::Transmit(beacon_free_packet(2, 8_000)));
    assert_eq!(q.len(), 0);
}

#[test]
fn command_loop_stops_whatever_was_read() {
    let id = [1u8, 2, 3];
    assert_eq!(handle_command::<u8>(true, Command::Timeout, &id), Dispatch::Exit);
    assert_eq!(handle_command::<u8>(true, Command::GatewayId, &id), Dispatch::Exit);
    assert_eq!(handle_command(true, Command::Configuration(5u8), &id), Dispatch::Exit);
    assert_eq!(
        handle_command::<u8>(true, Command::Downlink(one_candidate_request()), &id),
        Dispatch::Exit
    );
    assert_eq!(handle_command::<u8>(true, Command::Malformed, &id), Dispatch::Exit);
    assert_eq!(handle_command::<u8>(true, Command::Unknown, &id), Dispatch::Exit);
}

#[test]
fn timeout_is_passed_over() {
    assert_eq!(handle_command::<u8>(false, Command::Timeout, &[1, 2]), Dispatch::Skip);
}

#[test]
fn gateway_id_query_is_answered_with_the_raw_identifier() {
    let id = [0xde_u8, 0xad, 0xbe, 0xef];
    assert_eq!(
        handle_command::<u8>(false, Command::GatewayId, &id),
        Dispatch::Respond(Reply::GatewayId(vec![0xde, 0xad, 0xbe, 0xef]))
    );
}

#[test]
fn configuration_is_passed_on_as_a_signal() {
    assert_eq!(
        handle_command(false, Command::Configuration(vec![7u8, 8]), &[1]),
        Dispatch::Forward(Signal::Configuration(vec![7u8, 8]), Reply::Empty)
    );
}

#[test]
fn malformed_and_unknown_commands_get_an_empty_reply() {
    assert_eq!(
        handle_command::<u8>(false, Command::Malformed, &[1]),
        Dispatch::Respond(Reply::Empty)
    );
    assert_eq!(
        handle_command::<u8>(false, Command::Unknown, &[1]),
        Dispatch::Respond(Reply::Empty)
    );
}

#[test]
fn downlink_command_is_to_be_validated() {
    assert_eq!(
        handle_command::<u8>(false, Command::Downlink(one_candidate_request()), &[1]),
        Dispatch::Validate(one_candidate_request())
    );
}

#[test]
fn downlink_reply_carries_the_acknowledgment() {
    let mut q = small_queue();
    let radios = vec![FrequencyRange { tx_freq_min: 863_000_000, tx_freq_max: 870_000_000 }];
    let result = handle_downlink(&radios, &[0x0a, 0x0b], &mut q, &one_candidate_request(), 0, 0);
    let (reply, status) = downlink_reply(result);
    assert_eq!(status, Some(StatusCode::Accepted));
    match reply {
        Reply::Ack(ack) => {
            assert_eq!(ack.gateway_id, "0a0b");
            assert_eq!(ack.downlink_id, 3);
            assert_eq!(ack.items, vec![StatusCode::Accepted]);
        }
        other => panic!("unexpected reply {:?}", other),
    }
}

#[test]
fn downlink_reply_is_empty_for_a_failed_request() {
    assert_eq!(downlink_reply(Err(ConvertError::MissingModulation)), (Reply::Empty, None));
}

#[test]
fn request_through_both_loops() {
    let mut q = small_queue();
    let radios = vec![FrequencyRange { tx_freq_min: 863_000_000, tx_freq_max: 870_000_000 }];
    let id = [0x01_u8];
    let request = match handle_command::<u8>(false, Command::Downlink(one_candidate_request()), &id)
    {
        Dispatch::Validate(request) => request,
        other => panic!("unexpected dispatch {:?}", other),
    };
    let result = handle_downlink(&radios, &id, &mut q, &request, 4, 1_000);
    assert_eq!(downlink_reply(result).1, Some(StatusCode::Accepted));
    let (state, action) = jit_step(JitState::Running, &mut q, JitEvent::Tick(4_000));
    assert_eq!((state, action), (JitState::Running, JitAction::Wait));
    let (_, action) = jit_step(state, &mut q, JitEvent::Tick(5_000));
    match action {
        JitAction::Transmit(packet) => {
            assert_eq!(packet.downlink_id, 3);
            assert_eq!(packet.rf_power, 10);
            assert_eq!(packet.payload, vec![1, 2]);
        }
        other => panic!("unexpected action {:?}", other),
    }
}

#[test]
fn only_a_stop_signal_stops() {
    assert!(is_stop(&Signal::<u8>::Stop));
    assert!(!is_stop(&Signal::Configuration(7u8)));
    assert!(!is_stop(&Signal::Configuration(Vec::<u8>::new())));
}

#[test]
fn stop_is_received_only_with_a_stop_signal() {
    assert!(stop_received(Some(Signal::<u8>::Stop)));
    assert!(!stop_received(Some(Signal::Configuration(7u8))));
    assert!(!stop_received(None::<Signal<u8>>));
}

#[test]
fn configuration_on_the_channel_does_not_end_the_loops() {
    let mut q = small_queue();
    assert_eq!(q.enqueue(1_000, beacon_free_packet(1, 5_000)), Ok(()));
    let stopped = stop_received(Some(Signal::Configuration(1u8)));
    assert_eq!(
        handle_command::<u8>(stopped, Command::GatewayId, &[9]),
        Dispatch::Respond(Reply::GatewayId(vec![9]))
    );
    let event = if stopped { JitEvent::Stop } else { JitEvent::Tick(5_000) };
    assert_eq!(
        jit_step(JitState::Running, &mut q, event),
        (JitState::Running, JitAction::Transmit(beacon_free_packet(1, 5_000)))
    );
}
