use x4_carrier_native::transport_types::{
    close_decision, peer_receive_check, peer_send_check, select_control, send_precheck, validate,
    CloseProgress, ControlSelection, SecurityControl, SecurityEvidence, TransportConfig,
    TransportError, TransportSendOutcome, WorkerSnapshot,
};
use x4_carrier_native::transport_worker::{
    Completion, ConnectStart, ConnectionState, WorkerState, WriteProgress, WriteSource,
};
use x4_carrier_native::HandleToken;

const OWNER: HandleToken = HandleToken { generation: 4, slot: 1 };
const OTHER: HandleToken = HandleToken { generation: 3, slot: 1 };

fn connected() -> WorkerState {
    WorkerState::initial(ConnectStart::Connected)
}

#[test]
fn configurations_need_a_name_and_positive_ceilings() {
    let config = TransportConfig {
        pipe_name: "\\\\.\\pipe\\live_galaxy".to_owned(),
        max_data_message_bytes: 2_048,
        max_control_message_bytes: 512,
    };
    assert_eq!(validate(&config), Ok(()));
    let mut unnamed = config.clone();
    unnamed.pipe_name = String::new();
    assert_eq!(validate(&unnamed), Err(TransportError::InvalidConfig));
    let mut no_control = config;
    no_control.max_control_message_bytes = 0;
    assert_eq!(validate(&no_control), Err(TransportError::InvalidConfig));
}

#[test]
fn sends_are_checked_before_the_slot_is_claimed() {
    assert_eq!(
        send_precheck(OWNER, OTHER, 1, 10, false),
        Some(TransportSendOutcome::Rejected(TransportError::StaleGeneration))
    );
    assert_eq!(
        send_precheck(OWNER, OWNER, 11, 10, false),
        Some(TransportSendOutcome::Rejected(TransportError::MessageTooLarge))
    );
    assert_eq!(send_precheck(OWNER, OWNER, 10, 10, true), Some(TransportSendOutcome::CapacityUnavailable));
    assert_eq!(send_precheck(OWNER, OWNER, 10, 10, false), None);
}

#[test]
fn close_requests_by_owner_and_stranger() {
    assert_eq!(close_decision(OWNER, OTHER, false), CloseProgress::StaleGeneration);
    assert_eq!(close_decision(OWNER, OWNER, false), CloseProgress::Requested);
    assert_eq!(close_decision(OWNER, OWNER, true), CloseProgress::Complete);
}

#[test]
fn control_messages_are_selected_by_generation_then_size() {
    assert_eq!(select_control(1, 4, 2, 8), ControlSelection::Skip);
    assert_eq!(select_control(2, 9, 2, 8), ControlSelection::Retain);
    assert_eq!(select_control(2, 8, 2, 8), ControlSelection::Deliver);
}

#[test]
fn peer_buffers_are_checked_against_the_ceilings() {
    assert_eq!(peer_receive_check(0, 10), Err(TransportError::InvalidConfig));
    assert_eq!(peer_receive_check(11, 10), Err(TransportError::InvalidConfig));
    assert_eq!(peer_receive_check(10, 10), Ok(()));
    assert_eq!(peer_send_check(11, 10), Err(TransportError::MessageTooLarge));
    assert_eq!(peer_send_check(10, 10), Ok(()));
}

#[test]
fn security_evidence_from_probes() {
    let evidence = SecurityEvidence::from_probe(true, true, false);
    assert_eq!(evidence.explicit_descriptor, SecurityControl::Enforced);
    assert_eq!(evidence.current_logon_allowed, SecurityControl::Enforced);
    assert_eq!(evidence.outside_logon_denied, SecurityControl::Missing);
    assert_eq!(evidence.remote_clients_rejected, SecurityControl::Enforced);
    assert_eq!(SecurityEvidence::default().remote_clients_rejected, SecurityControl::Missing);
    assert_eq!(SecurityControl::default(), SecurityControl::Missing);
    assert_eq!(SecurityControl::from(true), SecurityControl::Enforced);
}

#[test]
fn snapshots_report_the_clock_only_while_available() {
    assert_eq!(WorkerSnapshot::observed(true, 3, 2, false, 55, false).monotonic_millis, None);
    assert_eq!(WorkerSnapshot::observed(true, 3, 2, true, 55, false).monotonic_millis, Some(55));
    assert_eq!(WorkerSnapshot::default().connection_generation, 0);
}

#[test]
fn first_accept_decides_the_starting_state() {
    let state = connected();
    assert_eq!(state.connection, ConnectionState::Connected);
    assert!(state.connected);
    assert_eq!(state.generation, 1);
    let state = WorkerState::initial(ConnectStart::Pending);
    assert_eq!(state.connection, ConnectionState::Connecting);
    assert!(state.connect_pending);
    assert_eq!(state.owners(), 1);
    let state = WorkerState::initial(ConnectStart::Failed);
    assert_eq!(state.connection, ConnectionState::Reconnecting);
    assert!(!state.connected);
}

#[test]
fn pending_accept_completes_or_fails() {
    let mut state = WorkerState::initial(ConnectStart::Pending);
    state.advance_connect(Some(Completion::Pending), false);
    assert_eq!(state.connection, ConnectionState::Connecting);
    state.advance_connect(Some(Completion::Complete(0)), false);
    assert_eq!(state.connection, ConnectionState::Connected);
    assert!(state.connected);
    assert_eq!(state.generation, 1);

    let mut state = WorkerState::initial(ConnectStart::Pending);
    state.advance_connect(Some(Completion::Failed), false);
    assert_eq!(state.connection, ConnectionState::Reconnecting);
    assert!(!state.connect_pending);

    let mut closing = WorkerState::initial(ConnectStart::Pending);
    closing.advance_connect(Some(Completion::Cancelled), true);
    assert_eq!(closing.connection, ConnectionState::Connecting);
    assert!(!closing.connect_pending);
}

#[test]
fn close_cancels_once() {
    let mut state = connected();
    assert_eq!(state.closing(false), (false, false));
    assert_eq!(state.closing(true), (true, true));
    assert_eq!(state.closing(true), (true, false));
}

#[test]
fn failed_io_on_a_live_connection_starts_a_new_generation() {
    let mut state = connected();
    assert!(state.polls_write(false));
    assert!(!state.polls_read(false, true));
    assert!(!state.after_io(false, false, false, false));
    assert!(state.after_io(false, true, false, false));
    assert_eq!(state.connection, ConnectionState::Reconnecting);
    assert!(!state.connected);

    let mut forced = connected();
    assert!(!forced.polls_write(true));
    assert!(forced.after_io(true, false, false, false));

    let mut closing = connected();
    assert!(!closing.after_io(true, true, true, true));
    assert_eq!(closing.connection, ConnectionState::Connected);
}

#[test]
fn reads_deliver_the_received_prefix() {
    let mut state = connected();
    assert_eq!(state.progress_read(Completion::Complete(2), b"abc"), (None, false));
    assert!(state.starts_read(false));
    assert!(!state.starts_read(true));
    assert!(!state.started_io(Some(true), None));
    assert!(state.read_pending);
    assert_eq!(state.progress_read(Completion::Pending, b"abc"), (None, false));
    assert_eq!(state.progress_read(Completion::Complete(2), b"abc"), (Some(b"ab".to_vec()), false));
    assert!(!state.read_pending);
    state.started_io(Some(true), None);
    assert_eq!(state.progress_read(Completion::Complete(4), b"abc"), (None, false));
    state.started_io(Some(true), None);
    assert_eq!(state.progress_read(Completion::Failed, b"abc"), (None, true));
}

#[test]
fn short_writes_are_retried_and_full_writes_delivered() {
    let mut state = connected();
    assert_eq!(state.progress_write(Completion::Complete(5), 5), WriteProgress::Idle);
    assert_eq!(state.write_source(true), WriteSource::Retained);
    assert_eq!(state.write_source(false), WriteSource::Queue);
    state.started_io(None, Some(true));
    assert_eq!(state.write_source(false), WriteSource::Busy);
    assert_eq!(state.progress_write(Completion::Pending, 5), WriteProgress::InFlight);
    assert_eq!(state.progress_write(Completion::Complete(3), 5), WriteProgress::Failed);
    assert!(!state.write_pending);
    state.started_io(None, Some(true));
    assert_eq!(state.progress_write(Completion::Complete(5), 5), WriteProgress::Delivered);
    assert!(state.started_io(None, Some(false)));
    assert_eq!(state.connection, ConnectionState::Reconnecting);
}

#[test]
fn reconnect_waits_for_io_then_accepts_under_a_new_generation() {
    let mut state = connected();
    state.started_io(Some(true), Some(true));
    state.enter_reconnect();
    assert!(!state.reconnect_ready(false));
    state.drain_for_reconnect(Completion::Cancelled, Completion::Pending);
    assert!(!state.read_pending);
    assert!(!state.reconnect_ready(false));
    state.drain_for_reconnect(Completion::Pending, Completion::Failed);
    assert!(state.reconnect_ready(false));
    assert!(!state.reconnect_ready(true));
    state.restart(ConnectStart::Failed);
    assert_eq!(state.connection, ConnectionState::Reconnecting);
    state.restart(ConnectStart::Connected);
    assert_eq!(state.connection, ConnectionState::Connected);
    assert_eq!(state.generation, 2);
    let mut pending = connected();
    pending.enter_reconnect();
    pending.restart(ConnectStart::Pending);
    assert_eq!(pending.connection, ConnectionState::Connecting);
    assert!(pending.connect_pending);
}

#[test]
fn the_worker_stops_only_when_idle() {
    let mut state = connected();
    state.started_io(Some(true), None);
    assert_eq!(state.owners(), 1);
    assert!(!state.ready_to_terminate(true));
    state.progress_read(Completion::Cancelled, b"");
    assert!(!state.ready_to_terminate(false));
    assert!(state.ready_to_terminate(true));
    state.terminal();
    assert!(!state.connected);
}
