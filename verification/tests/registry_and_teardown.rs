use x4_carrier_native::abi::{error_code, parse_token, token_text};
use x4_carrier_native::lua_generation::initialize;
use x4_carrier_native::lua_transport::{close_call, error_code_for_transport, teardown, TeardownDecision};
use x4_carrier_native::transport_types::TransportError;
use x4_carrier_native::{
    CarrierError, CarrierLimits, CloseOutcome, ControlPollOutcome, HandleRegistry, HandleToken,
    OpenConfig, SendOutcome,
};

fn limits() -> CarrierLimits {
    CarrierLimits::new(2_048, 512)
}

/// Two handles opened one after the other; the second replaces the first.
fn install_replacement() -> (HandleRegistry, HandleToken, HandleToken) {
    let mut registry = HandleRegistry::new();
    assert_eq!(initialize(&mut registry, Ok(7), false), Ok(()));
    let stale = registry.open(OpenConfig::current(limits())).expect("first handle opens");
    let active = registry.open(OpenConfig::current(limits())).expect("replacement handle opens");
    (registry, stale, active)
}

fn encoded(token: HandleToken) -> Vec<u8> {
    format!("{}:{}", token.generation, token.slot).into_bytes()
}

#[test]
fn stale_and_malformed_teardown_cannot_mutate_replacement_owner() {
    let (mut registry, stale, active) = install_replacement();

    assert_eq!(close_call(&mut registry, &encoded(stale), false, None).0, -16);
    assert_eq!(close_call(&mut registry, &encoded(stale), true, Some(b"operator_reset")).0, -16);
    assert_eq!(close_call(&mut registry, b"malformed", false, None).0, -20);
    assert_eq!(close_call(&mut registry, b"malformed", true, Some(b"operator_reset")).0, -20);
    assert_eq!(close_call(&mut registry, &encoded(active), true, None).0, -20);
    assert_eq!(close_call(&mut registry, &encoded(active), true, Some(b"")).0, -20);
    assert_eq!(close_call(&mut registry, &encoded(active), true, Some(&[b'x'; 65])).0, -20);

    assert!(registry.is_active(active));
    assert_eq!(registry.try_send(active, b"still-owned"), SendOutcome::LocalHandoff);
}

#[test]
fn stale_and_malformed_calls_never_allow_teardown() {
    let (mut registry, stale, active) = install_replacement();
    assert_eq!(close_call(&mut registry, &encoded(stale), false, None), (-16, false));
    assert_eq!(close_call(&mut registry, &encoded(stale), true, Some(b"operator_reset")), (-16, false));
    assert_eq!(close_call(&mut registry, b"malformed", false, None), (-20, false));
    assert_eq!(close_call(&mut registry, b"malformed", true, Some(b"operator_reset")), (-20, false));
    assert_eq!(close_call(&mut registry, &encoded(active), true, None), (-20, false));
    assert_eq!(close_call(&mut registry, &encoded(active), true, Some(&[b'x'; 65])), (-20, false));
    assert!(registry.is_active(active));
    assert_eq!(registry.try_send(active, b"still-owned"), SendOutcome::LocalHandoff);
    assert_eq!(registry.pending_copy(active), Some(b"still-owned".to_vec()));
}

#[test]
fn active_owner_reset_and_close_have_distinct_registry_effects() {
    let (mut registry, _stale, active) = install_replacement();
    assert_eq!(
        close_call(&mut registry, &encoded(active), true, Some(b"operator_reset")),
        (0, true)
    );
    assert!(registry.is_active(active));

    let (mut registry, _stale, active) = install_replacement();
    assert_eq!(close_call(&mut registry, &encoded(active), false, None), (0, true));
    assert!(!registry.is_active(active));
}

#[test]
fn stale_teardown_never_allows_tearing_down_the_owner() {
    let (mut registry, stale, active) = install_replacement();
    assert_eq!(teardown(&mut registry, stale, false), (-16, false));
    assert_eq!(teardown(&mut registry, stale, true), (-16, false));
    assert!(registry.is_active(active));
    assert_eq!(teardown(&mut registry, active, false), (0, true));
    assert_eq!(teardown(&mut registry, active, false), (0, false));
}

#[test]
fn generations_increase_from_the_claimed_start() {
    let (_registry, stale, active) = install_replacement();
    assert_eq!(stale, HandleToken { generation: 7, slot: 1 });
    assert_eq!(active, HandleToken { generation: 8, slot: 1 });
}

#[test]
fn claimed_generation_is_applied_only_once() {
    let mut registry = HandleRegistry::new();
    assert_eq!(initialize(&mut registry, Ok(40), true), Ok(()));
    assert_eq!(registry.open(OpenConfig::current(limits())), Ok(HandleToken { generation: 1, slot: 1 }));
    let mut registry = HandleRegistry::new();
    assert_eq!(initialize(&mut registry, Err(()), false), Err(()));
}

#[test]
fn open_rejects_other_versions_and_record_sizes() {
    let mut registry = HandleRegistry::new();
    let mut config = OpenConfig::current(limits());
    config.abi_version = 1;
    assert_eq!(registry.open(config), Err(CarrierError::WrongVersion));
    let mut config = OpenConfig::current(limits());
    config.record_size = 16;
    assert_eq!(registry.open(config), Err(CarrierError::WrongRecordSize));
    let mut registry = HandleRegistry::starting_at(u32::MAX);
    assert!(registry.open(OpenConfig::current(limits())).is_ok());
    assert_eq!(
        registry.open(OpenConfig::current(limits())),
        Err(CarrierError::GenerationExhausted)
    );
}

#[test]
fn send_then_copy_returns_the_message() {
    let mut registry = HandleRegistry::new();
    let token = registry.open(OpenConfig::current(limits())).unwrap();
    assert_eq!(registry.pending_copy(token), None);
    assert_eq!(registry.try_send(token, b"hello"), SendOutcome::LocalHandoff);
    assert_eq!(registry.pending_copy(token), Some(b"hello".to_vec()));
    assert_eq!(registry.try_send(token, b"again"), SendOutcome::CapacityUnavailable);
    assert_eq!(
        registry.try_send(token, &vec![0u8; 2_049]),
        SendOutcome::Rejected(CarrierError::MessageTooLarge)
    );
    let other = HandleToken { generation: 99, slot: 1 };
    assert_eq!(registry.try_send(other, b"x"), SendOutcome::Rejected(CarrierError::StaleHandle));
}

#[test]
fn queued_control_is_polled_once() {
    let mut registry = HandleRegistry::new();
    let token = registry.open(OpenConfig::current(limits())).unwrap();
    assert_eq!(registry.poll_control(token, 512), ControlPollOutcome::NoMessage);
    assert_eq!(registry.queue_control(token, b"ctl"), Ok(()));
    assert_eq!(
        registry.queue_control(token, b"more"),
        Err(CarrierError::ControlCapacityUnavailable)
    );
    assert_eq!(
        registry.poll_control(token, 2),
        ControlPollOutcome::Rejected(CarrierError::InvalidOutputCapacity)
    );
    assert_eq!(registry.poll_control(token, 3), ControlPollOutcome::Message(b"ctl".to_vec()));
    assert_eq!(registry.poll_control(token, 3), ControlPollOutcome::NoMessage);
    assert_eq!(
        registry.queue_control(token, &vec![1u8; 513]),
        Err(CarrierError::ControlTooLarge)
    );
}

#[test]
fn reset_clears_messages_and_keeps_the_handle() {
    let mut registry = HandleRegistry::new();
    let token = registry.open(OpenConfig::current(limits())).unwrap();
    registry.try_send(token, b"data");
    registry.queue_control(token, b"ctl").unwrap();
    assert_eq!(registry.reset(token), Ok(()));
    assert!(registry.is_active(token));
    assert_eq!(registry.pending_copy(token), None);
    assert_eq!(registry.poll_control(token, 8), ControlPollOutcome::NoMessage);
}

#[test]
fn close_then_close_again() {
    let mut registry = HandleRegistry::new();
    let token = registry.open(OpenConfig::current(limits())).unwrap();
    assert_eq!(registry.close(token), CloseOutcome::Closed);
    assert_eq!(registry.close(token), CloseOutcome::AlreadyClosed);
    assert_eq!(registry.reset(token), Err(CarrierError::StaleHandle));
    let other = HandleToken { generation: 5, slot: 1 };
    assert_eq!(registry.close(other), CloseOutcome::Rejected(CarrierError::StaleHandle));
}

#[test]
fn teardown_decisions() {
    assert!(TeardownDecision::from_reset(Ok(())).allows());
    assert!(!TeardownDecision::from_reset(Err(CarrierError::StaleHandle)).allows());
    assert!(TeardownDecision::from_close(CloseOutcome::Closed).allows());
    assert!(!TeardownDecision::from_close(CloseOutcome::AlreadyClosed).allows());
}

#[test]
fn token_text_round_trips() {
    let token = HandleToken { generation: 4_294_967_295, slot: 12 };
    assert_eq!(token_text(token), b"4294967295:12".to_vec());
    assert_eq!(parse_token(&token_text(token)), Some(token));
    assert_eq!(parse_token(b"7:1"), Some(HandleToken { generation: 7, slot: 1 }));
    assert_eq!(parse_token(b"4294967296:1"), None);
    assert_eq!(parse_token(b"7"), None);
    assert_eq!(parse_token(b":1"), None);
    assert_eq!(parse_token(b"7:"), None);
    assert_eq!(parse_token(b"7:1:2"), None);
    assert_eq!(parse_token(b"+7:1"), None);
}

#[test]
fn carrier_and_transport_error_codes() {
    assert_eq!(error_code(CarrierError::WrongVersion), -10);
    assert_eq!(error_code(CarrierError::WrongRecordSize), -11);
    assert_eq!(error_code(CarrierError::MessageTooLarge), -12);
    assert_eq!(error_code(CarrierError::ControlTooLarge), -13);
    assert_eq!(error_code(CarrierError::ControlCapacityUnavailable), -14);
    assert_eq!(error_code(CarrierError::InvalidOutputCapacity), -15);
    assert_eq!(error_code(CarrierError::StaleHandle), -16);
    assert_eq!(error_code(CarrierError::GenerationExhausted), -17);
    assert_eq!(error_code(CarrierError::TransportUnavailable), -18);
    assert_eq!(error_code_for_transport(TransportError::StaleGeneration), -16);
    assert_eq!(error_code_for_transport(TransportError::MessageTooLarge), -12);
    assert_eq!(error_code_for_transport(TransportError::InvalidOutputCapacity), -15);
    assert_eq!(error_code_for_transport(TransportError::PipeCreationFailed), -18);
    assert_eq!(error_code_for_transport(TransportError::InvalidConfig), -18);
}

#[test]
fn the_opened_token_text_closes_its_handle() {
    let mut registry = HandleRegistry::starting_at(12);
    let token = registry.open(OpenConfig::current(limits())).unwrap();
    let text = token_text(token);
    assert_eq!(text, b"12:1".to_vec());
    assert_eq!(close_call(&mut registry, &text, true, Some(b"operator_reset")), (0, true));
    assert!(registry.is_active(token));
    assert_eq!(close_call(&mut registry, &text, false, None), (0, true));
    assert!(!registry.is_active(token));
}
