use x4_carrier_native::lua_generation::initialize;
use x4_carrier_native::lua_input::{clock_begin, finish, BeginFields, FinishFields};
use x4_carrier_native::lua_open::open_source;
use x4_carrier_native::lua_producer_operations::{
    control_code, fail_section_call, poll_code, poll_prepare, progress_step, reason_ok, send_code, ProgressStep,
};
use x4_carrier_native::lua_progress::{error_code, outcome_code, state_name, status_fields};
use x4_carrier_native::producer::{
    disposition, invalid_clock, qualified_empty, CollectionIntent, ControlBody, ControlDecodeError,
    DispositionBody, Producer, SealCall,
};
use x4_carrier_native::producer_types::{
    ProducerAdmissionPolicy, ProducerError, ProducerFeedback, ProducerLimits, ProducerOutcome,
    ProducerProfile, ProducerSource, ProducerState, SectionAvailability, SectionCoverage,
    SectionEvidence, SectionFreshness, SectionQuality, SectionState, SenderEvidence,
    ShipSectionKind, SourceBoundary, SourceConsistency, SourceEpochStatus, TypedFact,
};
use x4_carrier_native::transport_types::{TransportError, TransportPoll, TransportSendOutcome};
use x4_carrier_native::{CarrierLimits, HandleRegistry, OpenConfig};

const CLOCK_KEY: &str = "carrier_b_realtime_sample";

fn seal(call: SealCall) -> Result<Option<Vec<u8>>, ProducerError> {
    match call {
        SealCall::Measure { .. } => Ok(Some(b"batch".to_vec())),
        SealCall::Commit { .. } => Ok(Some(Vec::new())),
        SealCall::Complete => Ok(Some(b"complete".to_vec())),
    }
}

fn source() -> ProducerSource {
    open_source(7, "x4:carrier_b_acceptance".to_owned(), SourceEpochStatus::Unknown, SourceBoundary::RuntimeStart)
}

fn intent(key: &str, kind: Option<ShipSectionKind>, next_revision: u64) -> ControlBody {
    ControlBody::CollectionIntent(CollectionIntent {
        section_key: key.to_owned(),
        ship_kind: kind,
        next_revision,
        max_records: 1,
        max_raw_bytes: 96,
        max_work: 1,
    })
}

fn verdict(message_id: &str, key: &str, revision: u64, text: &str) -> ControlBody {
    ControlBody::Disposition(DispositionBody {
        message_id: message_id.to_owned(),
        section_key: key.to_owned(),
        section_revision: revision,
        message_digest: "ab01".to_owned(),
        disposition: text.to_owned(),
    })
}

fn clock_fields() -> BeginFields {
    BeginFields {
        section_key: CLOCK_KEY.to_owned(),
        expected_records: 1,
        capture_start_millis: "100".to_owned(),
        capture_clock: "game_time_millis".to_owned(),
        quality: "unknown".to_owned(),
        availability: "available".to_owned(),
        coverage: "point_measurement".to_owned(),
        consistency: "unknown".to_owned(),
        stable_identity: false,
        source_epoch_status: "unknown".to_owned(),
        source_boundary: "runtime_start".to_owned(),
    }
}

fn clock_fact() -> TypedFact {
    TypedFact {
        entity_id: "x4:runtime:realtime_clock".to_owned(),
        observation_version: 1,
        getter: "GetCurRealTime".to_owned(),
        semantics: "opaque_runtime_number".to_owned(),
        raw_value: "12.5".to_owned(),
    }
}

/// A producer past its handshake, asked for the clock section at revision 3.
fn ready_producer() -> Producer {
    let mut producer =
        Producer::new(ProducerLimits::bring_up(), source(), 0, Ok(b"handshake".to_vec())).unwrap();
    assert_eq!(producer.pending_bytes(), Some(&b"handshake"[..]));
    assert_eq!(producer.mark_local_handoff(0), Ok(()));
    assert_eq!(producer.pending_bytes(), None);
    assert_eq!(
        producer.apply_control(Ok(ControlBody::Handshake), &[], 0, &seal),
        Ok(ProducerOutcome::Accepted)
    );
    assert_eq!(producer.state(), ProducerState::Ready);
    assert_eq!(
        producer.apply_control(Ok(intent(CLOCK_KEY, None, 3)), &[], 0, &seal),
        Ok(ProducerOutcome::Accepted)
    );
    assert!(!producer.collection_admitted());
    assert_eq!(
        producer.apply_control(Ok(ControlBody::Demand { credit: 1 }), &[], 0, &seal),
        Ok(ProducerOutcome::Accepted)
    );
    assert!(producer.collection_admitted());
    producer
}

#[test]
fn core_change_failure_allows_a_fresh_core_intent() {
    let mut registry = HandleRegistry::new();
    assert_eq!(initialize(&mut registry, Ok(11), false), Ok(()));
    let token = registry
        .open(OpenConfig::current(CarrierLimits::new(2_048, 512)))
        .expect("handle opens");
    let source = ProducerSource {
        session_id: "session:core-change".into(),
        producer_incarnation: "producer:core-change".into(),
        transport_epoch: u64::from(token.generation),
        source_scope: "x4:carrier_b_acceptance".into(),
        source_epoch_status: SourceEpochStatus::Unknown,
        source_boundary: SourceBoundary::RuntimeStart,
    };
    let mut producer =
        Producer::new(ProducerLimits::bring_up(), source, 0, Ok(b"handshake".to_vec()))
            .expect("producer starts");
    producer.mark_local_handoff(0).expect("bootstrap handoff");
    producer
        .apply_control(Ok(ControlBody::Handshake), &[], 0, &seal)
        .expect("handshake accepted");
    assert_eq!(fail_section_call(&mut producer, Some(b"core_changed")), 0);
    assert_eq!(
        producer.apply_control(Ok(intent("ship_core", Some(ShipSectionKind::Core), 1)), &[], 1, &seal),
        Ok(ProducerOutcome::Accepted)
    );
    let _ = registry.close(token);
}

#[test]
fn clock_section_runs_from_intent_to_commit() {
    let mut producer = ready_producer();
    let evidence = clock_begin(&clock_fields(), producer.source()).expect("clock request decodes");
    assert_eq!(producer.begin_section(evidence), Ok(()));
    assert_eq!(producer.state(), ProducerState::SectionReserved);
    assert_eq!(producer.push_record(&clock_fact(), true), Ok(()));
    assert_eq!(producer.state(), ProducerState::Collecting);
    let closing = finish(&FinishFields {
        capture_end_millis: "150".to_owned(),
        success: true,
        quality: "unknown".to_owned(),
        availability: "available".to_owned(),
        coverage: "point_measurement".to_owned(),
        consistency: "unknown".to_owned(),
        stable_identity: false,
    })
    .expect("finish request decodes");
    assert_eq!(producer.finish_section(closing), Ok(()));

    let step = progress_step(&mut producer, 1, Some(200), 0, Err(ProducerError::ControlLimit), Ok(b"start".to_vec()));
    assert_eq!(step, ProgressStep::Send);
    assert_eq!(producer.state(), ProducerState::PendingStart);
    assert_eq!(producer.pending_bytes(), Some(&b"start"[..]));
    assert_eq!(send_code(&mut producer, TransportSendOutcome::LocalHandoff, 200), 1);
    assert_eq!(producer.pending_bytes(), None);

    let start_id = format!("message:start:{CLOCK_KEY}:3");
    assert_eq!(
        producer.apply_control(Ok(verdict(&start_id, CLOCK_KEY, 3, "received")), &[0xab, 0x01], 210, &seal),
        Ok(ProducerOutcome::Received)
    );
    assert_eq!(producer.state(), ProducerState::PendingBatch);
    assert_eq!(producer.pending_bytes(), Some(&b"batch"[..]));
    assert_eq!(send_code(&mut producer, TransportSendOutcome::LocalHandoff, 220), 1);

    assert_eq!(
        producer.apply_control(Ok(verdict("carrier-b:3:7:1", CLOCK_KEY, 3, "received")), &[0xab, 0x01], 230, &seal),
        Ok(ProducerOutcome::Received)
    );
    assert_eq!(producer.state(), ProducerState::PendingCompletion);
    assert_eq!(producer.pending_bytes(), Some(&b"complete"[..]));
    assert_eq!(send_code(&mut producer, TransportSendOutcome::LocalHandoff, 240), 1);

    let complete_id = format!("message:complete:{CLOCK_KEY}:3");
    assert_eq!(
        producer.apply_control(Ok(verdict(&complete_id, CLOCK_KEY, 3, "committed")), &[0xab, 0x01], 250, &seal),
        Ok(ProducerOutcome::Committed)
    );
    assert_eq!(producer.state(), ProducerState::Ready);
    assert_eq!(producer.collection_revision(), 4);
}

#[test]
fn a_section_waits_for_the_bridge_demand() {
    let mut producer =
        Producer::new(ProducerLimits::bring_up(), source(), 0, Ok(b"handshake".to_vec())).unwrap();
    producer.mark_local_handoff(0).unwrap();
    producer.apply_control(Ok(ControlBody::Handshake), &[], 0, &seal).unwrap();
    producer.apply_control(Ok(intent(CLOCK_KEY, None, 3)), &[], 0, &seal).unwrap();
    let evidence = clock_begin(&clock_fields(), producer.source()).unwrap();
    assert_eq!(producer.begin_section(evidence), Err(ProducerError::InvalidTransition));
    assert_eq!(producer.state(), ProducerState::Ready);
    assert_eq!(
        producer.apply_control(Ok(ControlBody::Demand { credit: 2 }), &[], 0, &seal),
        Err(ProducerError::InvalidTransition)
    );
}

#[test]
fn wrong_digest_or_identity_is_refused() {
    let mut producer = ready_producer();
    let evidence = clock_begin(&clock_fields(), producer.source()).unwrap();
    producer.begin_section(evidence).unwrap();
    producer.push_record(&clock_fact(), true).unwrap();
    assert_eq!(
        producer.apply_control(Ok(ControlBody::Demand { credit: 1 }), &[], 0, &seal),
        Err(ProducerError::InvalidTransition)
    );
    let start_id = format!("message:start:{CLOCK_KEY}:3");
    assert_eq!(
        producer.apply_control(Ok(verdict(&start_id, CLOCK_KEY, 3, "received")), &[0xab, 0x01], 0, &seal),
        Err(ProducerError::InvalidTransition)
    );
    assert_eq!(
        producer.apply_control(Err(ControlDecodeError::StaleEpoch), &[], 0, &seal),
        Err(ProducerError::StaleEpoch)
    );
    assert_eq!(
        producer.apply_control(Err(ControlDecodeError::RestartRequired), &[], 0, &seal),
        Err(ProducerError::Incompatible)
    );
    assert_eq!(
        producer.apply_control(Err(ControlDecodeError::Malformed), &[], 0, &seal),
        Err(ProducerError::InvalidInput)
    );
}

#[test]
fn capacity_verdict_retries_once_then_pauses() {
    let mut producer = ready_producer();
    let evidence = clock_begin(&clock_fields(), producer.source()).unwrap();
    producer.begin_section(evidence).unwrap();
    producer.push_record(&clock_fact(), true).unwrap();
    let closing = finish(&FinishFields {
        capture_end_millis: "150".to_owned(),
        success: true,
        quality: "unknown".to_owned(),
        availability: "available".to_owned(),
        coverage: "point_measurement".to_owned(),
        consistency: "unknown".to_owned(),
        stable_identity: false,
    })
    .unwrap();
    producer.finish_section(closing).unwrap();
    assert_eq!(
        progress_step(&mut producer, 1, Some(200), 0, Err(ProducerError::ControlLimit), Ok(b"start".to_vec())),
        ProgressStep::Send
    );
    assert_eq!(send_code(&mut producer, TransportSendOutcome::LocalHandoff, 200), 1);
    let start_id = format!("message:start:{CLOCK_KEY}:3");
    let busy = verdict(&start_id, CLOCK_KEY, 3, "capacity_unavailable");
    assert_eq!(
        producer.apply_control(Ok(busy.clone()), &[0xab, 0x01], 300, &seal),
        Ok(ProducerOutcome::CapacityUnavailable)
    );
    assert_eq!(producer.pending_bytes(), Some(&b"start"[..]));
    assert_eq!(send_code(&mut producer, TransportSendOutcome::LocalHandoff, 300), 1);
    assert_eq!(
        producer.apply_control(Ok(busy), &[0xab, 0x01], 400, &seal),
        Ok(ProducerOutcome::PausedAfterFailure)
    );
    assert_eq!(producer.state(), ProducerState::PausedAfterFailure);
}

#[test]
fn progress_with_zero_work_only_reports_status() {
    let mut producer = ready_producer();
    assert_eq!(
        progress_step(&mut producer, 0, Some(5), 9, Err(ProducerError::ControlLimit), Err(ProducerError::DataLimit)),
        ProgressStep::Status(0)
    );
    assert_eq!(
        progress_step(&mut producer, 1, Some(5), 0, Err(ProducerError::ControlLimit), Err(ProducerError::DataLimit)),
        ProgressStep::Status(-21)
    );
}

#[test]
fn a_new_connection_generation_rearms_the_handshake() {
    let mut producer = ready_producer();
    assert_eq!(producer.observe_connection(4, 10, Ok(b"again".to_vec())), Ok(()));
    assert_eq!(producer.state(), ProducerState::Ready);
    assert_eq!(producer.observe_connection(4, 11, Ok(b"again".to_vec())), Ok(()));
    assert_eq!(producer.observe_connection(5, 12, Ok(b"again".to_vec())), Ok(()));
    assert_eq!(producer.state(), ProducerState::AwaitingCompatibility);
    assert_eq!(producer.pending_bytes(), Some(&b"again"[..]));
    assert_eq!(producer.source().transport_epoch, 8);
    assert_eq!(
        progress_step(&mut producer, 1, Some(13), 6, Err(ProducerError::ControlLimit), Err(ProducerError::DataLimit)),
        ProgressStep::Reply(-18)
    );
}

#[test]
fn send_outcomes_map_to_codes() {
    let mut producer = ready_producer();
    assert_eq!(send_code(&mut producer, TransportSendOutcome::CapacityUnavailable, 1), 2);
    assert_eq!(
        send_code(&mut producer, TransportSendOutcome::Rejected(TransportError::MessageTooLarge), 1),
        -12
    );
    assert_eq!(send_code(&mut producer, TransportSendOutcome::LocalHandoff, 1), -21);
}

#[test]
fn control_polls_map_to_codes() {
    assert_eq!(poll_code(&TransportPoll::NoMessage, false), Some(3));
    assert_eq!(poll_code(&TransportPoll::Closed, false), Some(9));
    assert_eq!(poll_code(&TransportPoll::Message(vec![1]), false), None);
    assert_eq!(poll_code(&TransportPoll::Message(vec![1]), true), Some(3));
    assert_eq!(
        poll_code(&TransportPoll::Rejected(TransportError::StaleGeneration), false),
        Some(-16)
    );
    assert_eq!(control_code(Ok(ProducerOutcome::Disconnected)), (9, true));
    assert_eq!(control_code(Ok(ProducerOutcome::Accepted)), (0, false));
    assert_eq!(control_code(Err(ProducerError::Incompatible)), (10, false));
}

#[test]
fn fail_reasons_are_one_to_sixty_four_bytes() {
    assert!(!reason_ok(None));
    assert!(!reason_ok(Some(b"")));
    assert!(reason_ok(Some(b"x")));
    assert!(reason_ok(Some(&[b'x'; 64])));
    assert!(!reason_ok(Some(&[b'x'; 65])));
    let mut producer = ready_producer();
    assert_eq!(fail_section_call(&mut producer, Some(b"")), -20);
    assert_eq!(producer.state(), ProducerState::Ready);
    assert_eq!(fail_section_call(&mut producer, Some(b"stale_parent")), 0);
    assert_eq!(producer.state(), ProducerState::PausedAfterFailure);
}

#[test]
fn producer_codes_and_names() {
    assert_eq!(error_code(ProducerError::DataLimit), -12);
    assert_eq!(error_code(ProducerError::ControlLimit), -13);
    assert_eq!(error_code(ProducerError::StaleEpoch), -16);
    assert_eq!(error_code(ProducerError::Incompatible), 10);
    assert_eq!(error_code(ProducerError::ClockUnavailable), -22);
    assert_eq!(error_code(ProducerError::InvalidInput), -20);
    assert_eq!(error_code(ProducerError::InvalidTransition), -21);
    assert_eq!(outcome_code(ProducerOutcome::Accepted), 0);
    assert_eq!(outcome_code(ProducerOutcome::Committed), 5);
    assert_eq!(outcome_code(ProducerOutcome::RestartRequired), 10);
    assert_eq!(state_name(ProducerState::PendingCompletion), "pending_completion");
    assert_eq!(state_name(ProducerState::AwaitingCompatibility), "awaiting_compatibility");
}

#[test]
fn status_fields_report_state_connection_clock_capacity_and_incarnation() {
    let mut producer =
        Producer::new(ProducerLimits::bring_up(), source(), 100, Ok(b"handshake".to_vec())).unwrap();
    assert_eq!(producer.mark_local_handoff(100), Ok(()));
    let fields = status_fields(&producer, false, true, 1_234, 2);
    assert_eq!(fields.len(), 8);
    assert_eq!(fields[0], state_name(producer.state()).as_bytes().to_vec());
    assert_eq!(fields[1], b"closed".to_vec());
    assert_eq!(fields[2], b"1234".to_vec());
    assert_eq!(fields[3], b"occupied:2".to_vec());
    assert_eq!(fields[4], b"x4-producer-7".to_vec());
    assert_eq!(fields[5..].to_vec(), vec![b"none".to_vec(), b"1".to_vec(), b"1".to_vec()]);
    let fields = status_fields(&producer, true, true, 0, 0);
    assert_eq!(fields[1], b"connected".to_vec());
    assert_eq!(status_fields(&producer, false, false, 9, 1)[1], b"waiting".to_vec());
}

#[test]
fn status_fields_name_the_selected_section_once_ready() {
    let producer = ready_producer();
    let fields = status_fields(&producer, true, false, 5, 0);
    assert_eq!(fields[0], b"ready".to_vec());
    assert_eq!(fields[3], b"available:0".to_vec());
    assert_eq!(fields[5], CLOCK_KEY.as_bytes().to_vec());
    assert_eq!(fields[6], b"1".to_vec());
    assert_eq!(fields[7], b"3".to_vec());
}

#[test]
fn progress_and_poll_without_a_clock_change_nothing() {
    let mut producer = ready_producer();
    let state = producer.state();
    assert_eq!(
        progress_step(&mut producer, 1, None, 9, Err(ProducerError::ControlLimit), Ok(b"start".to_vec())),
        ProgressStep::Reply(-22)
    );
    assert_eq!(producer.state(), state);
    assert_eq!(producer.pending_bytes(), None);
    assert_eq!(poll_prepare(&mut producer, None, 9, Ok(b"handshake".to_vec())), Some(-22));
    assert_eq!(producer.state(), state);
    assert_eq!(producer.pending_bytes(), None);
    assert_eq!(poll_prepare(&mut producer, Some(7), 0, Ok(b"handshake".to_vec())), None);
    assert_eq!(producer.state(), state);
}

#[test]
fn dispositions_are_read_by_name() {
    assert_eq!(disposition("committed"), Ok(ProducerFeedback::Committed));
    assert_eq!(disposition("ambiguous_commit"), Ok(ProducerFeedback::Ambiguous));
    assert_eq!(disposition("timed_out_or_superseded"), Ok(ProducerFeedback::TimedOutOrSuperseded));
    assert_eq!(disposition("Committed"), Err(ProducerError::InvalidInput));
}

#[test]
fn clock_facts_must_be_the_one_finite_realtime_sample() {
    assert!(!invalid_clock(&clock_fact(), 96, true));
    assert!(invalid_clock(&clock_fact(), 96, false));
    assert!(invalid_clock(&clock_fact(), 3, true));
    let mut other = clock_fact();
    other.getter = "GetCurTime".to_owned();
    assert!(invalid_clock(&other, 96, true));
    let mut empty = clock_fact();
    empty.raw_value = String::new();
    assert!(invalid_clock(&empty, 96, true));
}

#[test]
fn empty_sections_need_known_empty_coverage_and_a_mechanism() {
    let state = SectionState {
        capture_start_millis: 1,
        capture_end_millis: 1,
        freshness: SectionFreshness::Fresh,
        quality: SectionQuality::Unknown,
        availability: SectionAvailability::Available,
        coverage: SectionCoverage::KnownEmpty,
    };
    let mut evidence = SectionEvidence {
        source_scope: "x4:scope".to_owned(),
        sender: SenderEvidence {
            section_state: state,
            source_epoch_status: SourceEpochStatus::Unknown,
            source_boundary: SourceBoundary::RuntimeStart,
            source_consistency: SourceConsistency::Barrier,
            stable_identity: true,
        },
    };
    assert!(qualified_empty(&evidence));
    evidence.sender.source_consistency = SourceConsistency::ObservedCountFillOnly;
    assert!(!qualified_empty(&evidence));
}

#[test]
fn limits_and_profiles() {
    let limits = ProducerLimits::bring_up();
    assert!(limits.valid());
    let mut bad = limits;
    bad.max_work = 0;
    assert!(!bad.valid());
    assert_eq!(
        Producer::new(bad, source(), 0, Ok(Vec::new())).err(),
        Some(ProducerError::InvalidInput)
    );
    assert_eq!(ProducerProfile::from_section_key("faction_census", None), Some(ProducerProfile::FactionCensus));
    assert_eq!(ProducerProfile::from_section_key(CLOCK_KEY, None), Some(ProducerProfile::Clock));
    assert_eq!(
        ProducerProfile::from_section_key("ship_crew:g1", Some(ShipSectionKind::Crew)),
        Some(ProducerProfile::ShipCrew)
    );
    assert_eq!(ProducerProfile::from_section_key("elsewhere", None), None);
    let mut producer = ready_producer();
    let policy = ProducerAdmissionPolicy { max_inner_records: 1, max_attempts: 1, max_age_millis: 10 };
    assert_eq!(producer.configure_admission(policy), Ok(()));
    assert_eq!(producer.inner_limit(), 1);
    let wide = ProducerAdmissionPolicy { max_inner_records: 2, max_attempts: 1, max_age_millis: 10 };
    assert_eq!(producer.configure_admission(wide), Err(ProducerError::InvalidInput));
}

#[test]
fn open_source_names_session_and_incarnation_after_the_generation() {
    let source = source();
    assert_eq!(source.session_id, "x4-session-7");
    assert_eq!(source.producer_incarnation, "x4-producer-7");
    assert_eq!(source.transport_epoch, 7);
}

fn pairs(call: SealCall) -> Result<Option<Vec<u8>>, ProducerError> {
    match call {
        SealCall::Measure { count, ordinal, first_record_ordinal } => Ok((count <= 2)
            .then(|| format!("batch{ordinal}:{first_record_ordinal}:{count}").into_bytes())),
        SealCall::Commit { .. } => Ok(Some(Vec::new())),
        SealCall::Complete => Ok(Some(b"complete".to_vec())),
    }
}

#[test]
fn ship_records_are_sealed_into_the_largest_batches_that_fit() {
    let limits = ProducerLimits {
        data_message_bytes: 2_048,
        control_message_bytes: 512,
        max_records: 4,
        max_raw_bytes: 200,
        max_batches: 4,
        max_work: 1,
        max_retry_age_millis: 5_000,
    };
    let mut producer = Producer::new(limits, source(), 0, Ok(b"handshake".to_vec())).unwrap();
    producer.mark_local_handoff(0).unwrap();
    producer.apply_control(Ok(ControlBody::Handshake), &[], 0, &pairs).unwrap();
    let ship_intent = ControlBody::CollectionIntent(CollectionIntent {
        section_key: "ship_core".to_owned(),
        ship_kind: Some(ShipSectionKind::Core),
        next_revision: 2,
        max_records: 4,
        max_raw_bytes: 200,
        max_work: 1,
    });
    assert_eq!(producer.apply_control(Ok(ship_intent), &[], 0, &pairs), Ok(ProducerOutcome::Accepted));
    producer.apply_control(Ok(ControlBody::Demand { credit: 1 }), &[], 0, &pairs).unwrap();
    let fields = BeginFields {
        section_key: "ship_core".to_owned(),
        expected_records: 3,
        capture_start_millis: "10".to_owned(),
        capture_clock: "game_time_millis".to_owned(),
        quality: "unknown".to_owned(),
        availability: "available".to_owned(),
        coverage: "partial".to_owned(),
        consistency: "observed_count_fill_only".to_owned(),
        stable_identity: true,
        source_epoch_status: "unknown".to_owned(),
        source_boundary: "runtime_start".to_owned(),
    };
    let evidence = match x4_carrier_native::lua_input::ship_begin(&fields, producer.source(), true, None) {
        Some(x4_carrier_native::lua_input::BeginInput::ShipCore { evidence, .. }) => evidence,
        other => panic!("unexpected {other:?}"),
    };
    assert_eq!(producer.begin_ship_section(evidence, 3), Ok(()));
    for identity in ["101", "102", "103"] {
        let record = x4_carrier_native::producer_types::ShipCoreRecord {
            source_scope: "x4:carrier_b_acceptance".to_owned(),
            identity: identity.to_owned(),
            owner: "argon".to_owned(),
            ship_type: "ship_arg_s_fighter_01_a_macro".to_owned(),
            class: "fighter".to_owned(),
            location: "sector:argon_prime".to_owned(),
        };
        assert_eq!(producer.push_ship_core(&record), Ok(()));
    }
    assert_eq!(producer.collected_records().len(), 3);
    assert_eq!(producer.collected_records()[0].entity_id, b"x4:ship:101".to_vec());
    let closing = finish(&FinishFields {
        capture_end_millis: "20".to_owned(),
        success: true,
        quality: "unknown".to_owned(),
        availability: "available".to_owned(),
        coverage: "partial".to_owned(),
        consistency: "observed_count_fill_only".to_owned(),
        stable_identity: true,
    })
    .unwrap();
    assert_eq!(producer.finish_section(closing), Ok(()));
    assert_eq!(
        progress_step(&mut producer, 1, Some(30), 0, Err(ProducerError::ControlLimit), Ok(b"start".to_vec())),
        ProgressStep::Send
    );
    send_code(&mut producer, TransportSendOutcome::LocalHandoff, 30);
    let received = |id: &str| verdict(id, "ship_core", 2, "received");
    assert_eq!(
        producer.apply_control(Ok(received("message:start:ship_core:2")), &[0xab, 0x01], 31, &pairs),
        Ok(ProducerOutcome::Received)
    );
    assert_eq!(producer.pending_bytes(), Some(&b"batch1:1:2"[..]));
    assert_eq!(producer.collected_records().len(), 1);
    send_code(&mut producer, TransportSendOutcome::LocalHandoff, 32);
    assert_eq!(
        producer.apply_control(Ok(received("carrier-b:2:7:1")), &[0xab, 0x01], 33, &pairs),
        Ok(ProducerOutcome::Received)
    );
    assert_eq!(producer.pending_bytes(), Some(&b"batch2:3:1"[..]));
    send_code(&mut producer, TransportSendOutcome::LocalHandoff, 34);
    assert_eq!(
        producer.apply_control(Ok(received("carrier-b:2:7:2")), &[0xab, 0x01], 35, &pairs),
        Ok(ProducerOutcome::Received)
    );
    assert_eq!(producer.state(), ProducerState::PendingCompletion);
    assert_eq!(producer.pending_bytes(), Some(&b"complete"[..]));
}

#[test]
fn an_open_section_keeps_its_opening_evidence() {
    let mut producer = ready_producer();
    assert!(producer.section_evidence().is_none());
    let evidence = clock_begin(&clock_fields(), producer.source()).expect("clock request decodes");
    assert_eq!(producer.begin_section(evidence.clone()), Ok(()));
    assert_eq!(producer.state(), ProducerState::SectionReserved);
    assert_eq!(producer.section_evidence(), Some(&evidence));
    assert_eq!(producer.push_record(&clock_fact(), true), Ok(()));
    assert_eq!(producer.state(), ProducerState::Collecting);
    assert_eq!(producer.section_evidence(), Some(&evidence));
    producer.fail_section();
    assert!(producer.section_evidence().is_none());
}

#[test]
fn abi_poll_control_retains_control_and_state_while_clock_is_unavailable() {
    let mut producer =
        Producer::new(ProducerLimits::bring_up(), source(), 100, Ok(b"handshake".to_vec())).unwrap();
    assert_eq!(producer.observe_connection(1, 100, Ok(b"handshake".to_vec())), Ok(()));
    assert_eq!(producer.mark_local_handoff(100), Ok(()));
    let state = producer.state();
    let pending = producer.pending_bytes().map(<[u8]>::to_vec);
    let fields = status_fields(&producer, true, false, 100, 0);
    assert_eq!(fields.len() + 1, 9);
    assert_eq!(fields[5..].to_vec(), vec![b"none".to_vec(), b"1".to_vec(), b"1".to_vec()]);
    assert_eq!(poll_prepare(&mut producer, None, 1, Ok(b"handshake".to_vec())), Some(-22));
    assert_eq!(producer.state(), state);
    assert_eq!(producer.pending_bytes().map(<[u8]>::to_vec), pending);
    assert_eq!(poll_prepare(&mut producer, Some(101), 1, Ok(b"handshake".to_vec())), None);
    assert_eq!(producer.state(), state);
    assert_eq!(poll_code(&TransportPoll::Message(b"handshake control".to_vec()), false), None);
    let applied = producer.apply_control(Ok(ControlBody::Handshake), &[], 101, &seal);
    assert_eq!(control_code(applied), (0, false));
    assert_eq!(producer.state(), ProducerState::Ready);
    assert_eq!(poll_prepare(&mut producer, Some(101), 1, Ok(b"handshake".to_vec())), None);
    assert_eq!(poll_code(&TransportPoll::NoMessage, false), Some(3));
}

#[test]
fn a_collection_intent_leaves_the_selected_key_alone() {
    let mut producer =
        Producer::new(ProducerLimits::bring_up(), source(), 0, Ok(b"handshake".to_vec())).unwrap();
    assert_eq!(producer.mark_local_handoff(0), Ok(()));
    assert_eq!(producer.apply_control(Ok(ControlBody::Handshake), &[], 0, &seal), Ok(ProducerOutcome::Accepted));
    assert_eq!(
        producer.apply_control(Ok(intent("ship_core", Some(ShipSectionKind::Core), 2)), &[], 0, &seal),
        Ok(ProducerOutcome::Accepted)
    );
    assert_eq!(producer.apply_control(Ok(ControlBody::Demand { credit: 1 }), &[], 0, &seal), Ok(ProducerOutcome::Accepted));
    assert_eq!(producer.selected_key(), CLOCK_KEY);
    assert_eq!(producer.intent_key(), "ship_core");
    assert_eq!(status_fields(&producer, true, false, 0, 0)[5], CLOCK_KEY.as_bytes().to_vec());
    assert_eq!(producer.selection_status().0, CLOCK_KEY);
}
