use x4_carrier_native::host_tables::{
    begin_fields, begin_table, clock_fact, finish_table, open_tables, record, route, ship_core, BeginTable,
    FactTable, FinishTable, OpenTables, RecordInput, ShipCoreTable, BEGIN_KEYS, FACT_KEYS, FINISH_KEYS, LIMIT_KEYS, SHIP_CORE_KEYS,
    SOURCE_KEYS,
};
use x4_carrier_native::lua_input::{BeginInput, RecordRoute};
use x4_carrier_native::lua_open::{open_finish, open_source};
use x4_carrier_native::producer_types::{SourceBoundary, SourceEpochStatus};
use x4_carrier_native::ship_detail::{
    array_rows, cargo_table, crew_table, loadout_table, CargoStorage, CargoWare, CrewCapacity, CARGO_KEYS,
    CREW_KEYS, LOADOUT_KEYS,
};
use x4_carrier_native::{CarrierLimits, HandleRegistry, OpenConfig};

fn keys(names: &[&str]) -> Vec<Option<Vec<u8>>> {
    names.iter().map(|name| Some(name.as_bytes().to_vec())).collect()
}

fn text(value: &str) -> Option<Vec<u8>> {
    Some(value.as_bytes().to_vec())
}

fn clock_begin_table() -> BeginTable {
    BeginTable {
        keys: keys(&BEGIN_KEYS),
        section_key: text("carrier_b_realtime_sample"),
        expected_records: Some(1),
        capture_start_millis: text("250"),
        capture_clock: text("game_time_millis"),
        quality: text("unknown"),
        availability: text("available"),
        coverage: text("point_measurement"),
        consistency: text("unknown"),
        stable_identity: Some(false),
        source_epoch_status: text("unknown"),
        source_boundary: text("game_loaded"),
    }
}

#[test]
fn begin_tables_need_exactly_their_keys_and_bounded_fields() {
    let table = clock_begin_table();
    let fields = begin_fields(&table).expect("well-formed table");
    assert_eq!(fields.section_key, "carrier_b_realtime_sample");
    assert_eq!(fields.capture_start_millis, "250");
    let source = open_source(3, "x4:scope".to_owned(), SourceEpochStatus::Unknown, SourceBoundary::RuntimeStart);
    match begin_table(&table, "carrier_b_realtime_sample", &source, false, None) {
        Some(BeginInput::Clock(evidence)) => {
            assert_eq!(evidence.source_scope, "x4:scope");
            assert_eq!(evidence.sender.section_state.capture_start_millis, 250);
            assert_eq!(evidence.sender.section_state.capture_end_millis, 250);
        }
        other => panic!("unexpected {other:?}"),
    }
    let mut extra = clock_begin_table();
    extra.keys.push(text("surplus"));
    assert_eq!(begin_fields(&extra), None);
    assert_eq!(begin_table(&extra, "carrier_b_realtime_sample", &source, false, None), None);
    let mut missing = clock_begin_table();
    missing.keys.pop();
    assert_eq!(begin_fields(&missing), None);
    let mut long_key = clock_begin_table();
    long_key.section_key = Some(vec![b'k'; 65]);
    assert_eq!(begin_fields(&long_key), None);
    let mut mistyped = clock_begin_table();
    mistyped.stable_identity = None;
    assert_eq!(begin_fields(&mistyped), None);
}

fn finish_table_value() -> FinishTable {
    FinishTable {
        keys: keys(&FINISH_KEYS),
        capture_end_millis: text("300"),
        success: Some(true),
        quality: text("unknown"),
        availability: text("available"),
        coverage: text("point_measurement"),
        consistency: text("unknown"),
        stable_identity: Some(false),
    }
}

#[test]
fn finish_tables_decode_only_with_exact_keys() {
    let evidence = finish_table(&finish_table_value()).expect("finish evidence");
    assert_eq!(evidence.capture_end_millis, 300);
    assert!(evidence.succeeded);
    let mut extra = finish_table_value();
    extra.keys.push(text("extra"));
    assert_eq!(finish_table(&extra), None);
    let mut long_end = finish_table_value();
    long_end.capture_end_millis = Some(vec![b'1'; 21]);
    assert_eq!(finish_table(&long_end), None);
}

fn fact_table() -> FactTable {
    FactTable {
        keys: keys(&FACT_KEYS),
        entity_id: Some(vec![b'e'; 128]),
        observation_version: Some(4),
        getter: Some(vec![b'g'; 32]),
        raw_value: Some(vec![b'1'; 96]),
        semantics: Some(vec![b's'; 32]),
    }
}

#[test]
fn clock_facts_respect_their_byte_limits() {
    let fact = clock_fact(&fact_table()).expect("fact at its limits");
    assert_eq!(fact.observation_version, 4);
    assert_eq!(fact.entity_id.len(), 128);
    let mut long_entity = fact_table();
    long_entity.entity_id = Some(vec![b'e'; 129]);
    assert_eq!(clock_fact(&long_entity), None);
    let mut long_getter = fact_table();
    long_getter.getter = Some(vec![b'g'; 33]);
    assert_eq!(clock_fact(&long_getter), None);
    let mut long_raw = fact_table();
    long_raw.raw_value = Some(vec![b'1'; 97]);
    assert_eq!(clock_fact(&long_raw), None);
    let mut long_semantics = fact_table();
    long_semantics.semantics = Some(vec![b's'; 33]);
    assert_eq!(clock_fact(&long_semantics), None);
    let mut no_version = fact_table();
    no_version.observation_version = None;
    assert_eq!(clock_fact(&no_version), None);
    let mut extra = fact_table();
    extra.keys.push(text("profile"));
    assert_eq!(clock_fact(&extra), None);
}

fn ship_core_table() -> ShipCoreTable {
    ShipCoreTable {
        keys: keys(&SHIP_CORE_KEYS),
        source_scope: text("x4:faction:argon:ships"),
        identity: text("1234"),
        owner: text("argon"),
        ship_type: text("ship_s"),
        class: text("fighter"),
        location: text("sector"),
        consistency: text("observed"),
        consistency_reason: text("none"),
    }
}

#[test]
fn ship_core_records_need_keys_bounds_and_domain_acceptance() {
    let record = ship_core(&ship_core_table(), true).expect("ship core record");
    assert_eq!(record.identity, "1234");
    assert_eq!(record.source_scope, "x4:faction:argon:ships");
    assert_eq!(ship_core(&ship_core_table(), false), None);
    let mut long_identity = ship_core_table();
    long_identity.identity = Some(vec![b'1'; 33]);
    assert_eq!(ship_core(&long_identity, true), None);
}

#[test]
fn record_routes_read_the_profile_field() {
    assert_eq!(route(text("ship_cargo")), (RecordRoute::ShipCargo, true));
    assert_eq!(route(text("ship_crew")), (RecordRoute::ShipCrew, true));
    assert_eq!(route(text("ship_loadout")), (RecordRoute::ShipLoadout, true));
    assert_eq!(route(text("ship_core")), (RecordRoute::ShipCore, false));
    assert_eq!(route(None), (RecordRoute::Clock, false));
    assert_eq!(route(Some(vec![0xff])), (RecordRoute::Clock, false));
}

fn open_tables_value() -> OpenTables {
    OpenTables {
        limit_keys: keys(&LIMIT_KEYS),
        source_keys: keys(&SOURCE_KEYS),
        heavy_profile_version: None,
        max_inner_records: None,
        data_message_bytes: Some(2_048),
        control_message_bytes: Some(512),
        max_records: Some(4),
        max_content_bytes: Some(96),
        max_canonical_bytes: Some(2_048),
        max_batches: Some(4),
        max_work: Some(1),
        max_age_millis: Some(5_000),
        pending_slots: Some(1),
        max_attempts: Some(2),
        max_retry_age_millis: Some(5_000),
        availability_interval_millis: Some(5_000),
        source_scope: text("x4:carrier_b_acceptance"),
        source_epoch_status: text("unknown"),
        source_boundary: text("runtime_start"),
    }
}

#[test]
fn open_tables_decode_limits_and_source() {
    let args = open_tables(&open_tables_value(), true).expect("supported tables");
    assert_eq!(args.source_scope, "x4:carrier_b_acceptance");
    assert_eq!(args.epoch_status, SourceEpochStatus::Unknown);
    assert_eq!(args.boundary, SourceBoundary::RuntimeStart);
    assert_eq!(args.policy.max_inner_records, 4);
    assert_eq!(args.limits.max_raw_bytes, 96);
    assert_eq!(open_tables(&open_tables_value(), false), None);
    let mut extra = open_tables_value();
    extra.source_keys.push(text("extra"));
    assert_eq!(open_tables(&extra, true), None);
    let mut heavy_without_keys = open_tables_value();
    heavy_without_keys.heavy_profile_version = Some(1);
    assert_eq!(open_tables(&heavy_without_keys, true), None);
    let mut missing = open_tables_value();
    missing.max_work = None;
    assert_eq!(open_tables(&missing, true), None);
}

#[test]
fn a_failed_start_closes_the_new_handle() {
    let mut registry = HandleRegistry::new();
    let config = OpenConfig::current(CarrierLimits::new(2_048, 512));
    let token = registry.open(config).unwrap();
    assert_eq!(open_finish(&mut registry, token, true, true), 0);
    assert!(registry.is_active(token));
    assert_eq!(open_finish(&mut registry, token, false, true), -18);
    assert!(!registry.is_active(token));
    let token = registry.open(config).unwrap();
    assert_eq!(open_finish(&mut registry, token, true, false), -18);
    assert!(!registry.is_active(token));
}

#[test]
fn only_the_latest_handle_is_active_and_it_sits_in_slot_one() {
    let mut registry = HandleRegistry::new();
    let config = OpenConfig::current(CarrierLimits::new(8, 4));
    let first = registry.open(config).unwrap();
    let second = registry.open(config).unwrap();
    assert_eq!((first.slot, second.slot), (1, 1));
    assert!(first.generation < second.generation);
    assert!(!registry.is_active(first));
    assert!(registry.is_active(second));
    assert_eq!(registry.queue_control(second, b"ctl"), Ok(()));
    match registry.poll_control(second, 4) {
        x4_carrier_native::ControlPollOutcome::Message(bytes) => assert_eq!(bytes, b"ctl".to_vec()),
        other => panic!("unexpected {other:?}"),
    }
}

#[test]
fn arrays_need_every_row() {
    assert_eq!(array_rows(&[Some(2), Some(1)], 2, vec![Some(10), Some(20)]), Some(vec![10, 20]));
    assert_eq!(array_rows::<u8>(&[], 0, vec![]), Some(vec![]));
    assert_eq!(array_rows(&[Some(1), Some(2)], 2, vec![Some(10), None]), None);
    assert_eq!(array_rows(&[Some(1), Some(4)], 3, vec![Some(10), Some(20)]), None);
    assert_eq!(array_rows(&[Some(1), Some(3)], 3, vec![Some(10), None]), None);
    assert_eq!(array_rows(&[Some(1)], 2, vec![Some(10), Some(20)]), None);
}

#[test]
fn detail_tables_compose_keys_scope_and_rows() {
    let ware = CargoWare { ware: "energycells".to_owned(), amount_items: 40 };
    let storage =
        CargoStorage { transport: "container".to_owned(), capacity_cubic_metres: 10, occupied_cubic_metres: 1 };
    let cargo = cargo_table(&keys(&CARGO_KEYS), text("x4:scope"), Some(vec![ware.clone()]), Some(vec![storage]))
        .expect("cargo record");
    assert_eq!(cargo.source_scope, "x4:scope");
    assert_eq!(cargo.wares, vec![ware.clone()]);
    assert_eq!(cargo_table(&keys(&CARGO_KEYS), Some(vec![b's'; 129]), Some(vec![]), Some(vec![])), None);
    assert_eq!(cargo_table(&keys(&CARGO_KEYS[1..]), text("x4:scope"), Some(vec![]), Some(vec![])), None);
    assert_eq!(cargo_table(&keys(&CARGO_KEYS), text("x4:scope"), None, Some(vec![])), None);
    let crew =
        crew_table(&keys(&CREW_KEYS), Some(true), text("x4:scope"), Some(CrewCapacity::Zero), Some(vec![]))
            .expect("crew record");
    assert_eq!(crew.capacity, CrewCapacity::Zero);
    assert_eq!(crew_table(&keys(&CREW_KEYS), Some(false), text("x4:scope"), Some(CrewCapacity::Zero), Some(vec![])), None);
    assert_eq!(crew_table(&keys(&CREW_KEYS), Some(true), text("x4:scope"), None, Some(vec![])), None);
    let loadout = loadout_table(
        &keys(&LOADOUT_KEYS),
        Some(false),
        text("x4:scope"),
        Some(vec![]),
        Some(vec![]),
        Some(vec![]),
        Some(vec![]),
        Some(vec![]),
    )
    .expect("loadout record");
    assert!(loadout.units.is_empty());
    assert_eq!(
        loadout_table(
            &keys(&LOADOUT_KEYS),
            Some(true),
            text("x4:scope"),
            Some(vec![]),
            Some(vec![]),
            Some(vec![]),
            Some(vec![]),
            Some(vec![]),
        ),
        None
    );
}

#[test]
fn records_are_routed_admitted_and_decoded() {
    let fact = fact_table();
    let core = ship_core_table();
    match record(None, false, &fact, &core, true) {
        Some(RecordInput::Clock(decoded)) => assert_eq!(decoded.observation_version, 4),
        other => panic!("unexpected {other:?}"),
    }
    let mut bad_fact = fact_table();
    bad_fact.getter = Some(vec![b'g'; 33]);
    assert_eq!(record(None, true, &bad_fact, &core, true), None);
    match record(text("ship_core"), false, &fact, &core, true) {
        Some(RecordInput::ShipCore(decoded)) => assert_eq!(decoded.owner, "argon"),
        other => panic!("unexpected {other:?}"),
    }
    assert_eq!(record(text("ship_core"), true, &fact, &core, false), None);
    assert_eq!(record(text("ship_cargo"), true, &fact, &core, false), Some(RecordInput::ShipCargo));
    assert_eq!(record(text("ship_cargo"), false, &fact, &core, true), None);
    assert_eq!(record(text("ship_crew"), true, &bad_fact, &core, true), Some(RecordInput::ShipCrew));
    assert_eq!(record(text("ship_loadout"), false, &fact, &core, true), None);
    assert_eq!(record(text("ship_loadout"), true, &fact, &core, true), Some(RecordInput::ShipLoadout));
}
