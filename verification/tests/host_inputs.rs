use x4_carrier_native::abi::copy_owned;
use x4_carrier_native::lua_detail_budget::{admission_budget, walk_step, ValueKind, WalkStep};
use x4_carrier_native::lua_generation::{fold_seed, parse_u32};
use x4_carrier_native::lua_input::{
    begin_request, decimal, is_ship_key, record_route, ship_begin, BeginFields, BeginInput, RecordRoute,
};
use x4_carrier_native::lua_open::{
    boundary, decode_limits, decode_source, epoch_status, inner, open_step, OpenArgs, OpenLimitFields, OpenStep,
};
use x4_carrier_native::producer_message::{record_id, record_ordinal};
use x4_carrier_native::producer_types::{
    ProducerAdmissionPolicy, ProducerError, ProducerLimits, SourceBoundary, SourceEpochStatus,
};
use x4_carrier_native::ship_detail::{
    array_len, bounded_text, cargo_shape, cargo_storage, cargo_ware, crew_capacity, crew_role,
    crew_shape, crew_tier, exact_keys, installed_slot, installed_software, loadout_shape,
    missile_cargo, ship_unit, to_u32, virtual_slot, CrewCapacity, CARGO_KEYS, CREW_KEYS,
    LOADOUT_KEYS,
};
use x4_carrier_native::text::{decimal_bytes, decimal_string, hex_lower, parse_digits_u64, wide};
use x4_carrier_native::{
    module_contract, registered_operations, require_lua_symbols, HandleRegistry, HandleToken,
    InitializerError, ABI_VERSION,
};

fn keys(names: &[&str]) -> Vec<Option<Vec<u8>>> {
    names.iter().map(|name| Some(name.as_bytes().to_vec())).collect()
}

fn text(value: &str) -> Option<Vec<u8>> {
    Some(value.as_bytes().to_vec())
}

fn open_fields() -> OpenLimitFields {
    OpenLimitFields {
        data_message_bytes: 2_048,
        control_message_bytes: 512,
        max_records: 4,
        max_content_bytes: 96,
        max_canonical_bytes: 2_048,
        max_batches: 4,
        max_work: 1,
        max_age_millis: 30_000,
        pending_slots: 1,
        max_attempts: 2,
        max_retry_age_millis: 5_000,
        availability_interval_millis: 5_000,
    }
}

#[test]
fn open_limits_decode_only_supported_requests() {
    let (limits, policy) = decode_limits(&open_fields()).expect("supported request");
    assert_eq!(limits.max_raw_bytes, 96);
    assert_eq!(limits.max_retry_age_millis, 5_000);
    assert_eq!(policy, ProducerAdmissionPolicy { max_inner_records: 4, max_attempts: 2, max_age_millis: 30_000 });
    let mut fields = open_fields();
    fields.pending_slots = 2;
    assert_eq!(decode_limits(&fields), None);
    let mut fields = open_fields();
    fields.max_canonical_bytes = 1_024;
    assert_eq!(decode_limits(&fields), None);
    let mut fields = open_fields();
    fields.availability_interval_millis = 1_000;
    assert_eq!(decode_limits(&fields), None);
    let mut fields = open_fields();
    fields.max_work = 0;
    assert_eq!(decode_limits(&fields), None);
}

#[test]
fn heavy_profiles_bound_inner_records() {
    let single = ProducerAdmissionPolicy { max_inner_records: 4, max_attempts: 1, max_age_millis: 1 };
    let double = ProducerAdmissionPolicy { max_inner_records: 4, max_attempts: 2, max_age_millis: 5_000 };
    assert_eq!(inner(None, None, 4, double), Some(4));
    assert_eq!(inner(Some(1), Some(3), 4, single), Some(3));
    assert_eq!(inner(Some(1), Some(5), 4, single), None);
    assert_eq!(inner(Some(1), Some(3), 4, double), None);
    assert_eq!(inner(Some(2), None, 4, double), None);
    assert_eq!(inner(None, None, 4, single), None);
}

#[test]
fn source_fields_decode_by_name() {
    assert_eq!(epoch_status("boundary_uncertain"), Some(SourceEpochStatus::BoundaryUncertain));
    assert_eq!(epoch_status("known"), None);
    assert_eq!(boundary("transport_reconnect", true), Some(SourceBoundary::TransportReconnect));
    assert_eq!(boundary("transport_reconnect", false), None);
    assert_eq!(
        decode_source("x4:scope", "unknown", "game_loaded", true),
        Some(("x4:scope".to_owned(), SourceEpochStatus::Unknown, SourceBoundary::GameLoaded))
    );
    assert_eq!(decode_source("x4:scope", "unknown", "game_loaded", false), None);
}

#[test]
fn open_checks_version_limits_and_registry() {
    let args = OpenArgs {
        policy: ProducerAdmissionPolicy { max_inner_records: 1, max_attempts: 2, max_age_millis: 5_000 },
        limits: ProducerLimits::bring_up(),
        source_scope: "x4:carrier_b_acceptance".to_owned(),
        epoch_status: SourceEpochStatus::Unknown,
        boundary: SourceBoundary::RuntimeStart,
    };
    let mut registry = HandleRegistry::starting_at(5);
    assert_eq!(open_step(&mut registry, Some(1), Some(args.clone())), OpenStep::Reply(-10));
    assert_eq!(open_step(&mut registry, Some(2), None), OpenStep::Reply(-20));
    let mut zero = args.clone();
    zero.limits.control_message_bytes = 0;
    assert_eq!(open_step(&mut registry, Some(2), Some(zero)), OpenStep::Reply(-20));
    match open_step(&mut registry, Some(2), Some(args.clone())) {
        OpenStep::Opened { token, transport, limits, source } => {
            assert_eq!(token, HandleToken { generation: 5, slot: 1 });
            assert_eq!(transport.pipe_name, "\\\\.\\pipe\\live_galaxy");
            assert_eq!(transport.max_data_message_bytes, 2_048);
            assert_eq!(transport.max_control_message_bytes, 512);
            assert_eq!(limits, ProducerLimits::bring_up());
            assert_eq!(source.session_id, "x4-session-5");
            assert_eq!(source.producer_incarnation, "x4-producer-5");
            assert_eq!(source.source_scope, "x4:carrier_b_acceptance");
        }
        other => panic!("open refused: {other:?}"),
    }
    assert!(registry.is_active(HandleToken { generation: 5, slot: 1 }));
    let mut exhausted = HandleRegistry::starting_at(u32::MAX);
    let _ = open_step(&mut exhausted, Some(2), Some(args.clone()));
    assert_eq!(open_step(&mut exhausted, Some(2), Some(args)), OpenStep::Reply(-17));
}

fn ship_fields(key: &str) -> BeginFields {
    BeginFields {
        section_key: key.to_owned(),
        expected_records: 2,
        capture_start_millis: "100".to_owned(),
        capture_clock: "game_time_millis".to_owned(),
        quality: "unknown".to_owned(),
        availability: "available".to_owned(),
        coverage: "partial".to_owned(),
        consistency: "observed_count_fill_only".to_owned(),
        stable_identity: true,
        source_epoch_status: "unknown".to_owned(),
        source_boundary: "transport_reconnect".to_owned(),
    }
}

#[test]
fn ship_sections_report_under_their_faction_scope() {
    let source = x4_carrier_native::lua_open::open_source(
        2,
        "x4:carrier_b_acceptance".to_owned(),
        SourceEpochStatus::Unknown,
        SourceBoundary::RuntimeStart,
    );
    match ship_begin(&ship_fields("ship_core:argon"), &source, true, Some("argon".to_owned())) {
        Some(BeginInput::ShipCore { evidence, expected_records }) => {
            assert_eq!(evidence.source_scope, "x4:faction:argon:ships");
            assert_eq!(expected_records, 2);
        }
        other => panic!("unexpected {other:?}"),
    }
    match ship_begin(&ship_fields("faction_census"), &source, false, None) {
        Some(BeginInput::FactionCensus { evidence, .. }) => {
            assert_eq!(evidence.source_scope, "x4:carrier_b_acceptance")
        }
        other => panic!("unexpected {other:?}"),
    }
    assert_eq!(ship_begin(&ship_fields("nonsense"), &source, false, None), None);
    let mut wrong = ship_fields("ship_core");
    wrong.coverage = "complete".to_owned();
    assert_eq!(ship_begin(&wrong, &source, true, None), None);
}

#[test]
fn opening_requests_follow_the_selected_key() {
    let source = x4_carrier_native::lua_open::open_source(
        2,
        "x4:scope".to_owned(),
        SourceEpochStatus::Unknown,
        SourceBoundary::RuntimeStart,
    );
    assert_eq!(begin_request(&ship_fields("ship_core"), "faction_census", &source, true, None), None);
    assert!(matches!(
        begin_request(&ship_fields("ship_core"), "ship_core", &source, true, None),
        Some(BeginInput::ShipCore { .. })
    ));
    assert!(matches!(
        begin_request(&ship_fields("faction_census"), "faction_census", &source, false, None),
        Some(BeginInput::FactionCensus { .. })
    ));
    let mut clock = ship_fields("carrier_b_realtime_sample");
    assert_eq!(begin_request(&clock, "carrier_b_realtime_sample", &source, false, None), None);
    clock.expected_records = 1;
    clock.coverage = "point_measurement".to_owned();
    clock.consistency = "unknown".to_owned();
    clock.stable_identity = false;
    clock.source_boundary = "game_loaded".to_owned();
    assert!(matches!(
        begin_request(&clock, "carrier_b_realtime_sample", &source, false, None),
        Some(BeginInput::Clock(_))
    ));
}

#[test]
fn section_keys_and_record_routes() {
    assert!(is_ship_key("ship_core"));
    assert!(is_ship_key("ship_crew:g12"));
    assert!(!is_ship_key("ship_crew:x"));
    assert_eq!(record_route(Some("ship_cargo")), (RecordRoute::ShipCargo, true));
    assert_eq!(record_route(Some("ship_core")), (RecordRoute::ShipCore, false));
    assert_eq!(record_route(None), (RecordRoute::Clock, false));
    assert_eq!(decimal("0042"), Some(42));
    assert_eq!(decimal("18446744073709551616"), None);
    assert_eq!(decimal("-1"), None);
    assert_eq!(decimal(""), None);
}

#[test]
fn detail_tables_need_exactly_their_keys() {
    assert!(exact_keys(&keys(&["b", "a"]), &["a", "b"]));
    assert!(!exact_keys(&keys(&["a"]), &["a", "b"]));
    assert!(!exact_keys(&keys(&["a", "c"]), &["a", "b"]));
    assert!(!exact_keys(&[None, text("a")], &["a", "b"]));
    assert!(cargo_shape(&keys(&CARGO_KEYS)));
    assert!(crew_shape(&keys(&CREW_KEYS), Some(true)));
    assert!(!crew_shape(&keys(&CREW_KEYS), Some(false)));
    assert!(loadout_shape(&keys(&LOADOUT_KEYS), Some(false)));
    assert!(!loadout_shape(&keys(&LOADOUT_KEYS), Some(true)));
    assert!(!loadout_shape(&keys(&LOADOUT_KEYS), None));
}

#[test]
fn dense_arrays_are_counted_within_their_limit() {
    assert_eq!(array_len(&[Some(2), Some(1)], 2), Some(2));
    assert_eq!(array_len(&[], 0), Some(0));
    assert_eq!(array_len(&[Some(0)], 2), None);
    assert_eq!(array_len(&[Some(3)], 2), None);
    assert_eq!(array_len(&[Some(1), None], 2), None);
    assert_eq!(array_len(&[Some(1), Some(2), Some(2)], 2), None);
}

#[test]
fn string_fields_are_bounded_utf8() {
    assert_eq!(bounded_text(text("ware"), 4), Some("ware".to_owned()));
    assert_eq!(bounded_text(text("wares"), 4), None);
    assert_eq!(bounded_text(Some(vec![0xff]), 4), None);
    assert_eq!(bounded_text(None, 4), None);
    assert_eq!(to_u32(Some(4_294_967_295)), Some(u32::MAX));
    assert_eq!(to_u32(Some(4_294_967_296)), None);
}

#[test]
fn crew_capacity_pairs_outcome_and_count() {
    assert_eq!(crew_capacity(text("value"), Some(12)), Some(CrewCapacity::Value(12)));
    assert_eq!(crew_capacity(text("value"), Some(0)), None);
    assert_eq!(crew_capacity(text("zero"), Some(0)), Some(CrewCapacity::Zero));
    assert_eq!(crew_capacity(text("zero"), Some(1)), None);
    assert_eq!(crew_capacity(text("many"), Some(1)), None);
    assert_eq!(crew_capacity(text("value"), Some(4_294_967_296)), None);
}

#[test]
fn detail_rows_are_built_from_valid_fields() {
    let ware = cargo_ware(&keys(&["ware", "amount_items"]), text("energycells"), Some(40)).unwrap();
    assert_eq!((ware.ware.as_str(), ware.amount_items), ("energycells", 40));
    assert_eq!(cargo_ware(&keys(&["ware"]), text("energycells"), Some(40)), None);
    let storage = cargo_storage(
        &keys(&["transport", "capacity_cubic_metres", "occupied_cubic_metres"]),
        text("container"),
        Some(1_000),
        Some(250),
    )
    .unwrap();
    assert_eq!((storage.capacity_cubic_metres, storage.occupied_cubic_metres), (1_000, 250));
    let tier = crew_tier(
        &keys(&["name", "skill_lower_threshold", "amount_people"]),
        text("veteran"),
        Some(-3),
        Some(5),
    )
    .unwrap();
    assert_eq!(tier.skill_lower_threshold, -3);
    let role = crew_role(
        &keys(&["id", "amount_people", "reported_numtiers", "canhire", "tiers"]),
        text("marine"),
        Some(5),
        Some(1),
        Some(true),
        Some(vec![tier.clone()]),
    )
    .unwrap();
    assert_eq!(role.tiers, vec![tier]);
    assert!(role.canhire);
    assert_eq!(
        crew_role(
            &keys(&["id", "amount_people", "reported_numtiers", "canhire", "tiers"]),
            text("marine"),
            Some(5),
            Some(1),
            Some(true),
            None,
        ),
        None
    );
    let slot = installed_slot(
        &keys(&["kind", "slot", "component", "macro_name", "path", "group"]),
        text("weapon"),
        Some(3),
        text("12345"),
        text("weapon_gen_m_laser_01_mk1_macro"),
        text("../con_weapon_01"),
        text("group_01"),
    )
    .unwrap();
    assert_eq!(slot.slot, 3);
    assert_eq!(
        installed_slot(
            &keys(&["kind", "slot", "component", "macro_name", "path", "group"]),
            text("weapon"),
            Some(3),
            text("123456789012345678901"),
            text("m"),
            text("p"),
            text("g"),
        ),
        None
    );
    assert!(virtual_slot(&keys(&["kind", "slot", "macro_name"]), text("engine"), Some(0), text("m")).is_some());
    assert!(installed_software(&keys(&["maximum", "current"]), text("a"), text("b")).is_some());
    let missiles =
        missile_cargo(&keys(&["ware", "macro_name", "amount_raw"]), text("missile"), text("m"), Some(-1)).unwrap();
    assert_eq!(missiles.amount_raw, -1);
    assert_eq!(
        ship_unit(&keys(&["macro_name", "category", "amount_items"]), text("m"), text("c"), Some(4_294_967_296)),
        None
    );
    assert_eq!(
        ship_unit(&keys(&["macro_name", "category", "amount_items"]), text("m"), text("c"), Some(2)).unwrap().amount_items,
        2
    );
}

#[test]
fn the_walk_charges_every_value_and_refuses_metatables() {
    assert_eq!(admission_budget(512), Some(4_096));
    assert_eq!(admission_budget(usize::MAX), None);
    let mut remaining = Some(300);
    assert_eq!(walk_step(&mut remaining, 0, ValueKind::Table(false)), WalkStep::Descend);
    assert_eq!(remaining, Some(172));
    assert_eq!(walk_step(&mut remaining, 1, ValueKind::Text(Some(10))), WalkStep::Accept);
    assert_eq!(remaining, Some(24));
    assert_eq!(walk_step(&mut remaining, 1, ValueKind::Number), WalkStep::Reject);
    assert_eq!(remaining, None);
    let mut fresh = Some(1_000);
    assert_eq!(walk_step(&mut fresh, 6, ValueKind::Boolean), WalkStep::Reject);
    assert_eq!(fresh, Some(1_000));
    assert_eq!(walk_step(&mut fresh, 5, ValueKind::Table(true)), WalkStep::Reject);
    assert_eq!(walk_step(&mut fresh, 5, ValueKind::Text(None)), WalkStep::Reject);
    assert_eq!(walk_step(&mut fresh, 5, ValueKind::Other), WalkStep::Reject);
}

#[test]
fn generation_text_and_seed() {
    assert_eq!(parse_u32("+12"), Some(12));
    assert_eq!(parse_u32("4294967295"), Some(u32::MAX));
    assert_eq!(parse_u32("4294967296"), None);
    assert_eq!(parse_u32("+"), None);
    assert_eq!(fold_seed(0, 0), 1);
    assert_eq!(fold_seed(5, 0), 5);
    assert_eq!(fold_seed(0x1_0000_0001, 0), 1);
    assert_eq!(fold_seed(0, 1), 1 << 17);
}

#[test]
fn record_ids_pad_ship_and_census_ordinals() {
    assert_eq!(record_id("ship_core", 3, 7), b"carrier-b:3:00000000000000000007".to_vec());
    assert_eq!(record_id("faction_census", 1, 12), b"carrier-b:1:00000000000000000012".to_vec());
    assert_eq!(record_id("carrier_b_realtime_sample", 3, 7), b"carrier-b:3:7".to_vec());
    assert_eq!(record_id("ship_core", 1, u64::MAX), b"carrier-b:1:18446744073709551615".to_vec());
    assert!(record_id("ship_cargo:g1", 2, 9) < record_id("ship_cargo:g1", 2, 10));
    assert_eq!(record_ordinal(3, 4), Ok(7));
    assert_eq!(record_ordinal(usize::MAX, 1), Err(ProducerError::DataLimit));
}

#[test]
fn text_helpers() {
    assert_eq!(hex_lower(&[0x00, 0xab, 0x7f]), b"00ab7f".to_vec());
    assert_eq!(hex_lower(&[]), Vec::<u8>::new());
    assert_eq!(decimal_bytes(0), b"0".to_vec());
    assert_eq!(decimal_bytes(1_234_567), b"1234567".to_vec());
    assert_eq!(decimal_string(u64::MAX), "18446744073709551615");
    assert_eq!(parse_digits_u64(b"18446744073709551615"), Some(u64::MAX));
    assert_eq!(parse_digits_u64(b"18446744073709551616"), None);
    assert_eq!(wide("a\u{e9}\u{1f600}"), vec![0x61, 0xe9, 0xd83d, 0xde00, 0]);
    assert_eq!(copy_owned(b"abc"), b"abc".to_vec());
}

#[test]
fn module_contract_lists_the_registered_operations() {
    let contract = module_contract();
    assert_eq!(contract.abi_version, ABI_VERSION);
    assert_eq!(contract.abi_version, 2);
    assert_eq!(contract.operations.len(), 10);
    assert_eq!(contract.operations[1], "open");
    assert_eq!(registered_operations(), contract.operations.to_vec());
}

#[test]
fn every_required_lua_symbol_must_be_present() {
    assert_eq!(require_lua_symbols(|_| true), Ok(()));
    assert_eq!(
        require_lua_symbols(|name| name != "lua_next"),
        Err(InitializerError::MissingHostSymbol("lua_next"))
    );
    assert_eq!(
        require_lua_symbols(|_| false),
        Err(InitializerError::MissingHostSymbol("lua_createtable"))
    );
}
