use vstd::prelude::*;

use crate::lua_input::{
    begin_request, finish, spec_begin_request, spec_finish, BeginFields, BeginInput, FinishFields,
    RecordRoute,
};
use crate::lua_open::{
    decode_limits, decode_source, inner, spec_boundary, spec_decode_limits, spec_epoch_status, spec_inner,
    OpenArgs, OpenLimitFields,
};
use crate::producer_types::{
    ProducerAdmissionPolicy, ProducerLimits, ProducerSource, SectionFinishEvidence, ShipCoreRecord,
    SourceBoundary, SourceEpochStatus, TypedFact,
};
use crate::ship_detail::{bounded_text, exact_keys, spec_exact_keys, text_is, text_of, text_ok};

verus! {

/// Keys of a `begin_section` table.
pub const BEGIN_KEYS: [&'static str; 11] = [
    "section_key",
    "expected_records",
    "capture_start_millis",
    "capture_clock",
    "quality",
    "availability",
    "coverage",
    "consistency",
    "stable_identity",
    "source_epoch_status",
    "source_boundary",
];

/// Keys of a `finish_section` table.
pub const FINISH_KEYS: [&'static str; 7] = [
    "capture_end_millis",
    "success",
    "quality",
    "availability",
    "coverage",
    "consistency",
    "stable_identity",
];

/// Keys of a clock fact record.
pub const FACT_KEYS: [&'static str; 5] = ["entity_id", "observation_version", "getter", "raw_value", "semantics"];

/// Keys of a ship core record.
pub const SHIP_CORE_KEYS: [&'static str; 9] = [
    "profile",
    "source_scope",
    "identity",
    "owner",
    "type",
    "class",
    "location",
    "consistency",
    "consistency_reason",
];

/// A `begin_section` table as read from the host: its keys (each as its bytes
/// where it is a string) and its fields (`None` where missing or of another
/// type).
#[derive(Clone, Debug, PartialEq, Eq)]
pub struct BeginTable {
    pub keys: Vec<Option<Vec<u8>>>,
    pub section_key: Option<Vec<u8>>,
    pub expected_records: Option<usize>,
    pub capture_start_millis: Option<Vec<u8>>,
    pub capture_clock: Option<Vec<u8>>,
    pub quality: Option<Vec<u8>>,
    pub availability: Option<Vec<u8>>,
    pub coverage: Option<Vec<u8>>,
    pub consistency: Option<Vec<u8>>,
    pub stable_identity: Option<bool>,
    pub source_epoch_status: Option<Vec<u8>>,
    pub source_boundary: Option<Vec<u8>>,
}

/// A `finish_section` table as read from the host.
#[derive(Clone, Debug, PartialEq, Eq)]
pub struct FinishTable {
    pub keys: Vec<Option<Vec<u8>>>,
    pub capture_end_millis: Option<Vec<u8>>,
    pub success: Option<bool>,
    pub quality: Option<Vec<u8>>,
    pub availability: Option<Vec<u8>>,
    pub coverage: Option<Vec<u8>>,
    pub consistency: Option<Vec<u8>>,
    pub stable_identity: Option<bool>,
}

/// A clock fact record as read from the host.
#[derive(Clone, Debug, PartialEq, Eq)]
pub struct FactTable {
    pub keys: Vec<Option<Vec<u8>>>,
    pub entity_id: Option<Vec<u8>>,
    pub observation_version: Option<usize>,
    pub getter: Option<Vec<u8>>,
    pub raw_value: Option<Vec<u8>>,
    pub semantics: Option<Vec<u8>>,
}

/// A ship core record as read from the host.
#[derive(Clone, Debug, PartialEq, Eq)]
pub struct ShipCoreTable {
    pub keys: Vec<Option<Vec<u8>>>,
    pub source_scope: Option<Vec<u8>>,
    pub identity: Option<Vec<u8>>,
    pub owner: Option<Vec<u8>>,
    pub ship_type: Option<Vec<u8>>,
    pub class: Option<Vec<u8>>,
    pub location: Option<Vec<u8>>,
    pub consistency: Option<Vec<u8>>,
    pub consistency_reason: Option<Vec<u8>>,
}

/// The begin table has exactly its keys, and its fields have their types and
/// fit: the section key in 64 bytes, the start time in 20, the rest in 32.
pub open spec fn begin_table_ok(t: BeginTable) -> bool {
    &&& spec_exact_keys(t.keys@, BEGIN_KEYS@)
    &&& text_ok(t.section_key, 64)
    &&& t.expected_records is Some
    &&& text_ok(t.capture_start_millis, 20)
    &&& text_ok(t.capture_clock, 32)
    &&& text_ok(t.quality, 32)
    &&& text_ok(t.availability, 32)
    &&& text_ok(t.coverage, 32)
    &&& text_ok(t.consistency, 32)
    &&& t.stable_identity is Some
    &&& text_ok(t.source_epoch_status, 32)
    &&& text_ok(t.source_boundary, 32)
}

/// `f` holds exactly the fields of `t`.
pub open spec fn begin_fields_of(t: BeginTable, f: BeginFields) -> bool {
    &&& text_of(f.section_key, t.section_key)
    &&& Some(f.expected_records) == t.expected_records
    &&& text_of(f.capture_start_millis, t.capture_start_millis)
    &&& text_of(f.capture_clock, t.capture_clock)
    &&& text_of(f.quality, t.quality)
    &&& text_of(f.availability, t.availability)
    &&& text_of(f.coverage, t.coverage)
    &&& text_of(f.consistency, t.consistency)
    &&& Some(f.stable_identity) == t.stable_identity
    &&& text_of(f.source_epoch_status, t.source_epoch_status)
    &&& text_of(f.source_boundary, t.source_boundary)
}

/// The fields of a begin table, if it has exactly its keys and its fields fit.
pub fn begin_fields(t: &BeginTable) -> (fields: Option<BeginFields>)
    ensures
        fields is Some == begin_table_ok(*t),
        (fields matches Some(f) ==> begin_fields_of(*t, f)),
{
    if !exact_keys(t.keys.as_slice(), BEGIN_KEYS.as_slice()) {
        return None;
    }
    let section_key = match bounded_text(t.section_key.clone(), 64) { Some(v) => v, None => return None };
    let expected_records = match t.expected_records { Some(v) => v, None => return None };
    let capture_start_millis = match bounded_text(t.capture_start_millis.clone(), 20) { Some(v) => v, None => return None };
    let capture_clock = match bounded_text(t.capture_clock.clone(), 32) { Some(v) => v, None => return None };
    let quality = match bounded_text(t.quality.clone(), 32) { Some(v) => v, None => return None };
    let availability = match bounded_text(t.availability.clone(), 32) { Some(v) => v, None => return None };
    let coverage = match bounded_text(t.coverage.clone(), 32) { Some(v) => v, None => return None };
    let consistency = match bounded_text(t.consistency.clone(), 32) { Some(v) => v, None => return None };
    let stable_identity = match t.stable_identity { Some(v) => v, None => return None };
    let source_epoch_status = match bounded_text(t.source_epoch_status.clone(), 32) { Some(v) => v, None => return None };
    let source_boundary = match bounded_text(t.source_boundary.clone(), 32) { Some(v) => v, None => return None };
    Some(BeginFields {
        section_key,
        expected_records,
        capture_start_millis,
        capture_clock,
        quality,
        availability,
        coverage,
        consistency,
        stable_identity,
        source_epoch_status,
        source_boundary,
    })
}

/// A `begin_section` table for the selected section: refused unless it has
/// exactly its keys and its fields fit; otherwise decoded as
/// `begin_request` decodes its fields.
pub fn begin_table(
    t: &BeginTable,
    selected_key: &str,
    source: &ProducerSource,
    key_parses: bool,
    faction: Option<String>,
) -> (input: Option<BeginInput>)
    ensures
        !begin_table_ok(*t) ==> input is None,
        begin_table_ok(*t) ==> exists|f: BeginFields|
            #[trigger] begin_fields_of(*t, f) && spec_begin_request(
                f,
                selected_key@,
                *source,
                key_parses,
                faction,
                input,
            ),
{
    match begin_fields(t) {
        Some(f) => {
            let input = begin_request(&f, selected_key, source, key_parses, faction);
            assert(begin_fields_of(*t, f));
            input
        },
        None => None,
    }
}

/// The finish table has exactly its keys, and its fields have their types
/// and fit: the end time in 20 bytes, the rest in 32.
pub open spec fn finish_table_ok(t: FinishTable) -> bool {
    &&& spec_exact_keys(t.keys@, FINISH_KEYS@)
    &&& text_ok(t.capture_end_millis, 20)
    &&& t.success is Some
    &&& text_ok(t.quality, 32)
    &&& text_ok(t.availability, 32)
    &&& text_ok(t.coverage, 32)
    &&& text_ok(t.consistency, 32)
    &&& t.stable_identity is Some
}

/// `f` holds exactly the fields of `t`.
pub open spec fn finish_fields_of(t: FinishTable, f: FinishFields) -> bool {
    &&& text_of(f.capture_end_millis, t.capture_end_millis)
    &&& Some(f.success) == t.success
    &&& text_of(f.quality, t.quality)
    &&& text_of(f.availability, t.availability)
    &&& text_of(f.coverage, t.coverage)
    &&& text_of(f.consistency, t.consistency)
    &&& Some(f.stable_identity) == t.stable_identity
}

/// A `finish_section` table: refused unless it has exactly its keys and its
/// fields fit; otherwise decoded as `finish` decodes its fields.
pub fn finish_table(t: &FinishTable) -> (evidence: Option<SectionFinishEvidence>)
    ensures
        !finish_table_ok(*t) ==> evidence is None,
        finish_table_ok(*t) ==> exists|f: FinishFields|
            #[trigger] finish_fields_of(*t, f) && evidence == spec_finish(f),
{
    if !exact_keys(t.keys.as_slice(), FINISH_KEYS.as_slice()) {
        return None;
    }
    let capture_end_millis = match bounded_text(t.capture_end_millis.clone(), 20) { Some(v) => v, None => return None };
    let success = match t.success { Some(v) => v, None => return None };
    let quality = match bounded_text(t.quality.clone(), 32) { Some(v) => v, None => return None };
    let availability = match bounded_text(t.availability.clone(), 32) { Some(v) => v, None => return None };
    let coverage = match bounded_text(t.coverage.clone(), 32) { Some(v) => v, None => return None };
    let consistency = match bounded_text(t.consistency.clone(), 32) { Some(v) => v, None => return None };
    let stable_identity = match t.stable_identity { Some(v) => v, None => return None };
    let f = FinishFields { capture_end_millis, success, quality, availability, coverage, consistency, stable_identity };
    assert(finish_fields_of(*t, f));
    finish(&f)
}

/// The fact table has exactly its keys, an integer observation version, and
/// entity id, getter, raw value and semantics within 128, 32, 96 and 32 bytes.
pub open spec fn fact_table_ok(t: FactTable) -> bool {
    &&& spec_exact_keys(t.keys@, FACT_KEYS@)
    &&& text_ok(t.entity_id, 128)
    &&& t.observation_version is Some
    &&& text_ok(t.getter, 32)
    &&& text_ok(t.raw_value, 96)
    &&& text_ok(t.semantics, 32)
}

/// `f` holds exactly the fields of `t`.
pub open spec fn fact_of(t: FactTable, f: TypedFact) -> bool {
    &&& text_of(f.entity_id, t.entity_id)
    &&& Some(f.observation_version as usize) == t.observation_version
    &&& text_of(f.getter, t.getter)
    &&& text_of(f.raw_value, t.raw_value)
    &&& text_of(f.semantics, t.semantics)
}

/// A clock fact record: refused unless it has exactly its keys and its
/// fields fit.
pub fn clock_fact(t: &FactTable) -> (fact: Option<TypedFact>)
    ensures
        fact is Some == fact_table_ok(*t),
        (fact matches Some(f) ==> fact_of(*t, f)),
{
    if !exact_keys(t.keys.as_slice(), FACT_KEYS.as_slice()) {
        return None;
    }
    let entity_id = match bounded_text(t.entity_id.clone(), 128) { Some(v) => v, None => return None };
    let observation_version = match t.observation_version { Some(v) => v as u64, None => return None };
    let getter = match bounded_text(t.getter.clone(), 32) { Some(v) => v, None => return None };
    let raw_value = match bounded_text(t.raw_value.clone(), 96) { Some(v) => v, None => return None };
    let semantics = match bounded_text(t.semantics.clone(), 32) { Some(v) => v, None => return None };
    Some(TypedFact { entity_id, observation_version, getter, semantics, raw_value })
}

/// The ship core table has exactly its keys and its fields fit: scope 128
/// bytes, identity 32, owner 64, type 128, class 64, location 128, and the
/// consistency and its reason 32 each.
pub open spec fn ship_core_table_ok(t: ShipCoreTable) -> bool {
    &&& spec_exact_keys(t.keys@, SHIP_CORE_KEYS@)
    &&& text_ok(t.source_scope, 128)
    &&& text_ok(t.identity, 32)
    &&& text_ok(t.owner, 64)
    &&& text_ok(t.ship_type, 128)
    &&& text_ok(t.class, 64)
    &&& text_ok(t.location, 128)
    &&& text_ok(t.consistency, 32)
    &&& text_ok(t.consistency_reason, 32)
}

/// `r` holds exactly the record fields of `t`.
pub open spec fn core_of(t: ShipCoreTable, r: ShipCoreRecord) -> bool {
    &&& text_of(r.source_scope, t.source_scope)
    &&& text_of(r.identity, t.identity)
    &&& text_of(r.owner, t.owner)
    &&& text_of(r.ship_type, t.ship_type)
    &&& text_of(r.class, t.class)
    &&& text_of(r.location, t.location)
}

/// A ship core record: refused unless it has exactly its keys, its fields
/// fit, and the observation domain accepts it (`accepted`: its consistency
/// pair and its identity, owner, type, class and location).
pub fn ship_core(t: &ShipCoreTable, accepted: bool) -> (record: Option<ShipCoreRecord>)
    ensures
        record is Some == (ship_core_table_ok(*t) && accepted),
        (record matches Some(r) ==> core_of(*t, r)),
{
    if !exact_keys(t.keys.as_slice(), SHIP_CORE_KEYS.as_slice()) {
        return None;
    }
    let source_scope = match bounded_text(t.source_scope.clone(), 128) { Some(v) => v, None => return None };
    let identity = match bounded_text(t.identity.clone(), 32) { Some(v) => v, None => return None };
    let owner = match bounded_text(t.owner.clone(), 64) { Some(v) => v, None => return None };
    let ship_type = match bounded_text(t.ship_type.clone(), 128) { Some(v) => v, None => return None };
    let class = match bounded_text(t.class.clone(), 64) { Some(v) => v, None => return None };
    let location = match bounded_text(t.location.clone(), 128) { Some(v) => v, None => return None };
    if bounded_text(t.consistency.clone(), 32).is_none() || bounded_text(t.consistency_reason.clone(), 32).is_none()
        || !accepted {
        return None;
    }
    Some(ShipCoreRecord { source_scope, identity, owner, ship_type, class, location })
}

/// The route of a record by its `profile` field as read (at most 32 bytes of
/// text), and whether it is charged against the detail copy budget.
pub open spec fn spec_route(profile: Option<Vec<u8>>) -> (RecordRoute, bool) {
    if text_is(profile, 32, "ship_loadout"@) {
        (RecordRoute::ShipLoadout, true)
    } else if text_is(profile, 32, "ship_crew"@) {
        (RecordRoute::ShipCrew, true)
    } else if text_is(profile, 32, "ship_cargo"@) {
        (RecordRoute::ShipCargo, true)
    } else if text_is(profile, 32, "ship_core"@) {
        (RecordRoute::ShipCore, false)
    } else {
        (RecordRoute::Clock, false)
    }
}

/// The route of a record, from its `profile` field as read (at most 32 bytes
/// of text): ship detail profiles are charged against the detail copy budget
/// first.
pub fn route(profile: Option<Vec<u8>>) -> (route: (RecordRoute, bool))
    ensures
        route == spec_route(profile),
{
    let ghost raw = profile;
    let text = bounded_text(profile, 32);
    proof {
        vstd::utf8::encode_utf8_decode_utf8("ship_loadout"@);
        vstd::utf8::encode_utf8_decode_utf8("ship_crew"@);
        vstd::utf8::encode_utf8_decode_utf8("ship_cargo"@);
        vstd::utf8::encode_utf8_decode_utf8("ship_core"@);
        if text is Some {
            vstd::utf8::encode_utf8_decode_utf8(text->Some_0@);
        }
    }
    match text {
        Some(t) => crate::lua_input::record_route(Some(t.as_str())),
        None => crate::lua_input::record_route(None),
    }
}

/// A `push_record` request as the library reads it: a clock fact or a ship
/// core record, decoded; a ship detail record, routed to its decoder.
#[derive(Clone, Debug, PartialEq, Eq)]
pub enum RecordInput {
    Clock(TypedFact),
    ShipCore(ShipCoreRecord),
    ShipCargo,
    ShipCrew,
    ShipLoadout,
}

/// A `push_record` request: its `profile` field routes it. A ship detail
/// record must first fit the detail copy budget (`admitted`); a ship core
/// record is decoded from `core` (`core_accepted`: the observation domain
/// accepts its values); any other record is a clock fact decoded from `fact`.
pub fn record(
    profile: Option<Vec<u8>>,
    admitted: bool,
    fact: &FactTable,
    core: &ShipCoreTable,
    core_accepted: bool,
) -> (input: Option<RecordInput>)
    ensures
        spec_route(profile).1 && !admitted ==> input is None,
        !(spec_route(profile).1 && !admitted) ==> match spec_route(profile).0 {
            RecordRoute::ShipLoadout => input == Some(RecordInput::ShipLoadout),
            RecordRoute::ShipCrew => input == Some(RecordInput::ShipCrew),
            RecordRoute::ShipCargo => input == Some(RecordInput::ShipCargo),
            RecordRoute::ShipCore => {
                &&& input is Some == (ship_core_table_ok(*core) && core_accepted)
                &&& (input matches Some(i) ==> i matches RecordInput::ShipCore(r) && core_of(*core, r))
            },
            RecordRoute::Clock => {
                &&& input is Some == fact_table_ok(*fact)
                &&& (input matches Some(i) ==> i matches RecordInput::Clock(f) && fact_of(*fact, f))
            },
        },
{
    let (kind, charged) = route(profile);
    if charged && !admitted {
        return None;
    }
    match kind {
        RecordRoute::ShipLoadout => Some(RecordInput::ShipLoadout),
        RecordRoute::ShipCrew => Some(RecordInput::ShipCrew),
        RecordRoute::ShipCargo => Some(RecordInput::ShipCargo),
        RecordRoute::ShipCore => match ship_core(core, core_accepted) {
            Some(r) => Some(RecordInput::ShipCore(r)),
            None => None,
        },
        RecordRoute::Clock => match clock_fact(fact) {
            Some(f) => Some(RecordInput::Clock(f)),
            None => None,
        },
    }
}

/// Keys of the limits table of an `open` call.
pub const LIMIT_KEYS: [&'static str; 12] = [
    "data_message_bytes",
    "control_message_bytes",
    "max_records",
    "max_content_bytes",
    "max_canonical_bytes",
    "max_batches",
    "max_work",
    "max_age_millis",
    "pending_slots",
    "max_attempts",
    "max_retry_age_millis",
    "availability_interval_millis",
];

/// Keys of the limits table of an `open` call for a heavy profile.
pub const HEAVY_LIMIT_KEYS: [&'static str; 14] = [
    "data_message_bytes",
    "control_message_bytes",
    "max_records",
    "max_content_bytes",
    "max_canonical_bytes",
    "max_batches",
    "max_work",
    "max_age_millis",
    "pending_slots",
    "max_attempts",
    "max_retry_age_millis",
    "availability_interval_millis",
    "heavy_profile_version",
    "max_inner_records",
];

/// Keys of the source table of an `open` call.
pub const SOURCE_KEYS: [&'static str; 3] = ["source_scope", "source_epoch_status", "source_boundary"];

/// The two tables of an `open` call as read from the host.
#[derive(Clone, Debug, PartialEq, Eq)]
pub struct OpenTables {
    pub limit_keys: Vec<Option<Vec<u8>>>,
    pub source_keys: Vec<Option<Vec<u8>>>,
    pub heavy_profile_version: Option<usize>,
    pub max_inner_records: Option<usize>,
    pub data_message_bytes: Option<usize>,
    pub control_message_bytes: Option<usize>,
    pub max_records: Option<usize>,
    pub max_content_bytes: Option<usize>,
    pub max_canonical_bytes: Option<usize>,
    pub max_batches: Option<usize>,
    pub max_work: Option<usize>,
    pub max_age_millis: Option<usize>,
    pub pending_slots: Option<usize>,
    pub max_attempts: Option<usize>,
    pub max_retry_age_millis: Option<usize>,
    pub availability_interval_millis: Option<usize>,
    pub source_scope: Option<Vec<u8>>,
    pub source_epoch_status: Option<Vec<u8>>,
    pub source_boundary: Option<Vec<u8>>,
}

/// The text a field holds, where it holds valid UTF-8.
pub open spec fn text_value(raw: Option<Vec<u8>>) -> Seq<char> {
    vstd::utf8::decode_utf8(raw->Some_0@)
}

/// The limit fields of the tables, where all are present.
pub open spec fn open_fields(t: OpenTables) -> OpenLimitFields {
    OpenLimitFields {
        data_message_bytes: t.data_message_bytes->Some_0,
        control_message_bytes: t.control_message_bytes->Some_0,
        max_records: t.max_records->Some_0,
        max_content_bytes: t.max_content_bytes->Some_0,
        max_canonical_bytes: t.max_canonical_bytes->Some_0,
        max_batches: t.max_batches->Some_0,
        max_work: t.max_work->Some_0,
        max_age_millis: t.max_age_millis->Some_0,
        pending_slots: t.pending_slots->Some_0,
        max_attempts: t.max_attempts->Some_0,
        max_retry_age_millis: t.max_retry_age_millis->Some_0,
        availability_interval_millis: t.availability_interval_millis->Some_0,
    }
}

/// Both tables have exactly their keys (the heavy keys where a heavy profile
/// version is given) and their fields have their types and fit: the scope in
/// 128 bytes, the epoch status and boundary in 32.
pub open spec fn open_tables_ok(t: OpenTables) -> bool {
    &&& if t.heavy_profile_version is Some {
        spec_exact_keys(t.limit_keys@, HEAVY_LIMIT_KEYS@)
    } else {
        spec_exact_keys(t.limit_keys@, LIMIT_KEYS@)
    }
    &&& spec_exact_keys(t.source_keys@, SOURCE_KEYS@)
    &&& t.data_message_bytes is Some && t.control_message_bytes is Some && t.max_records is Some
    &&& t.max_content_bytes is Some && t.max_canonical_bytes is Some && t.max_batches is Some
    &&& t.max_work is Some && t.max_age_millis is Some && t.pending_slots is Some
    &&& t.max_attempts is Some && t.max_retry_age_millis is Some
    &&& t.availability_interval_millis is Some
    &&& text_ok(t.source_scope, 128)
    &&& text_ok(t.source_epoch_status, 32)
    &&& text_ok(t.source_boundary, 32)
}

/// What the open tables decode to: the producer limits, the admission policy
/// with its inner-record ceiling, the epoch status and the boundary.
pub open spec fn spec_open_tables(t: OpenTables, scope_is_valid: bool) -> Option<
    (ProducerLimits, ProducerAdmissionPolicy, SourceEpochStatus, SourceBoundary),
> {
    if !open_tables_ok(t) || !scope_is_valid {
        None
    } else {
        match spec_decode_limits(open_fields(t)) {
            None => None,
            Some((limits, policy)) => match spec_inner(
                t.heavy_profile_version,
                t.max_inner_records,
                limits.max_records,
                policy,
            ) {
                None => None,
                Some(inner) => match (
                    spec_epoch_status(text_value(t.source_epoch_status)),
                    spec_boundary(text_value(t.source_boundary), true),
                ) {
                    (Some(e), Some(b)) => Some(
                        (limits, ProducerAdmissionPolicy { max_inner_records: inner, ..policy }, e, b),
                    ),
                    _ => None,
                },
            },
        }
    }
}

proof fn lemma_text_value(s: String, raw: Option<Vec<u8>>)
    requires
        text_of(s, raw),
    ensures
        s@ == text_value(raw),
{
    vstd::utf8::encode_utf8_decode_utf8(s@);
}

/// The tables of an `open` call; `scope_is_valid` says whether the
/// observation domain accepts the scope.
pub fn open_tables(t: &OpenTables, scope_is_valid: bool) -> (args: Option<OpenArgs>)
    ensures
        match spec_open_tables(*t, scope_is_valid) {
            None => args is None,
            Some((limits, policy, e, b)) => args matches Some(a) && a.limits == limits && a.policy == policy
                && a.epoch_status == e && a.boundary == b && text_of(a.source_scope, t.source_scope),
        },
{
    let keys_ok = if t.heavy_profile_version.is_some() {
        exact_keys(t.limit_keys.as_slice(), HEAVY_LIMIT_KEYS.as_slice())
    } else {
        exact_keys(t.limit_keys.as_slice(), LIMIT_KEYS.as_slice())
    };
    if !keys_ok || !exact_keys(t.source_keys.as_slice(), SOURCE_KEYS.as_slice()) {
        return None;
    }
    let fields = match (
        t.data_message_bytes,
        t.control_message_bytes,
        t.max_records,
        t.max_content_bytes,
        t.max_canonical_bytes,
        t.max_batches,
        t.max_work,
        t.max_age_millis,
        t.pending_slots,
        t.max_attempts,
        t.max_retry_age_millis,
        t.availability_interval_millis,
    ) {
        (Some(a), Some(b), Some(c), Some(d), Some(e), Some(f), Some(g), Some(h), Some(i), Some(j), Some(k), Some(l)) => OpenLimitFields {
            data_message_bytes: a,
            control_message_bytes: b,
            max_records: c,
            max_content_bytes: d,
            max_canonical_bytes: e,
            max_batches: f,
            max_work: g,
            max_age_millis: h,
            pending_slots: i,
            max_attempts: j,
            max_retry_age_millis: k,
            availability_interval_millis: l,
        },
        _ => return None,
    };
    let scope = match bounded_text(t.source_scope.clone(), 128) { Some(v) => v, None => return None };
    let epoch = match bounded_text(t.source_epoch_status.clone(), 32) { Some(v) => v, None => return None };
    let boundary = match bounded_text(t.source_boundary.clone(), 32) { Some(v) => v, None => return None };
    proof {
        lemma_text_value(scope, t.source_scope);
        lemma_text_value(epoch, t.source_epoch_status);
        lemma_text_value(boundary, t.source_boundary);
    }
    if !scope_is_valid {
        return None;
    }
    let (limits, policy) = match decode_limits(&fields) { Some(v) => v, None => return None };
    let inner = match inner(t.heavy_profile_version, t.max_inner_records, limits.max_records, policy) {
        Some(v) => v,
        None => return None,
    };
    match decode_source(scope.as_str(), epoch.as_str(), boundary.as_str(), scope_is_valid) {
        Some((source_scope, epoch_status, boundary)) => Some(OpenArgs {
            policy: ProducerAdmissionPolicy { max_inner_records: inner, ..policy },
            limits,
            source_scope,
            epoch_status,
            boundary,
        }),
        None => None,
    }
}

} // verus!
