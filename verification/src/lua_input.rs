use vstd::prelude::*;

use crate::lua_open::{boundary, epoch_status, spec_boundary, spec_epoch_status};
use crate::producer_types::{
    ProducerSource, SectionAvailability, SectionCoverage, SectionEvidence, SectionFinishEvidence,
    SectionFreshness, SectionQuality, SectionState, SenderEvidence, SourceBoundary,
    SourceConsistency, SourceEpochStatus,
};
use crate::text::{all_digits, digits_value, has_prefix, parse_digits_u64, text_eq, utf8};

verus! {

/// The fields of a `begin_section` request, as read from the host.
#[derive(Clone, Debug, PartialEq, Eq)]
pub struct BeginFields {
    pub section_key: String,
    pub expected_records: usize,
    pub capture_start_millis: String,
    pub capture_clock: String,
    pub quality: String,
    pub availability: String,
    pub coverage: String,
    pub consistency: String,
    pub stable_identity: bool,
    pub source_epoch_status: String,
    pub source_boundary: String,
}

/// The fields of a `finish_section` request, as read from the host.
#[derive(Clone, Debug, PartialEq, Eq)]
pub struct FinishFields {
    pub capture_end_millis: String,
    pub success: bool,
    pub quality: String,
    pub availability: String,
    pub coverage: String,
    pub consistency: String,
    pub stable_identity: bool,
}

/// A decoded `begin_section` request.
#[derive(Clone, Debug, PartialEq, Eq)]
pub enum BeginInput {
    Clock(SectionEvidence),
    ShipCore { evidence: SectionEvidence, expected_records: usize },
    FactionCensus { evidence: SectionEvidence, expected_records: usize },
}

/// The value of a decimal text: one or more ASCII digits that fit in 64 bits.
pub open spec fn spec_decimal(text: Seq<char>) -> Option<u64> {
    let b = utf8(text);
    if b.len() > 0 && all_digits(b) && digits_value(b) <= u64::MAX { Some(digits_value(b) as u64) } else { None }
}

/// Reads a decimal text.
pub fn decimal(value: &str) -> (number: Option<u64>)
    ensures
        number == spec_decimal(value@),
{
    parse_digits_u64(value.as_bytes())
}

/// The sender evidence of a section opened at `start` with the given claims.
pub open spec fn opening_sender(start: u64, coverage: SectionCoverage, consistency: SourceConsistency, stable: bool, epoch: SourceEpochStatus, boundary: SourceBoundary) -> SenderEvidence {
    SenderEvidence {
        section_state: SectionState {
            capture_start_millis: start,
            capture_end_millis: start,
            freshness: SectionFreshness::Fresh,
            quality: SectionQuality::Unknown,
            availability: SectionAvailability::Available,
            coverage,
        },
        source_epoch_status: epoch,
        source_boundary: boundary,
        source_consistency: consistency,
        stable_identity: stable,
    }
}

/// Section keys that open a ship section.
pub open spec fn spec_is_ship_key(key: Seq<char>) -> bool {
    key == "ship_core"@ || has_prefix(utf8(key), utf8("ship_cargo:g"@))
        || has_prefix(utf8(key), utf8("ship_crew:g"@)) || has_prefix(utf8(key), utf8("ship_loadout:g"@))
}

/// Whether a section key opens a ship section.
pub fn is_ship_key(key: &str) -> (ship: bool)
    ensures
        ship == spec_is_ship_key(key@),
{
    text_eq(key, "ship_core")
        || crate::text::starts_with(key.as_bytes(), "ship_cargo:g".as_bytes())
        || crate::text::starts_with(key.as_bytes(), "ship_crew:g".as_bytes())
        || crate::text::starts_with(key.as_bytes(), "ship_loadout:g".as_bytes())
}

/// The claims a clock section must open with.
pub open spec fn spec_clock_claims(f: BeginFields) -> bool {
    f.section_key@ == "carrier_b_realtime_sample"@ && f.expected_records == 1
        && f.capture_clock@ == "game_time_millis"@ && f.quality@ == "unknown"@
        && f.availability@ == "available"@ && f.coverage@ == "point_measurement"@
        && f.consistency@ == "unknown"@ && !f.stable_identity
}

/// The evidence a clock section opens with, if the request is a valid one.
pub open spec fn spec_clock_begin(f: BeginFields, source: ProducerSource) -> Option<SectionEvidence> {
    if !spec_clock_claims(f) {
        None
    } else {
        match (spec_decimal(f.capture_start_millis@), spec_epoch_status(f.source_epoch_status@), spec_boundary(f.source_boundary@, false)) {
            (Some(start), Some(epoch), Some(b)) => Some(SectionEvidence {
                source_scope: source.source_scope,
                sender: opening_sender(start, SectionCoverage::PointMeasurement, SourceConsistency::Unknown, false, epoch, b),
            }),
            _ => None,
        }
    }
}

/// Decodes a clock section's opening request: the one realtime sample, a
/// single record, a point measurement of unknown quality and consistency.
pub fn clock_begin(f: &BeginFields, source: &ProducerSource) -> (evidence: Option<SectionEvidence>)
    ensures
        evidence == spec_clock_begin(*f, *source),
{
    if !(text_eq(f.section_key.as_str(), "carrier_b_realtime_sample") && f.expected_records == 1
        && text_eq(f.capture_clock.as_str(), "game_time_millis") && text_eq(f.quality.as_str(), "unknown")
        && text_eq(f.availability.as_str(), "available") && text_eq(f.coverage.as_str(), "point_measurement")
        && text_eq(f.consistency.as_str(), "unknown") && !f.stable_identity) {
        return None;
    }
    let start = match decimal(f.capture_start_millis.as_str()) {
        Some(s) => s,
        None => { return None; },
    };
    let epoch = match epoch_status(f.source_epoch_status.as_str()) {
        Some(e) => e,
        None => { return None; },
    };
    let b = match boundary(f.source_boundary.as_str(), false) {
        Some(b) => b,
        None => { return None; },
    };
    Some(SectionEvidence {
        source_scope: source.source_scope.clone(),
        sender: SenderEvidence {
            section_state: SectionState {
                capture_start_millis: start,
                capture_end_millis: start,
                freshness: SectionFreshness::Fresh,
                quality: SectionQuality::Unknown,
                availability: SectionAvailability::Available,
                coverage: SectionCoverage::PointMeasurement,
            },
            source_epoch_status: epoch,
            source_boundary: b,
            source_consistency: SourceConsistency::Unknown,
            stable_identity: false,
        },
    })
}

/// The claims a ship section must open with.
pub open spec fn spec_ship_claims(f: BeginFields) -> bool {
    f.capture_clock@ == "game_time_millis"@ && f.quality@ == "unknown"@
        && f.availability@ == "available"@ && f.coverage@ == "partial"@
        && f.consistency@ == "observed_count_fill_only"@ && f.stable_identity
}

/// The scope a ship section reports under: its faction's ship scope when the
/// key names a faction, else the producer's scope.
pub open spec fn spec_ship_scope(faction: Option<String>, source: ProducerSource) -> Seq<char> {
    match faction {
        Some(name) => "x4:faction:"@ + name@ + ":ships"@,
        None => source.source_scope@,
    }
}

/// What a ship or faction-census opening request decodes to.
pub open spec fn spec_ship_begin(f: BeginFields, source: ProducerSource, key_parses: bool, faction: Option<String>, input: Option<BeginInput>) -> bool {
    let decoded = (spec_decimal(f.capture_start_millis@), spec_epoch_status(f.source_epoch_status@), spec_boundary(f.source_boundary@, true));
    if !spec_ship_claims(f) || decoded.0 is None || decoded.1 is None || decoded.2 is None
        || (f.section_key@ != "faction_census"@ && !key_parses) {
        input is None
    } else {
        let sender = opening_sender(decoded.0->0, SectionCoverage::Partial, SourceConsistency::ObservedCountFillOnly, true, decoded.1->0, decoded.2->0);
        match input {
            Some(BeginInput::FactionCensus { evidence, expected_records }) => f.section_key@ == "faction_census"@
                && expected_records == f.expected_records && evidence.sender == sender
                && evidence.source_scope@ == spec_ship_scope(faction, source),
            Some(BeginInput::ShipCore { evidence, expected_records }) => f.section_key@ != "faction_census"@
                && expected_records == f.expected_records && evidence.sender == sender
                && evidence.source_scope@ == spec_ship_scope(faction, source),
            _ => false,
        }
    }
}

/// Decodes a ship or faction-census section's opening request. `key_parses`
/// says whether the ship-section grammar accepts the key, and `faction` is the
/// faction it names, if any.
pub fn ship_begin(f: &BeginFields, source: &ProducerSource, key_parses: bool, faction: Option<String>) -> (input: Option<BeginInput>)
    ensures
        spec_ship_begin(*f, *source, key_parses, faction, input),
{
    if !(text_eq(f.capture_clock.as_str(), "game_time_millis") && text_eq(f.quality.as_str(), "unknown")
        && text_eq(f.availability.as_str(), "available") && text_eq(f.coverage.as_str(), "partial")
        && text_eq(f.consistency.as_str(), "observed_count_fill_only") && f.stable_identity) {
        return None;
    }
    let start = match decimal(f.capture_start_millis.as_str()) {
        Some(s) => s,
        None => { return None; },
    };
    let epoch = match epoch_status(f.source_epoch_status.as_str()) {
        Some(e) => e,
        None => { return None; },
    };
    let b = match boundary(f.source_boundary.as_str(), true) {
        Some(b) => b,
        None => { return None; },
    };
    let source_scope = match &faction {
        Some(name) => {
            let mut scope = String::from_str("x4:faction:");
            scope.append(name.as_str());
            scope.append(":ships");
            scope
        },
        None => source.source_scope.clone(),
    };
    let evidence = SectionEvidence {
        source_scope,
        sender: SenderEvidence {
            section_state: SectionState {
                capture_start_millis: start,
                capture_end_millis: start,
                freshness: SectionFreshness::Fresh,
                quality: SectionQuality::Unknown,
                availability: SectionAvailability::Available,
                coverage: SectionCoverage::Partial,
            },
            source_epoch_status: epoch,
            source_boundary: b,
            source_consistency: SourceConsistency::ObservedCountFillOnly,
            stable_identity: true,
        },
    };
    if text_eq(f.section_key.as_str(), "faction_census") {
        return Some(BeginInput::FactionCensus { evidence, expected_records: f.expected_records });
    }
    if !key_parses {
        return None;
    }
    Some(BeginInput::ShipCore { evidence, expected_records: f.expected_records })
}

/// Whether an opening request for `key` takes the ship-style claims: ship
/// sections and the faction census do, the clock sample does not.
pub open spec fn spec_ship_style(key: Seq<char>) -> bool {
    spec_is_ship_key(key) || key == "faction_census"@
}

/// What an opening request for the selected section decodes to.
pub open spec fn spec_begin_request(
    f: BeginFields,
    selected_key: Seq<char>,
    source: ProducerSource,
    key_parses: bool,
    faction: Option<String>,
    input: Option<BeginInput>,
) -> bool {
    &&& f.section_key@ != selected_key ==> input is None
    &&& f.section_key@ == selected_key && spec_ship_style(f.section_key@) ==> spec_ship_begin(
        f,
        source,
        key_parses,
        faction,
        input,
    )
    &&& f.section_key@ == selected_key && !spec_ship_style(f.section_key@) ==> input == match spec_clock_begin(f, source) {
        Some(evidence) => Some(BeginInput::Clock(evidence)),
        None => None::<BeginInput>,
    }
}

/// Decodes an opening request for the selected section: the key must be
/// the selected one; ship and faction-census keys take the ship
/// claims, any other key the clock claims. `key_parses` and `faction` are
/// what the ship-section grammar made of the key.
pub fn begin_request(
    f: &BeginFields,
    selected_key: &str,
    source: &ProducerSource,
    key_parses: bool,
    faction: Option<String>,
) -> (input: Option<BeginInput>)
    ensures
        spec_begin_request(*f, selected_key@, *source, key_parses, faction, input),
{
    if !text_eq(f.section_key.as_str(), selected_key) {
        return None;
    }
    if is_ship_key(f.section_key.as_str()) || text_eq(f.section_key.as_str(), "faction_census") {
        ship_begin(f, source, key_parses, faction)
    } else {
        match clock_begin(f, source) {
            Some(evidence) => Some(BeginInput::Clock(evidence)),
            None => None,
        }
    }
}

/// The closing claims of a section, if the request is a valid one.
pub open spec fn spec_finish(f: FinishFields) -> Option<SectionFinishEvidence> {
    let coverage = if f.coverage@ == "point_measurement"@ { Some(SectionCoverage::PointMeasurement) }
        else if f.coverage@ == "partial"@ { Some(SectionCoverage::Partial) } else { None };
    let consistency = if f.consistency@ == "unknown"@ { Some(SourceConsistency::Unknown) }
        else if f.consistency@ == "observed_count_fill_only"@ { Some(SourceConsistency::ObservedCountFillOnly) } else { None };
    match (spec_decimal(f.capture_end_millis@), coverage, consistency) {
        (Some(end), Some(cov), Some(con)) => if f.quality@ == "unknown"@ && f.availability@ == "available"@ {
            Some(SectionFinishEvidence {
                capture_end_millis: end,
                succeeded: f.success,
                quality: SectionQuality::Unknown,
                availability: SectionAvailability::Available,
                coverage: cov,
                consistency: con,
                stable_identity: f.stable_identity,
            })
        } else {
            None
        },
        _ => None,
    }
}

/// Decodes a section's closing request.
pub fn finish(f: &FinishFields) -> (evidence: Option<SectionFinishEvidence>)
    ensures
        evidence == spec_finish(*f),
{
    let end = match decimal(f.capture_end_millis.as_str()) {
        Some(e) => e,
        None => { return None; },
    };
    if !text_eq(f.quality.as_str(), "unknown") || !text_eq(f.availability.as_str(), "available") {
        return None;
    }
    let coverage = if text_eq(f.coverage.as_str(), "point_measurement") {
        SectionCoverage::PointMeasurement
    } else if text_eq(f.coverage.as_str(), "partial") {
        SectionCoverage::Partial
    } else {
        return None;
    };
    let consistency = if text_eq(f.consistency.as_str(), "unknown") {
        SourceConsistency::Unknown
    } else if text_eq(f.consistency.as_str(), "observed_count_fill_only") {
        SourceConsistency::ObservedCountFillOnly
    } else {
        return None;
    };
    Some(SectionFinishEvidence {
        capture_end_millis: end,
        succeeded: f.success,
        quality: SectionQuality::Unknown,
        availability: SectionAvailability::Available,
        coverage,
        consistency,
        stable_identity: f.stable_identity,
    })
}

/// Which decoder a `push_record` request goes to.
#[derive(Clone, Copy, Debug, PartialEq, Eq, Structural)]
pub enum RecordRoute {
    ShipLoadout,
    ShipCrew,
    ShipCargo,
    ShipCore,
    Clock,
}

/// Routes a record by its `profile` field; only ship detail records are
/// charged against the detail copy budget first.
pub fn record_route(profile: Option<&str>) -> (route: (RecordRoute, bool))
    ensures
        route == (match profile {
            Some(p) => if p@ == "ship_loadout"@ { (RecordRoute::ShipLoadout, true) }
                else if p@ == "ship_crew"@ { (RecordRoute::ShipCrew, true) }
                else if p@ == "ship_cargo"@ { (RecordRoute::ShipCargo, true) }
                else if p@ == "ship_core"@ { (RecordRoute::ShipCore, false) }
                else { (RecordRoute::Clock, false) },
            None => (RecordRoute::Clock, false),
        }),
{
    match profile {
        Some(p) => if text_eq(p, "ship_loadout") { (RecordRoute::ShipLoadout, true) }
            else if text_eq(p, "ship_crew") { (RecordRoute::ShipCrew, true) }
            else if text_eq(p, "ship_cargo") { (RecordRoute::ShipCargo, true) }
            else if text_eq(p, "ship_core") { (RecordRoute::ShipCore, false) }
            else { (RecordRoute::Clock, false) },
        None => (RecordRoute::Clock, false),
    }
}

/// The decoded closing claims report success exactly as the request's
/// `success` field does.
pub proof fn law_finish_keeps_success(f: FinishFields)
    ensures
        spec_finish(f) matches Some(e) ==> e.succeeded == f.success,
        spec_finish(f) matches Some(e) ==> e.stable_identity == f.stable_identity,
        spec_finish(f) matches Some(e) ==> (e.coverage == SectionCoverage::PointMeasurement) == (f.coverage@
            == "point_measurement"@),
        spec_finish(f) matches Some(e) ==> (e.consistency == SourceConsistency::Unknown) == (f.consistency@
            == "unknown"@),
        spec_finish(f) matches Some(e) ==> Some(e.capture_end_millis) == spec_decimal(f.capture_end_millis@),
{
}

} // verus!
