use vstd::prelude::*;

use crate::producer::{Producer, ProducerView, Readiness, spec_collection_admitted, spec_remaining_records};
use crate::producer_types::{ProducerError, ProducerOutcome, ProducerState};
use crate::text::{append_decimal, append_text, decimal_text, utf8};

verus! {

/// The name a status report gives a producer state.
pub open spec fn spec_state_name(state: ProducerState) -> Seq<char> {
    match state {
        ProducerState::AwaitingCompatibility => "awaiting_compatibility"@,
        ProducerState::Ready => "ready"@,
        ProducerState::SectionReserved => "section_reserved"@,
        ProducerState::Collecting => "collecting"@,
        ProducerState::PendingStart => "pending_start"@,
        ProducerState::PendingBatch => "pending_batch"@,
        ProducerState::PendingCompletion => "pending_completion"@,
        ProducerState::PausedAfterFailure => "paused_after_failure"@,
        ProducerState::Incompatible => "incompatible"@,
        ProducerState::Closed => "closed"@,
    }
}

/// The name a status report gives a producer state.
pub fn state_name(state: ProducerState) -> (name: &'static str)
    ensures
        name@ == spec_state_name(state),
{
    match state {
        ProducerState::AwaitingCompatibility => "awaiting_compatibility",
        ProducerState::Ready => "ready",
        ProducerState::SectionReserved => "section_reserved",
        ProducerState::Collecting => "collecting",
        ProducerState::PendingStart => "pending_start",
        ProducerState::PendingBatch => "pending_batch",
        ProducerState::PendingCompletion => "pending_completion",
        ProducerState::PausedAfterFailure => "paused_after_failure",
        ProducerState::Incompatible => "incompatible",
        ProducerState::Closed => "closed",
    }
}

/// The status code the host sees for a producer error.
pub open spec fn spec_error_code(error: ProducerError) -> int {
    match error {
        ProducerError::DataLimit => -12,
        ProducerError::ControlLimit => -13,
        ProducerError::StaleEpoch => -16,
        ProducerError::Incompatible => 10,
        ProducerError::ClockUnavailable => -22,
        ProducerError::InvalidInput => -20,
        ProducerError::InvalidTransition => -21,
    }
}

/// The status code the host sees for a producer error.
pub fn error_code(error: ProducerError) -> (code: isize)
    ensures
        code == spec_error_code(error),
{
    match error {
        ProducerError::DataLimit => -12,
        ProducerError::ControlLimit => -13,
        ProducerError::StaleEpoch => -16,
        ProducerError::Incompatible => 10,
        ProducerError::ClockUnavailable => -22,
        ProducerError::InvalidInput => -20,
        ProducerError::InvalidTransition => -21,
    }
}

/// The status code the host sees for a producer outcome.
pub open spec fn spec_outcome_code(outcome: ProducerOutcome) -> int {
    match outcome {
        ProducerOutcome::Accepted => 0,
        ProducerOutcome::Progress => 1,
        ProducerOutcome::CapacityUnavailable => 2,
        ProducerOutcome::NoControl => 3,
        ProducerOutcome::Received => 4,
        ProducerOutcome::Committed => 5,
        ProducerOutcome::PermanentlyRejected => 6,
        ProducerOutcome::Ambiguous => 7,
        ProducerOutcome::PausedAfterFailure => 8,
        ProducerOutcome::Disconnected => 9,
        ProducerOutcome::RestartRequired => 10,
    }
}

/// The status code the host sees for a producer outcome.
pub fn outcome_code(outcome: ProducerOutcome) -> (code: isize)
    ensures
        code == spec_outcome_code(outcome),
{
    match outcome {
        ProducerOutcome::Accepted => 0,
        ProducerOutcome::Progress => 1,
        ProducerOutcome::CapacityUnavailable => 2,
        ProducerOutcome::NoControl => 3,
        ProducerOutcome::Received => 4,
        ProducerOutcome::Committed => 5,
        ProducerOutcome::PermanentlyRejected => 6,
        ProducerOutcome::Ambiguous => 7,
        ProducerOutcome::PausedAfterFailure => 8,
        ProducerOutcome::Disconnected => 9,
        ProducerOutcome::RestartRequired => 10,
    }
}

/// How a status report describes the transport's connection.
pub open spec fn spec_connection_word(connected: bool, closed: bool) -> Seq<char> {
    if connected {
        "connected"@
    } else if closed {
        "closed"@
    } else {
        "waiting"@
    }
}

/// How a status report describes the transport's connection.
pub fn connection_word(connected: bool, closed: bool) -> (word: &'static str)
    ensures
        word@ == spec_connection_word(connected, closed),
{
    if connected {
        "connected"
    } else if closed {
        "closed"
    } else {
        "waiting"
    }
}

/// The capacity field of a status report: whether a collection would be
/// admitted, a colon, and how many pipe operations are in flight.
pub open spec fn spec_capacity_field(admitted: bool, owners: usize) -> Seq<u8> {
    utf8(if admitted { "available"@ } else { "occupied"@ }) + utf8(":"@) + decimal_text(owners as nat)
}

/// The selection field of a status report: the producer's selected key once
/// it is ready to collect, "none" before.
pub open spec fn spec_selection_field(v: ProducerView) -> Seq<char> {
    if v.readiness == Readiness::Ready { v.selected_key } else { "none"@ }
}

/// The eight text fields of a status report, in order: the producer state,
/// the connection, the clock reading in milliseconds, the capacity field, the
/// producer's incarnation, the selected section, the records the section may
/// still take, and the collection revision.
pub open spec fn spec_status_fields(
    v: ProducerView,
    connected: bool,
    closed: bool,
    millis: u64,
    owners: usize,
) -> Seq<Seq<u8>> {
    seq![
        utf8(spec_state_name(v.state)),
        utf8(spec_connection_word(connected, closed)),
        decimal_text(millis as nat),
        spec_capacity_field(spec_collection_admitted(v), owners),
        utf8(v.source.producer_incarnation@),
        utf8(spec_selection_field(v)),
        decimal_text(spec_remaining_records(v)),
        decimal_text(v.revision as nat),
    ]
}

/// The text fields of a status report on `producer`, as bytes.
pub fn status_fields(producer: &Producer, connected: bool, closed: bool, millis: u64, owners: usize)
    -> (fields: Vec<Vec<u8>>)
    ensures
        fields@.len() == 8,
        forall|i: int| 0 <= i < 8 ==> #[trigger] fields@[i]@ == spec_status_fields(
            producer@,
            connected,
            closed,
            millis,
            owners,
        )[i],
{
    let mut name: Vec<u8> = Vec::new();
    append_text(&mut name, state_name(producer.state()));
    let mut connection: Vec<u8> = Vec::new();
    append_text(&mut connection, connection_word(connected, closed));
    let mut clock: Vec<u8> = Vec::new();
    append_decimal(&mut clock, millis);
    let mut capacity: Vec<u8> = Vec::new();
    append_text(&mut capacity, if producer.collection_admitted() { "available" } else { "occupied" });
    append_text(&mut capacity, ":");
    append_decimal(&mut capacity, owners as u64);
    let mut owner: Vec<u8> = Vec::new();
    append_text(&mut owner, producer.source().producer_incarnation.as_str());
    let (selected, remaining) = producer.selection_status();
    let mut selection: Vec<u8> = Vec::new();
    append_text(&mut selection, selected);
    let mut room: Vec<u8> = Vec::new();
    append_decimal(&mut room, remaining as u64);
    let mut revision: Vec<u8> = Vec::new();
    append_decimal(&mut revision, producer.collection_revision());
    let fields = vec![name, connection, clock, capacity, owner, selection, room, revision];
    fields
}

/// Distinct outcomes report distinct codes, so the host can tell them apart.
pub proof fn law_outcome_codes_distinct(a: ProducerOutcome, b: ProducerOutcome)
    ensures
        spec_outcome_code(a) == spec_outcome_code(b) ==> a == b,
{
}

/// Every producer error reports a code no successful outcome reports, except
/// that an incompatible bridge reads as a required restart.
pub proof fn law_error_codes_apart_from_outcomes(e: ProducerError, o: ProducerOutcome)
    ensures
        spec_error_code(e) == spec_outcome_code(o) ==> e == ProducerError::Incompatible && o == ProducerOutcome::RestartRequired,
{
}

/// Each producer outcome reports its fixed status code: accepted 0,
/// progress 1, capacity unavailable 2, no control 3, received 4, committed
/// 5, permanently rejected 6, ambiguous 7, paused after failure 8,
/// disconnected 9, restart required 10.
pub proof fn law_outcome_code_table()
    ensures
        spec_outcome_code(ProducerOutcome::Accepted) == 0,
        spec_outcome_code(ProducerOutcome::Progress) == 1,
        spec_outcome_code(ProducerOutcome::CapacityUnavailable) == 2,
        spec_outcome_code(ProducerOutcome::NoControl) == 3,
        spec_outcome_code(ProducerOutcome::Received) == 4,
        spec_outcome_code(ProducerOutcome::Committed) == 5,
        spec_outcome_code(ProducerOutcome::PermanentlyRejected) == 6,
        spec_outcome_code(ProducerOutcome::Ambiguous) == 7,
        spec_outcome_code(ProducerOutcome::PausedAfterFailure) == 8,
        spec_outcome_code(ProducerOutcome::Disconnected) == 9,
        spec_outcome_code(ProducerOutcome::RestartRequired) == 10,
{
}

/// Each producer error reports its fixed status code: data limit -12,
/// control limit -13, stale epoch -16, incompatible 10, clock unavailable
/// -22, invalid input -20, invalid transition -21.
pub proof fn law_error_code_table()
    ensures
        spec_error_code(ProducerError::DataLimit) == -12,
        spec_error_code(ProducerError::ControlLimit) == -13,
        spec_error_code(ProducerError::StaleEpoch) == -16,
        spec_error_code(ProducerError::Incompatible) == 10,
        spec_error_code(ProducerError::ClockUnavailable) == -22,
        spec_error_code(ProducerError::InvalidInput) == -20,
        spec_error_code(ProducerError::InvalidTransition) == -21,
{
}

} // verus!
