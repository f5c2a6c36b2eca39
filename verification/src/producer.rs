use vstd::prelude::*;

use crate::producer_types::{
    FactionCensusRecord, PreparedRecord, ProducerAdmissionPolicy, ProducerError, ProducerLimits,
    ProducerOutcome, ProducerProfile, ProducerSource, ProducerState, RecordView, SectionCoverage,
    SectionEvidence, SectionFinishEvidence, ShipCoreRecord, SourceConsistency, TypedFact,
};
use crate::producer_types::{ProducerFeedback, ShipSectionKind};
use crate::text::text_eq;
use crate::text::{decimal_text, hex_text, utf8};

verus! {

/// How far the compatibility handshake with the bridge has come.
#[derive(Clone, Copy, Debug, PartialEq, Eq, Structural)]
pub enum Readiness {
    Awaiting,
    Handshake,
    Intent,
    Ready,
}

/// The one message a producer has outstanding, as a mathematical value.
pub struct PendingView {
    pub bytes: Seq<u8>,
    pub id: Seq<u8>,
    pub handed_off: bool,
    pub attempts: u8,
    pub first_attempt_at: u64,
}

/// A producer as a mathematical value.
pub struct ProducerView {
    pub policy: ProducerAdmissionPolicy,
    pub last_progress_at: u64,
    pub section_started_at: Option<u64>,
    pub limits: ProducerLimits,
    pub source: ProducerSource,
    pub state: ProducerState,
    pub readiness: Readiness,
    pub revision: u64,
    pub evidence: Option<SectionEvidence>,
    pub profile: ProducerProfile,
    pub selected_key: Seq<char>,
    pub intent_key: Seq<char>,
    pub expected_records: usize,
    pub records: Seq<RecordView>,
    pub finished: bool,
    pub section_key: Option<Seq<char>>,
    pub next_batch_index: usize,
    pub emitted_records: usize,
    pub pending: Option<PendingView>,
    pub connection_generation: u64,
}

/// A freshly created outstanding message.
pub open spec fn fresh_pending(bytes: Seq<u8>, id: Seq<u8>, now: u64) -> PendingView {
    PendingView { bytes, id, handed_off: false, attempts: 1, first_attempt_at: now }
}

/// The identifier of the compatibility handshake message.
pub open spec fn bootstrap_id() -> Seq<u8> {
    utf8("bootstrap"@)
}

/// The section key a producer collects before the bridge names another.
pub open spec fn default_section_key() -> Seq<char> {
    "carrier_b_realtime_sample"@
}

/// A producer that has just sent nothing but is about to offer its handshake.
pub open spec fn spec_initial(limits: ProducerLimits, source: ProducerSource, now: u64, bootstrap: Seq<u8>) -> ProducerView {
    ProducerView {
        policy: ProducerAdmissionPolicy { max_inner_records: limits.max_records, max_attempts: 2, max_age_millis: 5000 },
        last_progress_at: now,
        section_started_at: None,
        limits,
        source,
        state: ProducerState::AwaitingCompatibility,
        readiness: Readiness::Awaiting,
        revision: 1,
        evidence: None,
        profile: ProducerProfile::Clock,
        selected_key: default_section_key(),
        intent_key: default_section_key(),
        expected_records: 0,
        records: Seq::empty(),
        finished: false,
        section_key: None,
        next_batch_index: 0,
        emitted_records: 0,
        pending: Some(fresh_pending(bootstrap, bootstrap_id(), now)),
        connection_generation: 0,
    }
}

/// The producer with its unfinished section and outstanding message dropped.
pub open spec fn spec_discard(v: ProducerView) -> ProducerView {
    ProducerView {
        evidence: None,
        expected_records: 0,
        section_started_at: None,
        records: Seq::empty(),
        finished: false,
        section_key: None,
        next_batch_index: 0,
        emitted_records: 0,
        pending: None,
        ..v
    }
}

/// The bytes of the outstanding message while it still waits for a handoff.
pub open spec fn spec_pending_bytes(v: ProducerView) -> Option<Seq<u8>> {
    match v.pending {
        Some(p) => if !p.handed_off { Some(p.bytes) } else { None },
        None => None,
    }
}

/// Whether a new collection could be admitted now.
pub open spec fn spec_collection_admitted(v: ProducerView) -> bool {
    (v.state == ProducerState::Ready || v.state == ProducerState::SectionReserved || v.state == ProducerState::Collecting)
        && v.readiness == Readiness::Ready && v.pending is None && !v.finished
}

/// Record slots left in the selected collection.
pub open spec fn spec_remaining_records(v: ProducerView) -> nat {
    let used = v.next_batch_index + v.records.len();
    if used >= v.limits.max_records { 0 } else { (v.limits.max_records - used) as nat }
}

/// What `mark_local_handoff` does.
pub open spec fn spec_mark_local_handoff(v: ProducerView, now: u64) -> (ProducerView, Result<(), ProducerError>) {
    match v.pending {
        None => (v, Err(ProducerError::InvalidTransition)),
        Some(p) => if p.handed_off {
            (v, Err(ProducerError::InvalidTransition))
        } else {
            let first = if p.attempts == 1 { now } else { p.first_attempt_at };
            (ProducerView { pending: Some(PendingView { handed_off: true, first_attempt_at: first, ..p }), ..v }, Ok(()))
        },
    }
}

/// What `fail_section` does.
pub open spec fn spec_fail_section(v: ProducerView) -> ProducerView {
    ProducerView { state: ProducerState::PausedAfterFailure, ..spec_discard(v) }
}

/// What `close` does.
pub open spec fn spec_close(v: ProducerView) -> ProducerView {
    ProducerView { state: ProducerState::Closed, ..spec_discard(v) }
}

/// What `begin` does once the profile-specific checks passed.
pub open spec fn spec_begin(v: ProducerView, evidence: SectionEvidence, expected: usize) -> (ProducerView, Result<(), ProducerError>) {
    if v.state != ProducerState::Ready || v.readiness != Readiness::Ready {
        (v, Err(ProducerError::InvalidTransition))
    } else {
        (ProducerView { evidence: Some(evidence), expected_records: expected, state: ProducerState::SectionReserved, ..v }, Ok(()))
    }
}

/// An empty section is acceptable only with a known-empty coverage backed by
/// a consistency mechanism.
pub open spec fn spec_qualified_empty(evidence: SectionEvidence) -> bool {
    evidence.sender.section_state.coverage == SectionCoverage::KnownEmpty
        && (evidence.sender.source_consistency == SourceConsistency::Barrier
            || evidence.sender.source_consistency == SourceConsistency::VersionedManifest
            || evidence.sender.source_consistency == SourceConsistency::EventInterval)
}

/// What `push` does with a prepared record.
pub open spec fn spec_push(v: ProducerView, record: RecordView) -> (ProducerView, Result<(), ProducerError>) {
    if !(v.state == ProducerState::SectionReserved || v.state == ProducerState::Collecting)
        || v.records.len() >= v.expected_records {
        (v, Err(ProducerError::InvalidTransition))
    } else {
        (ProducerView { records: v.records.push(record), state: ProducerState::Collecting, ..v }, Ok(()))
    }
}

/// Whether a clock fact is unusable: its raw value is empty, too long or not
/// a finite number, or it is not the one fact the clock profile carries.
pub open spec fn spec_invalid_clock(fact: TypedFact, max_raw_bytes: usize, raw_is_finite_number: bool) -> bool {
    fact.raw_value@.len() == 0
        || utf8(fact.raw_value@).len() > max_raw_bytes
        || !raw_is_finite_number
        || fact.entity_id@ != "x4:runtime:realtime_clock"@
        || fact.getter@ != "GetCurRealTime"@
        || fact.semantics@ != "opaque_runtime_number"@
        || fact.observation_version != 1
}

/// The canonical content of a clock fact.
pub open spec fn spec_clock_content(fact: TypedFact) -> Seq<u8> {
    utf8("getter="@) + utf8(fact.getter@) + utf8("\nraw_value="@) + utf8(fact.raw_value@)
        + utf8("\nsemantics="@) + utf8(fact.semantics@)
}

/// The text of a boolean.
pub open spec fn bool_text(b: bool) -> Seq<u8> {
    if b { utf8("true"@) } else { utf8("false"@) }
}

/// The canonical content of a faction census row.
pub open spec fn spec_census_content(r: FactionCensusRecord) -> Seq<u8> {
    utf8("discovery_revision="@) + decimal_text(r.discovery_revision as nat)
        + utf8("\ndisposition="@) + utf8(r.disposition@)
        + utf8("\nreason="@) + utf8(r.reason@)
        + utf8("\norigin="@) + utf8(r.origin@)
        + utf8("\nsource_evidence="@) + utf8(r.source_evidence@)
        + utf8("\nmind_candidate="@) + bool_text(r.mind_candidate)
}

/// The canonical content of a ship core record.
pub open spec fn spec_ship_core_content(r: ShipCoreRecord) -> Seq<u8> {
    utf8("profile=ship_core\nidentity="@) + utf8(r.identity@)
        + utf8("\nowner="@) + utf8(r.owner@)
        + utf8("\ntype="@) + utf8(r.ship_type@)
        + utf8("\nclass="@) + utf8(r.class@)
        + utf8("\nlocation="@) + utf8(r.location@)
}

/// The entity id of a ship.
pub open spec fn ship_entity(identity: Seq<char>) -> Seq<u8> {
    utf8("x4:ship:"@) + utf8(identity)
}

/// What `finish_section` does.
pub open spec fn spec_finish_section(v: ProducerView, finish: SectionFinishEvidence) -> (ProducerView, Result<(), ProducerError>) {
    if !(v.state == ProducerState::SectionReserved || v.state == ProducerState::Collecting)
        || v.records.len() != v.expected_records {
        (v, Err(ProducerError::InvalidTransition))
    } else {
        match v.evidence {
            None => (v, Err(ProducerError::InvalidTransition)),
            Some(e) => {
                let st = e.sender.section_state;
                if !finish.succeeded
                    || finish.capture_end_millis < st.capture_start_millis
                    || finish.quality != st.quality
                    || finish.availability != st.availability
                    || finish.coverage != st.coverage
                    || finish.consistency != e.sender.source_consistency
                    || finish.stable_identity != e.sender.stable_identity {
                    (spec_fail_section(v), Err(ProducerError::InvalidInput))
                } else {
                    let closed = SectionEvidence {
                        sender: crate::producer_types::SenderEvidence {
                            section_state: crate::producer_types::SectionState { capture_end_millis: finish.capture_end_millis, ..st },
                            ..e.sender
                        },
                        ..e
                    };
                    (ProducerView { evidence: Some(closed), finished: true, ..v }, Ok(()))
                }
            },
        }
    }
}

/// The identifier of the message that opens a section.
pub open spec fn start_id(key: Seq<char>, revision: u64) -> Seq<u8> {
    utf8("message:start:"@) + utf8(key) + utf8(":"@) + decimal_text(revision as nat)
}

/// The identifier of the message that completes a section.
pub open spec fn complete_id(key: Seq<char>, revision: u64) -> Seq<u8> {
    utf8("message:complete:"@) + utf8(key) + utf8(":"@) + decimal_text(revision as nat)
}

/// What `progress` does, given the encoded opening message of the section.
pub open spec fn spec_progress(v: ProducerView, work: usize, now: u64, start: Result<Seq<u8>, ProducerError>) -> (ProducerView, Result<ProducerOutcome, ProducerError>) {
    if v.pending is Some {
        (v, Ok(ProducerOutcome::CapacityUnavailable))
    } else if v.state != ProducerState::Collecting || !v.finished || work == 0 || work > v.limits.max_work {
        (v, Err(ProducerError::InvalidTransition))
    } else if v.evidence is None {
        (v, Err(ProducerError::InvalidTransition))
    } else {
        match start {
            Err(e) => (v, Err(e)),
            Ok(bytes) => (
                ProducerView {
                    pending: Some(fresh_pending(bytes, start_id(v.intent_key, v.revision), now)),
                    section_key: Some(v.intent_key),
                    next_batch_index: 0,
                    state: ProducerState::PendingStart,
                    ..v
                },
                Ok(ProducerOutcome::Progress),
            ),
        }
    }
}

/// What `observe_connection` does, given the handshake encoded for the source
/// one transport epoch later.
pub open spec fn spec_observe_connection(v: ProducerView, generation: u64, now: u64, bootstrap: Result<Seq<u8>, ProducerError>) -> (ProducerView, Result<(), ProducerError>) {
    if generation == 0 || generation <= v.connection_generation {
        (v, Ok(()))
    } else if v.connection_generation == 0 {
        (ProducerView { connection_generation: generation, ..v }, Ok(()))
    } else if v.source.transport_epoch == u64::MAX {
        (v, Err(ProducerError::StaleEpoch))
    } else {
        let incomplete = !(v.state == ProducerState::AwaitingCompatibility || v.state == ProducerState::Ready);
        if incomplete && v.revision == u64::MAX {
            (v, Err(ProducerError::InvalidTransition))
        } else {
            match bootstrap {
                Err(e) => (v, Err(e)),
                Ok(bytes) => {
                    let d = spec_discard(v);
                    (
                        ProducerView {
                            source: ProducerSource { transport_epoch: (v.source.transport_epoch + 1) as u64, ..v.source },
                            revision: if incomplete { (v.revision + 1) as u64 } else { v.revision },
                            connection_generation: generation,
                            pending: Some(fresh_pending(bytes, bootstrap_id(), now)),
                            readiness: Readiness::Awaiting,
                            state: ProducerState::AwaitingCompatibility,
                            ..d
                        },
                        Ok(()),
                    )
                },
            }
        }
    }
}

/// What `configure_admission` does.
pub open spec fn spec_configure_admission(v: ProducerView, policy: ProducerAdmissionPolicy) -> (ProducerView, Result<(), ProducerError>) {
    if policy.max_inner_records == 0 || policy.max_inner_records > v.limits.max_records
        || policy.max_attempts == 0 || policy.max_attempts > 2 || policy.max_age_millis == 0 {
        (v, Err(ProducerError::InvalidInput))
    } else {
        (ProducerView { policy, ..v }, Ok(()))
    }
}

/// What `observe_progress` does with a clock reading.
pub open spec fn spec_observe_progress(v: ProducerView, now: u64) -> (ProducerView, Result<(), ProducerError>) {
    if now < v.last_progress_at {
        (v, Err(ProducerError::ClockUnavailable))
    } else {
        let v1 = ProducerView { last_progress_at: now, ..v };
        if v1.section_started_at matches Some(started) && now - started > v1.policy.max_age_millis {
            (spec_fail_section(v1), Err(ProducerError::DataLimit))
        } else if (v1.state == ProducerState::SectionReserved || v1.state == ProducerState::Collecting) && v1.section_started_at is None {
            (ProducerView { section_started_at: Some(now), ..v1 }, Ok(()))
        } else {
            (v1, Ok(()))
        }
    }
}


/// The one message a producer has outstanding.
struct Pending {
    bytes: Vec<u8>,
    id: Vec<u8>,
    handed_off: bool,
    attempts: u8,
    first_attempt_at: u64,
}

impl Pending {
    closed spec fn view(&self) -> PendingView {
        PendingView {
            bytes: self.bytes@,
            id: self.id@,
            handed_off: self.handed_off,
            attempts: self.attempts,
            first_attempt_at: self.first_attempt_at,
        }
    }

    fn new(bytes: Vec<u8>, id: Vec<u8>, now: u64) -> (pending: Self)
        ensures
            pending.view() == fresh_pending(bytes@, id@, now),
    {
        Pending { bytes, id, handed_off: false, attempts: 1, first_attempt_at: now }
    }
}

/// Collects one section of observations at a time and turns it into the
/// start, batch and completion messages the bridge acknowledges one by one.
pub struct Producer {
    policy: ProducerAdmissionPolicy,
    last_progress_at: u64,
    section_started_at: Option<u64>,
    limits: ProducerLimits,
    source: ProducerSource,
    state: ProducerState,
    readiness: Readiness,
    revision: u64,
    evidence: Option<SectionEvidence>,
    profile: ProducerProfile,
    selected_key: String,
    intent_key: String,
    expected_records: usize,
    records: Vec<PreparedRecord>,
    finished: bool,
    section_key: Option<String>,
    next_batch_index: usize,
    emitted_records: usize,
    pending: Option<Pending>,
    connection_generation: u64,
}

impl View for Producer {
    type V = ProducerView;

    closed spec fn view(&self) -> ProducerView {
        ProducerView {
            policy: self.policy,
            last_progress_at: self.last_progress_at,
            section_started_at: self.section_started_at,
            limits: self.limits,
            source: self.source,
            state: self.state,
            readiness: self.readiness,
            revision: self.revision,
            evidence: self.evidence,
            profile: self.profile,
            selected_key: self.selected_key@,
            intent_key: self.intent_key@,
            expected_records: self.expected_records,
            records: self.records@.map_values(|r: PreparedRecord| r@),
            finished: self.finished,
            section_key: match self.section_key { Some(k) => Some(k@), None => None },
            next_batch_index: self.next_batch_index,
            emitted_records: self.emitted_records,
            pending: match self.pending { Some(p) => Some(p.view()), None => None },
            connection_generation: self.connection_generation,
        }
    }
}

fn text_bytes(text: &str) -> (bytes: Vec<u8>)
    ensures
        bytes@ == utf8(text@),
{
    let mut out: Vec<u8> = Vec::new();
    crate::text::append_text(&mut out, text);
    out
}

impl Producer {
    /// A producer for `source` whose first outstanding message is the
    /// compatibility handshake `bootstrap` (the handshake encoded for `source`
    /// within the control ceiling, or the reason it could not be encoded).
    pub fn new(limits: ProducerLimits, source: ProducerSource, now_millis: u64, bootstrap: Result<Vec<u8>, ProducerError>) -> (producer: Result<Self, ProducerError>)
        ensures
            !limits.spec_valid() ==> producer == Err::<Self, ProducerError>(ProducerError::InvalidInput),
            limits.spec_valid() ==> match bootstrap {
                Err(e) => producer == Err::<Self, ProducerError>(e),
                Ok(bytes) => producer matches Ok(p) && p@ == spec_initial(limits, source, now_millis, bytes@),
            },
    {
        if !limits.valid() {
            return Err(ProducerError::InvalidInput);
        }
        let bytes = match bootstrap {
            Ok(bytes) => bytes,
            Err(e) => { return Err(e); },
        };
        let producer = Producer {
            policy: ProducerAdmissionPolicy { max_inner_records: limits.max_records, max_attempts: 2, max_age_millis: 5000 },
            last_progress_at: now_millis,
            section_started_at: None,
            limits,
            source,
            state: ProducerState::AwaitingCompatibility,
            readiness: Readiness::Awaiting,
            revision: 1,
            evidence: None,
            profile: ProducerProfile::Clock,
            selected_key: String::from_str("carrier_b_realtime_sample"),
            intent_key: String::from_str("carrier_b_realtime_sample"),
            expected_records: 0,
            records: Vec::new(),
            finished: false,
            section_key: None,
            next_batch_index: 0,
            emitted_records: 0,
            pending: Some(Pending::new(bytes, text_bytes("bootstrap"), now_millis)),
            connection_generation: 0,
        };
        assert(producer@.records =~= Seq::<RecordView>::empty());
        Ok(producer)
    }

    /// Where the producer stands.
    pub fn state(&self) -> (state: ProducerState)
        ensures
            state == self@.state,
    {
        self.state
    }

    /// The source the producer speaks for.
    pub fn source(&self) -> (source: &ProducerSource)
        ensures
            *source == self@.source,
    {
        &self.source
    }

    /// The ceilings the producer works within.
    pub fn limits(&self) -> (limits: ProducerLimits)
        ensures
            limits == self@.limits,
    {
        self.limits
    }

    /// The outstanding message while it still waits to be handed to the transport.
    pub fn pending_bytes(&self) -> (bytes: Option<&[u8]>)
        ensures
            match bytes {
                Some(b) => spec_pending_bytes(self@) == Some(b@),
                None => spec_pending_bytes(self@) is None,
            },
    {
        match &self.pending {
            Some(p) => if !p.handed_off { Some(p.bytes.as_slice()) } else { None },
            None => None,
        }
    }

    /// The outstanding message, handed off or not.
    pub fn pending_message(&self) -> (bytes: Option<&[u8]>)
        ensures
            match bytes {
                Some(b) => self@.pending matches Some(p) && p.bytes == b@,
                None => self@.pending is None,
            },
    {
        match &self.pending {
            Some(p) => Some(p.bytes.as_slice()),
            None => None,
        }
    }

    /// Whether a new collection could be admitted now.
    pub fn collection_admitted(&self) -> (admitted: bool)
        ensures
            admitted == spec_collection_admitted(self@),
    {
        (self.state == ProducerState::Ready || self.state == ProducerState::SectionReserved
            || self.state == ProducerState::Collecting) && self.readiness == Readiness::Ready
            && self.pending.is_none() && !self.finished
    }

    /// The section key the producer will accept next (`none` until the bridge
    /// has granted demand) and the record slots left in it.
    pub fn selection_status(&self) -> (status: (&str, usize))
        ensures
            status.0@ == (if self@.readiness == Readiness::Ready { self@.selected_key } else { "none"@ }),
            status.1 == spec_remaining_records(self@),
    {
        proof {
            assert(self.records@.len() == self@.records.len());
        }
        let used = self.next_batch_index.saturating_add(self.records.len());
        let remaining = self.limits.max_records.saturating_sub(used);
        if self.readiness == Readiness::Ready {
            (self.selected_key.as_str(), remaining)
        } else {
            ("none", remaining)
        }
    }

    /// Records that the outstanding message was handed to the transport.
    pub fn mark_local_handoff(&mut self, now_millis: u64) -> (result: Result<(), ProducerError>)
        ensures
            (final(self)@, result) == spec_mark_local_handoff(old(self)@, now_millis),
    {
        match &mut self.pending {
            None => Err(ProducerError::InvalidTransition),
            Some(p) => {
                if p.handed_off {
                    return Err(ProducerError::InvalidTransition);
                }
                if p.attempts == 1 {
                    p.first_attempt_at = now_millis;
                }
                p.handed_off = true;
                Ok(())
            },
        }
    }

    fn discard_incomplete(&mut self)
        ensures
            final(self)@ == spec_discard(old(self)@),
    {
        self.evidence = None;
        self.expected_records = 0;
        self.section_started_at = None;
        self.records = Vec::new();
        self.finished = false;
        self.section_key = None;
        self.next_batch_index = 0;
        self.emitted_records = 0;
        self.pending = None;
        assert(self@.records =~= Seq::<RecordView>::empty());
    }

    /// Drops the unfinished section and pauses until the bridge intervenes.
    pub fn fail_section(&mut self)
        ensures
            final(self)@ == spec_fail_section(old(self)@),
    {
        self.discard_incomplete();
        self.state = ProducerState::PausedAfterFailure;
    }

    /// Drops the unfinished section and stops for good.
    pub fn close(&mut self)
        ensures
            final(self)@ == spec_close(old(self)@),
    {
        self.discard_incomplete();
        self.state = ProducerState::Closed;
    }

    /// Starts over for a new `source`, keeping the admission policy and the
    /// section revision; `bootstrap` is the handshake encoded for `source`.
    pub fn reset(&mut self, source: ProducerSource, now_millis: u64, bootstrap: Result<Vec<u8>, ProducerError>) -> (result: Result<(), ProducerError>)
        ensures
            !old(self)@.limits.spec_valid() ==> *final(self) == *old(self) && result == Err::<(), ProducerError>(ProducerError::InvalidInput),
            old(self)@.limits.spec_valid() ==> match bootstrap {
                Err(e) => *final(self) == *old(self) && result == Err::<(), ProducerError>(e),
                Ok(bytes) => result is Ok && final(self)@ == (ProducerView {
                    policy: old(self)@.policy,
                    revision: old(self)@.revision,
                    ..spec_initial(old(self)@.limits, source, now_millis, bytes@)
                }),
            },
    {
        let mut replacement = match Self::new(self.limits, source, now_millis, bootstrap) {
            Ok(p) => p,
            Err(e) => { return Err(e); },
        };
        replacement.policy = self.policy;
        replacement.revision = self.revision;
        *self = replacement;
        Ok(())
    }

    fn begin(&mut self, evidence: SectionEvidence, expected_records: usize) -> (result: Result<(), ProducerError>)
        ensures
            (final(self)@, result) == spec_begin(old(self)@, evidence, expected_records),
    {
        if self.state != ProducerState::Ready || self.readiness != Readiness::Ready {
            return Err(ProducerError::InvalidTransition);
        }
        self.evidence = Some(evidence);
        self.expected_records = expected_records;
        self.state = ProducerState::SectionReserved;
        Ok(())
    }

    /// Opens a clock section of exactly one record.
    pub fn begin_section(&mut self, evidence: SectionEvidence) -> (result: Result<(), ProducerError>)
        ensures
            old(self)@.profile != ProducerProfile::Clock ==> *final(self) == *old(self) && result == Err::<(), ProducerError>(ProducerError::InvalidTransition),
            old(self)@.profile == ProducerProfile::Clock ==> (final(self)@, result) == spec_begin(old(self)@, evidence, 1),
    {
        if self.profile != ProducerProfile::Clock {
            return Err(ProducerError::InvalidTransition);
        }
        self.begin(evidence, 1)
    }

    /// Opens a ship-core section announcing `expected_records` rows.
    pub fn begin_ship_section(&mut self, evidence: SectionEvidence, expected_records: usize) -> (result: Result<(), ProducerError>)
        ensures
            ({
                let v = old(self)@;
                if v.profile != ProducerProfile::ShipCore || expected_records > v.limits.max_records
                    || expected_records > v.limits.max_batches
                    || (expected_records == 0 && !spec_qualified_empty(evidence)) {
                    *final(self) == *old(self) && result == Err::<(), ProducerError>(ProducerError::InvalidInput)
                } else {
                    (final(self)@, result) == spec_begin(v, evidence, expected_records)
                }
            }),
    {
        if self.profile != ProducerProfile::ShipCore || expected_records > self.limits.max_records
            || expected_records > self.limits.max_batches
            || (expected_records == 0 && !qualified_empty(&evidence)) {
            return Err(ProducerError::InvalidInput);
        }
        self.begin(evidence, expected_records)
    }

    /// Opens a faction census announcing `expected_records` rows.
    pub fn begin_faction_census(&mut self, evidence: SectionEvidence, expected_records: usize) -> (result: Result<(), ProducerError>)
        ensures
            ({
                let v = old(self)@;
                if v.profile != ProducerProfile::FactionCensus || expected_records > v.limits.max_records {
                    *final(self) == *old(self) && result == Err::<(), ProducerError>(ProducerError::InvalidInput)
                } else {
                    (final(self)@, result) == spec_begin(v, evidence, expected_records)
                }
            }),
    {
        if self.profile != ProducerProfile::FactionCensus || expected_records > self.limits.max_records {
            return Err(ProducerError::InvalidInput);
        }
        self.begin(evidence, expected_records)
    }

    fn push(&mut self, record: PreparedRecord) -> (result: Result<(), ProducerError>)
        ensures
            (final(self)@, result) == spec_push(old(self)@, record@),
    {
        if !(self.state == ProducerState::SectionReserved || self.state == ProducerState::Collecting)
            || self.records.len() >= self.expected_records {
            return Err(ProducerError::InvalidTransition);
        }
        let ghost old_records = self.records@;
        self.records.push(record);
        assert(self.records@.map_values(|r: PreparedRecord| r@) =~= old_records.map_values(|r: PreparedRecord| r@).push(record@));
        self.state = ProducerState::Collecting;
        Ok(())
    }
}

impl Producer {
    /// Adds the one clock fact of a clock section; `raw_is_finite_number`
    /// says whether the fact's raw value reads as a finite number.
    pub fn push_record(&mut self, fact: &TypedFact, raw_is_finite_number: bool) -> (result: Result<(), ProducerError>)
        ensures
            old(self)@.profile != ProducerProfile::Clock ==> *final(self) == *old(self) && result == Err::<(), ProducerError>(ProducerError::InvalidTransition),
            old(self)@.profile == ProducerProfile::Clock && spec_invalid_clock(*fact, old(self)@.limits.max_raw_bytes, raw_is_finite_number)
                ==> *final(self) == *old(self) && result == Err::<(), ProducerError>(ProducerError::DataLimit),
            old(self)@.profile == ProducerProfile::Clock && !spec_invalid_clock(*fact, old(self)@.limits.max_raw_bytes, raw_is_finite_number)
                ==> (final(self)@, result) == spec_push(old(self)@, RecordView { entity_id: utf8(fact.entity_id@), content: spec_clock_content(*fact) }),
    {
        if self.profile != ProducerProfile::Clock {
            return Err(ProducerError::InvalidTransition);
        }
        if invalid_clock(fact, self.limits.max_raw_bytes, raw_is_finite_number) {
            return Err(ProducerError::DataLimit);
        }
        let entity_id = text_bytes(fact.entity_id.as_str());
        let mut content = text_bytes("getter=");
        crate::text::append_text(&mut content, fact.getter.as_str());
        crate::text::append_text(&mut content, "\nraw_value=");
        crate::text::append_text(&mut content, fact.raw_value.as_str());
        crate::text::append_text(&mut content, "\nsemantics=");
        crate::text::append_text(&mut content, fact.semantics.as_str());
        self.push(PreparedRecord { entity_id, content })
    }

    /// Adds one faction census row.
    pub fn push_faction_census(&mut self, record: &FactionCensusRecord) -> (result: Result<(), ProducerError>)
        ensures
            ({
                let v = old(self)@;
                if v.profile != ProducerProfile::FactionCensus || record.discovery_revision == 0
                    || !(record.disposition@ == "included"@ || record.disposition@ == "excluded"@ || record.disposition@ == "unknown"@) {
                    *final(self) == *old(self) && result == Err::<(), ProducerError>(ProducerError::InvalidInput)
                } else if spec_census_content(*record).len() > v.limits.max_raw_bytes {
                    *final(self) == *old(self) && result == Err::<(), ProducerError>(ProducerError::DataLimit)
                } else {
                    (final(self)@, result) == spec_push(v, RecordView {
                        entity_id: utf8("x4:faction:"@) + utf8(record.faction_id@),
                        content: spec_census_content(*record),
                    })
                }
            }),
    {
        if self.profile != ProducerProfile::FactionCensus || record.discovery_revision == 0
            || !(crate::text::text_eq(record.disposition.as_str(), "included")
                || crate::text::text_eq(record.disposition.as_str(), "excluded")
                || crate::text::text_eq(record.disposition.as_str(), "unknown")) {
            return Err(ProducerError::InvalidInput);
        }
        let mut content = text_bytes("discovery_revision=");
        crate::text::append_decimal(&mut content, record.discovery_revision);
        crate::text::append_text(&mut content, "\ndisposition=");
        crate::text::append_text(&mut content, record.disposition.as_str());
        crate::text::append_text(&mut content, "\nreason=");
        crate::text::append_text(&mut content, record.reason.as_str());
        crate::text::append_text(&mut content, "\norigin=");
        crate::text::append_text(&mut content, record.origin.as_str());
        crate::text::append_text(&mut content, "\nsource_evidence=");
        crate::text::append_text(&mut content, record.source_evidence.as_str());
        crate::text::append_text(&mut content, "\nmind_candidate=");
        if record.mind_candidate {
            crate::text::append_text(&mut content, "true");
        } else {
            crate::text::append_text(&mut content, "false");
        }
        if content.len() > self.limits.max_raw_bytes {
            return Err(ProducerError::DataLimit);
        }
        let mut entity_id = text_bytes("x4:faction:");
        crate::text::append_text(&mut entity_id, record.faction_id.as_str());
        self.push(PreparedRecord { entity_id, content })
    }

    /// Adds one ship core row; its scope must be the open section's scope.
    pub fn push_ship_core(&mut self, record: &ShipCoreRecord) -> (result: Result<(), ProducerError>)
        ensures
            ({
                let v = old(self)@;
                if v.profile != ProducerProfile::ShipCore || v.evidence is None {
                    *final(self) == *old(self) && result == Err::<(), ProducerError>(ProducerError::InvalidTransition)
                } else if record.source_scope@ != v.evidence->0.source_scope@
                    || spec_ship_core_content(*record).len() > v.limits.max_raw_bytes {
                    *final(self) == *old(self) && result == Err::<(), ProducerError>(ProducerError::DataLimit)
                } else {
                    (final(self)@, result) == spec_push(v, RecordView {
                        entity_id: ship_entity(record.identity@),
                        content: spec_ship_core_content(*record),
                    })
                }
            }),
    {
        if self.profile != ProducerProfile::ShipCore {
            return Err(ProducerError::InvalidTransition);
        }
        let mut content = text_bytes("profile=ship_core\nidentity=");
        crate::text::append_text(&mut content, record.identity.as_str());
        crate::text::append_text(&mut content, "\nowner=");
        crate::text::append_text(&mut content, record.owner.as_str());
        crate::text::append_text(&mut content, "\ntype=");
        crate::text::append_text(&mut content, record.ship_type.as_str());
        crate::text::append_text(&mut content, "\nclass=");
        crate::text::append_text(&mut content, record.class.as_str());
        crate::text::append_text(&mut content, "\nlocation=");
        crate::text::append_text(&mut content, record.location.as_str());
        let same_scope = match &self.evidence {
            Some(e) => crate::text::text_eq(record.source_scope.as_str(), e.source_scope.as_str()),
            None => { return Err(ProducerError::InvalidTransition); },
        };
        if !same_scope || content.len() > self.limits.max_raw_bytes {
            return Err(ProducerError::DataLimit);
        }
        let mut entity_id = text_bytes("x4:ship:");
        crate::text::append_text(&mut entity_id, record.identity.as_str());
        self.push(PreparedRecord { entity_id, content })
    }

    fn push_ship_detail(&mut self, profile: ProducerProfile, scope: &str, identity: &str, content: &[u8], validated: bool) -> (result: Result<(), ProducerError>)
        ensures
            ({
                let v = old(self)@;
                if v.profile != profile || v.evidence is None || v.evidence->0.source_scope@ != scope@ || !validated {
                    *final(self) == *old(self) && result == Err::<(), ProducerError>(ProducerError::InvalidInput)
                } else if content@.len() > v.limits.max_raw_bytes {
                    *final(self) == *old(self) && result == Err::<(), ProducerError>(ProducerError::DataLimit)
                } else {
                    (final(self)@, result) == spec_push(v, RecordView { entity_id: ship_entity(identity@), content: content@ })
                }
            }),
    {
        let same_scope = match &self.evidence {
            Some(e) => crate::text::text_eq(e.source_scope.as_str(), scope),
            None => false,
        };
        if self.profile != profile || !same_scope || !validated {
            return Err(ProducerError::InvalidInput);
        }
        if content.len() > self.limits.max_raw_bytes {
            return Err(ProducerError::DataLimit);
        }
        let mut entity_id = text_bytes("x4:ship:");
        crate::text::append_text(&mut entity_id, identity);
        self.push(PreparedRecord { entity_id, content: crate::abi::copy_owned(content) })
    }

    /// Adds one ship loadout row: `content` is its canonical content and
    /// `validated` whether it passed the domain checks against this producer's
    /// record ceiling.
    pub fn push_ship_loadout(&mut self, scope: &str, identity: &str, content: &[u8], validated: bool) -> (result: Result<(), ProducerError>)
        ensures
            ({
                let v = old(self)@;
                if v.profile != ProducerProfile::ShipLoadout || v.evidence is None || v.evidence->0.source_scope@ != scope@ || !validated {
                    *final(self) == *old(self) && result == Err::<(), ProducerError>(ProducerError::InvalidInput)
                } else if content@.len() > v.limits.max_raw_bytes {
                    *final(self) == *old(self) && result == Err::<(), ProducerError>(ProducerError::DataLimit)
                } else {
                    (final(self)@, result) == spec_push(v, RecordView { entity_id: ship_entity(identity@), content: content@ })
                }
            }),
    {
        self.push_ship_detail(ProducerProfile::ShipLoadout, scope, identity, content, validated)
    }

    /// Adds one ship crew row: `content` is its canonical content and
    /// `validated` whether it passed the domain checks against this producer's
    /// record ceiling.
    pub fn push_ship_crew(&mut self, scope: &str, identity: &str, content: &[u8], validated: bool) -> (result: Result<(), ProducerError>)
        ensures
            ({
                let v = old(self)@;
                if v.profile != ProducerProfile::ShipCrew || v.evidence is None || v.evidence->0.source_scope@ != scope@ || !validated {
                    *final(self) == *old(self) && result == Err::<(), ProducerError>(ProducerError::InvalidInput)
                } else if content@.len() > v.limits.max_raw_bytes {
                    *final(self) == *old(self) && result == Err::<(), ProducerError>(ProducerError::DataLimit)
                } else {
                    (final(self)@, result) == spec_push(v, RecordView { entity_id: ship_entity(identity@), content: content@ })
                }
            }),
    {
        self.push_ship_detail(ProducerProfile::ShipCrew, scope, identity, content, validated)
    }

    /// Adds one ship cargo row: `content` is its canonical content and
    /// `validated` whether it passed the domain checks against this producer's
    /// record ceiling.
    pub fn push_ship_cargo(&mut self, scope: &str, identity: &str, content: &[u8], validated: bool) -> (result: Result<(), ProducerError>)
        ensures
            ({
                let v = old(self)@;
                if v.profile != ProducerProfile::ShipCargo || v.evidence is None || v.evidence->0.source_scope@ != scope@ || !validated {
                    *final(self) == *old(self) && result == Err::<(), ProducerError>(ProducerError::InvalidInput)
                } else if content@.len() > v.limits.max_raw_bytes {
                    *final(self) == *old(self) && result == Err::<(), ProducerError>(ProducerError::DataLimit)
                } else {
                    (final(self)@, result) == spec_push(v, RecordView { entity_id: ship_entity(identity@), content: content@ })
                }
            }),
    {
        self.push_ship_detail(ProducerProfile::ShipCargo, scope, identity, content, validated)
    }
}

impl Producer {
    /// Ends the open section with the sender's closing claims; claims that
    /// contradict the opening evidence fail the section.
    pub fn finish_section(&mut self, finish: SectionFinishEvidence) -> (result: Result<(), ProducerError>)
        ensures
            (final(self)@, result) == spec_finish_section(old(self)@, finish),
    {
        if !(self.state == ProducerState::SectionReserved || self.state == ProducerState::Collecting)
            || self.records.len() != self.expected_records {
            return Err(ProducerError::InvalidTransition);
        }
        let contradicts = match &self.evidence {
            None => { return Err(ProducerError::InvalidTransition); },
            Some(e) => {
                let st = e.sender.section_state;
                !finish.succeeded
                    || finish.capture_end_millis < st.capture_start_millis
                    || finish.quality != st.quality
                    || finish.availability != st.availability
                    || finish.coverage != st.coverage
                    || finish.consistency != e.sender.source_consistency
                    || finish.stable_identity != e.sender.stable_identity
            },
        };
        if contradicts {
            self.fail_section();
            return Err(ProducerError::InvalidInput);
        }
        match &mut self.evidence {
            Some(e) => { e.sender.section_state.capture_end_millis = finish.capture_end_millis; },
            None => {},
        }
        self.finished = true;
        Ok(())
    }

    /// Turns a finished section into its opening message; `start` is that
    /// message encoded for the current section (or why it could not be).
    pub fn progress(&mut self, work_units: usize, now_millis: u64, start: Result<Vec<u8>, ProducerError>) -> (result: Result<ProducerOutcome, ProducerError>)
        ensures
            (final(self)@, result) == spec_progress(old(self)@, work_units, now_millis, match start { Ok(b) => Ok(b@), Err(e) => Err(e) }),
    {
        if self.pending.is_some() {
            return Ok(ProducerOutcome::CapacityUnavailable);
        }
        if self.state != ProducerState::Collecting || !self.finished || work_units == 0 || work_units > self.limits.max_work {
            return Err(ProducerError::InvalidTransition);
        }
        if self.evidence.is_none() {
            return Err(ProducerError::InvalidTransition);
        }
        let bytes = match start {
            Ok(b) => b,
            Err(e) => { return Err(e); },
        };
        let mut id = text_bytes("message:start:");
        crate::text::append_text(&mut id, self.intent_key.as_str());
        crate::text::append_text(&mut id, ":");
        crate::text::append_decimal(&mut id, self.revision);
        self.pending = Some(Pending::new(bytes, id, now_millis));
        self.section_key = Some(self.intent_key.clone());
        self.next_batch_index = 0;
        self.state = ProducerState::PendingStart;
        Ok(ProducerOutcome::Progress)
    }

    /// The source a reconnection moves to: the same source one transport epoch later.
    pub fn reconnect_source(&self) -> (source: Option<ProducerSource>)
        ensures
            self@.source.transport_epoch == u64::MAX ==> source is None,
            self@.source.transport_epoch < u64::MAX ==> source == Some(ProducerSource {
                transport_epoch: (self@.source.transport_epoch + 1) as u64,
                ..self@.source
            }),
    {
        match self.source.transport_epoch.checked_add(1) {
            None => None,
            Some(epoch) => {
                let mut source = self.source.duplicate();
                source.transport_epoch = epoch;
                Some(source)
            },
        }
    }

    /// Follows the transport's connection generation: the first one is
    /// adopted, a later one starts a new transport epoch with a fresh handshake
    /// (`bootstrap`, the handshake encoded for `reconnect_source`), abandoning
    /// any unfinished attempt under a new revision.
    pub fn observe_connection(&mut self, generation: u64, now_millis: u64, bootstrap: Result<Vec<u8>, ProducerError>) -> (result: Result<(), ProducerError>)
        ensures
            (final(self)@, result) == spec_observe_connection(old(self)@, generation, now_millis, match bootstrap { Ok(b) => Ok(b@), Err(e) => Err(e) }),
    {
        if generation == 0 || generation <= self.connection_generation {
            return Ok(());
        }
        if self.connection_generation == 0 {
            self.connection_generation = generation;
            return Ok(());
        }
        let source = match self.reconnect_source() {
            Some(s) => s,
            None => { return Err(ProducerError::StaleEpoch); },
        };
        let incomplete = !(self.state == ProducerState::AwaitingCompatibility || self.state == ProducerState::Ready);
        let revision = if incomplete {
            match self.revision.checked_add(1) {
                Some(r) => r,
                None => { return Err(ProducerError::InvalidTransition); },
            }
        } else {
            self.revision
        };
        let bytes = match bootstrap {
            Ok(b) => b,
            Err(e) => { return Err(e); },
        };
        self.discard_incomplete();
        self.source = source;
        self.revision = revision;
        self.connection_generation = generation;
        self.pending = Some(Pending::new(bytes, text_bytes("bootstrap"), now_millis));
        self.readiness = Readiness::Awaiting;
        self.state = ProducerState::AwaitingCompatibility;
        Ok(())
    }

    /// Tightens how collections are admitted.
    pub fn configure_admission(&mut self, policy: ProducerAdmissionPolicy) -> (result: Result<(), ProducerError>)
        ensures
            (final(self)@, result) == spec_configure_admission(old(self)@, policy),
    {
        if policy.max_inner_records == 0 || policy.max_inner_records > self.limits.max_records
            || policy.max_attempts == 0 || policy.max_attempts > 2 || policy.max_age_millis == 0 {
            return Err(ProducerError::InvalidInput);
        }
        self.policy = policy;
        Ok(())
    }

    /// Advances the producer's clock: a clock that runs backwards is refused,
    /// and a section older than the admission policy allows is failed.
    pub fn observe_progress(&mut self, now: u64) -> (result: Result<(), ProducerError>)
        ensures
            (final(self)@, result) == spec_observe_progress(old(self)@, now),
    {
        if now < self.last_progress_at {
            return Err(ProducerError::ClockUnavailable);
        }
        self.last_progress_at = now;
        let expired = match self.section_started_at {
            Some(started) => now.saturating_sub(started) > self.policy.max_age_millis,
            None => false,
        };
        if expired {
            self.fail_section();
            return Err(ProducerError::DataLimit);
        }
        if (self.state == ProducerState::SectionReserved || self.state == ProducerState::Collecting)
            && self.section_started_at.is_none() {
            self.section_started_at = Some(now);
        }
        Ok(())
    }

    /// The records collected and not yet sealed into a batch, oldest first;
    /// the message encoder reads the batch it is asked to measure from them.
    pub fn collected_records(&self) -> (records: &[PreparedRecord])
        ensures
            records@.map_values(|r: PreparedRecord| r@) == self@.records,
    {
        self.records.as_slice()
    }

    /// Inner rows a detail record may carry.
    pub fn inner_limit(&self) -> (limit: usize)
        ensures
            limit == self@.policy.max_inner_records,
    {
        self.policy.max_inner_records
    }

    /// The revision the next or current section carries.
    pub fn collection_revision(&self) -> (revision: u64)
        ensures
            revision == self@.revision,
    {
        self.revision
    }

    /// The evidence of the open section, if any.
    pub fn section_evidence(&self) -> (evidence: Option<&SectionEvidence>)
        ensures
            match evidence { Some(e) => self@.evidence == Some(*e), None => self@.evidence is None },
    {
        match &self.evidence {
            Some(e) => Some(e),
            None => None,
        }
    }

    /// The section key a `begin_section` request must name and a status
    /// report shows once the producer is ready; it stays the clock section's
    /// key whatever intent the bridge sends.
    pub fn selected_key(&self) -> (key: &str)
        ensures
            key@ == self@.selected_key,
    {
        self.selected_key.as_str()
    }

    /// The section key of the collection intent the bridge last sent (the
    /// clock section's key before any), which names the section's messages.
    pub fn intent_key(&self) -> (key: &str)
        ensures
            key@ == self@.intent_key,
    {
        self.intent_key.as_str()
    }

    /// Rows the open section announced.
    pub fn expected_records(&self) -> (expected: usize)
        ensures
            expected == self@.expected_records,
    {
        self.expected_records
    }
}

/// Whether a clock fact is unusable.
pub fn invalid_clock(fact: &TypedFact, max_raw_bytes: usize, raw_is_finite_number: bool) -> (invalid: bool)
    ensures
        invalid == spec_invalid_clock(*fact, max_raw_bytes, raw_is_finite_number),
{
    fact.raw_value.as_str().is_empty()
        || fact.raw_value.as_str().as_bytes().len() > max_raw_bytes
        || !raw_is_finite_number
        || !crate::text::text_eq(fact.entity_id.as_str(), "x4:runtime:realtime_clock")
        || !crate::text::text_eq(fact.getter.as_str(), "GetCurRealTime")
        || !crate::text::text_eq(fact.semantics.as_str(), "opaque_runtime_number")
        || fact.observation_version != 1
}

/// Whether an empty section is acceptable for this evidence.
pub fn qualified_empty(evidence: &SectionEvidence) -> (ok: bool)
    ensures
        ok == spec_qualified_empty(*evidence),
{
    evidence.sender.section_state.coverage == SectionCoverage::KnownEmpty
        && (evidence.sender.source_consistency == SourceConsistency::Barrier
            || evidence.sender.source_consistency == SourceConsistency::VersionedManifest
            || evidence.sender.source_consistency == SourceConsistency::EventInterval)
}


/// A collection the bridge asks for.
#[derive(Clone, Debug, PartialEq, Eq)]
pub struct CollectionIntent {
    pub section_key: String,
    /// What the ship-section grammar made of `section_key`.
    pub ship_kind: Option<ShipSectionKind>,
    pub next_revision: u64,
    pub max_records: usize,
    pub max_raw_bytes: usize,
    pub max_work: usize,
}

/// The bridge's verdict on one message the producer sent.
#[derive(Clone, Debug, PartialEq, Eq)]
pub struct DispositionBody {
    pub message_id: String,
    pub section_key: String,
    pub section_revision: u64,
    pub message_digest: String,
    pub disposition: String,
}

/// A decoded control message from the bridge.
#[derive(Clone, Debug, PartialEq, Eq)]
pub enum ControlBody {
    Handshake,
    CollectionIntent(CollectionIntent),
    Demand { credit: u64 },
    Disposition(DispositionBody),
    Reset,
    /// Any other control the producer does not act on.
    Other,
}

/// Why a control message could not be decoded for this producer.
#[derive(Clone, Copy, Debug, PartialEq, Eq, Structural)]
pub enum ControlDecodeError {
    StaleEpoch,
    RestartRequired,
    Malformed,
}

/// One step of turning collected records into messages, carried out by the
/// message encoder.
#[derive(Clone, Copy, Debug, PartialEq, Eq, Structural)]
pub enum SealCall {
    /// Encode a batch of the first `count` collected records; `None` when it
    /// does not fit in a data message.
    Measure { count: usize, ordinal: usize, first_record_ordinal: usize },
    /// Enter that batch in the section's certificate.
    Commit { count: usize, ordinal: usize, first_record_ordinal: usize },
    /// Encode the section's completion message.
    Complete,
}

/// The verdict a disposition text names.
pub open spec fn spec_feedback_for(text: Seq<char>) -> Option<ProducerFeedback> {
    if text == "capacity_unavailable"@ { Some(ProducerFeedback::CapacityUnavailable) }
    else if text == "received"@ { Some(ProducerFeedback::Received) }
    else if text == "committed"@ { Some(ProducerFeedback::Committed) }
    else if text == "permanently_rejected"@ { Some(ProducerFeedback::PermanentlyRejected) }
    else if text == "ambiguous_commit"@ { Some(ProducerFeedback::Ambiguous) }
    else if text == "stale_epoch"@ { Some(ProducerFeedback::StaleEpoch) }
    else if text == "timed_out_or_superseded"@ { Some(ProducerFeedback::TimedOutOrSuperseded) }
    else { None }
}

/// Reads a disposition text.
pub fn disposition(value: &str) -> (feedback: Result<ProducerFeedback, ProducerError>)
    ensures
        feedback == match spec_feedback_for(value@) {
            Some(f) => Ok::<ProducerFeedback, ProducerError>(f),
            None => Err(ProducerError::InvalidInput),
        },
{
    if text_eq(value, "capacity_unavailable") { Ok(ProducerFeedback::CapacityUnavailable) }
    else if text_eq(value, "received") { Ok(ProducerFeedback::Received) }
    else if text_eq(value, "committed") { Ok(ProducerFeedback::Committed) }
    else if text_eq(value, "permanently_rejected") { Ok(ProducerFeedback::PermanentlyRejected) }
    else if text_eq(value, "ambiguous_commit") { Ok(ProducerFeedback::Ambiguous) }
    else if text_eq(value, "stale_epoch") { Ok(ProducerFeedback::StaleEpoch) }
    else if text_eq(value, "timed_out_or_superseded") { Ok(ProducerFeedback::TimedOutOrSuperseded) }
    else { Err(ProducerError::InvalidInput) }
}

/// What a capacity verdict does: a message that has had two attempts, or
/// whose first attempt is older than the retry ceiling, pauses the producer;
/// otherwise it is offered again.
pub open spec fn spec_retry(v: ProducerView, now: u64) -> (ProducerView, ProducerOutcome) {
    match v.pending {
        None => (v, ProducerOutcome::PausedAfterFailure),
        Some(p) => {
            let age = if now >= p.first_attempt_at { now - p.first_attempt_at } else { 0 };
            if p.attempts >= 2 || age > v.limits.max_retry_age_millis {
                (ProducerView { state: ProducerState::PausedAfterFailure, ..v }, ProducerOutcome::PausedAfterFailure)
            } else {
                (ProducerView { pending: Some(PendingView { attempts: (p.attempts + 1) as u8, handed_off: false, ..p }), ..v },
                 ProducerOutcome::CapacityUnavailable)
            }
        },
    }
}

/// What a verdict of receipt or commitment does; the flag says that the next
/// message must now be sealed.
pub open spec fn spec_advance(v: ProducerView, feedback: ProducerFeedback) -> (ProducerView, Result<ProducerOutcome, ProducerError>, bool) {
    if (v.state == ProducerState::PendingStart || v.state == ProducerState::PendingBatch) && feedback == ProducerFeedback::Received {
        (ProducerView { pending: None, state: ProducerState::Collecting, ..v }, Ok(ProducerOutcome::Received), true)
    } else if v.state == ProducerState::PendingCompletion && feedback == ProducerFeedback::Committed {
        let d = spec_discard(v);
        if v.revision == u64::MAX {
            (d, Err(ProducerError::InvalidTransition), false)
        } else {
            (ProducerView { revision: (v.revision + 1) as u64, state: ProducerState::Ready, readiness: Readiness::Intent, ..d },
             Ok(ProducerOutcome::Committed), false)
        }
    } else {
        (v, Err(ProducerError::InvalidTransition), false)
    }
}

/// What a disposition does, given the digest of the outstanding message.
pub open spec fn spec_apply_disposition(v: ProducerView, d: DispositionBody, digest: Seq<u8>, now: u64) -> (ProducerView, Result<ProducerOutcome, ProducerError>, bool) {
    match v.pending {
        None => (v, Err(ProducerError::InvalidTransition), false),
        Some(p) => if !p.handed_off || utf8(d.message_id@) != p.id || v.section_key is None
            || d.section_key@ != v.section_key->0 || d.section_revision != v.revision
            || utf8(d.message_digest@) != hex_text(digest) {
            (v, Err(ProducerError::InvalidInput), false)
        } else {
            match spec_feedback_for(d.disposition@) {
                None => (v, Err(ProducerError::InvalidInput), false),
                Some(f) => if f == ProducerFeedback::CapacityUnavailable {
                    let (v1, o) = spec_retry(v, now);
                    (v1, Ok(o), false)
                } else if f == ProducerFeedback::Ambiguous {
                    (ProducerView { state: ProducerState::PausedAfterFailure, ..v }, Ok(ProducerOutcome::Ambiguous), false)
                } else if f == ProducerFeedback::PermanentlyRejected || f == ProducerFeedback::StaleEpoch
                    || f == ProducerFeedback::TimedOutOrSuperseded {
                    (spec_fail_section(v), Ok(ProducerOutcome::PermanentlyRejected), false)
                } else {
                    spec_advance(v, f)
                },
            }
        },
    }
}

/// What a decoded control message does before any sealing; the flag says
/// that the next message must now be sealed.
pub open spec fn spec_control(v: ProducerView, control: Result<ControlBody, ControlDecodeError>, digest: Seq<u8>, now: u64) -> (ProducerView, Result<ProducerOutcome, ProducerError>, bool) {
    match control {
        Err(ControlDecodeError::StaleEpoch) => (v, Err(ProducerError::StaleEpoch), false),
        Err(ControlDecodeError::RestartRequired) => (v, Err(ProducerError::Incompatible), false),
        Err(ControlDecodeError::Malformed) => (v, Err(ProducerError::InvalidInput), false),
        Ok(body) => match body {
            ControlBody::Handshake => if v.state == ProducerState::AwaitingCompatibility
                && (v.pending matches Some(p) && p.id == bootstrap_id() && p.handed_off) {
                (ProducerView { readiness: Readiness::Handshake, pending: None, state: ProducerState::Ready, ..v },
                 Ok(ProducerOutcome::Accepted), false)
            } else {
                (v, Err(ProducerError::InvalidTransition), false)
            },
            ControlBody::CollectionIntent(i) => if v.readiness == Readiness::Handshake && i.next_revision > 0
                && i.max_records >= v.limits.max_records && i.max_raw_bytes >= v.limits.max_raw_bytes && i.max_work >= 1 {
                match crate::producer_types::spec_profile_for(i.section_key@, i.ship_kind) {
                    None => (v, Err(ProducerError::Incompatible), false),
                    Some(profile) => (
                        ProducerView {
                            profile,
                            intent_key: i.section_key@,
                            revision: if v.revision >= i.next_revision { v.revision } else { i.next_revision },
                            readiness: Readiness::Intent,
                            ..v
                        },
                        Ok(ProducerOutcome::Accepted),
                        false,
                    ),
                }
            } else {
                (v, Err(ProducerError::InvalidTransition), false)
            },
            ControlBody::Demand { credit } => if v.readiness == Readiness::Intent && credit == 1 {
                (ProducerView { readiness: Readiness::Ready, ..v }, Ok(ProducerOutcome::Accepted), false)
            } else {
                (v, Err(ProducerError::InvalidTransition), false)
            },
            ControlBody::Disposition(d) => spec_apply_disposition(v, d, digest, now),
            ControlBody::Reset => if v.profile == ProducerProfile::ShipCore {
                (ProducerView { readiness: Readiness::Awaiting, ..spec_fail_section(v) }, Ok(ProducerOutcome::Disconnected), false)
            } else {
                (v, Ok(ProducerOutcome::Disconnected), false)
            },
            ControlBody::Other => (v, Err(ProducerError::InvalidTransition), false),
        },
    }
}


/// The identifier of a batch message.
pub open spec fn batch_id(revision: u64, epoch: u64, ordinal: usize) -> Seq<u8> {
    utf8("carrier-b:"@) + decimal_text(revision as nat) + utf8(":"@) + decimal_text(epoch as nat)
        + utf8(":"@) + decimal_text(ordinal as nat)
}

/// The encoder step that measures a batch of the first `count` records.
pub open spec fn measure_call(v: ProducerView, count: usize) -> SealCall {
    SealCall::Measure {
        count,
        ordinal: (v.next_batch_index + 1) as usize,
        first_record_ordinal: (v.emitted_records + 1) as usize,
    }
}

/// The encoder step that enters a batch of the first `count` records in the certificate.
pub open spec fn commit_call(v: ProducerView, count: usize) -> SealCall {
    SealCall::Commit {
        count,
        ordinal: (v.next_batch_index + 1) as usize,
        first_record_ordinal: (v.emitted_records + 1) as usize,
    }
}

/// The encoder reply for a batch that does not fit.
pub open spec fn no_fit() -> Result<Option<Vec<u8>>, ProducerError> {
    Ok(None)
}

/// `count` records encode to `bytes`, and one more record would not fit.
pub open spec fn chosen_batch<F: Fn(SealCall) -> Result<Option<Vec<u8>>, ProducerError>>(v: ProducerView, seal: F, count: usize, bytes: Vec<u8>) -> bool {
    &&& 1 <= count <= v.records.len()
    &&& seal.ensures((measure_call(v, count),), Ok(Some(bytes)))
    &&& (count == v.records.len() || seal.ensures((measure_call(v, (count + 1) as usize),), no_fit()))
}

/// The search for a batch ended in `e`: the encoder refused some prefix, or
/// not even one record fits.
pub open spec fn search_failed<F: Fn(SealCall) -> Result<Option<Vec<u8>>, ProducerError>>(v: ProducerView, seal: F, e: ProducerError) -> bool {
    ||| exists|c: usize| 1 <= c <= v.records.len() && #[trigger] seal.ensures((measure_call(v, c),), Err(e))
    ||| (e == ProducerError::DataLimit && seal.ensures((measure_call(v, 1),), no_fit()))
}

/// The certificate accepted the chosen batch.
pub open spec fn commit_accepted<F: Fn(SealCall) -> Result<Option<Vec<u8>>, ProducerError>>(v: ProducerView, seal: F, count: usize) -> bool {
    exists|r: Result<Option<Vec<u8>>, ProducerError>| #[trigger] seal.ensures((commit_call(v, count),), r) && (r matches Ok(Some(_)))
}

/// The certificate refused the chosen batch.
pub open spec fn commit_refused<F: Fn(SealCall) -> Result<Option<Vec<u8>>, ProducerError>>(v: ProducerView, seal: F, count: usize) -> bool {
    exists|r: Result<Option<Vec<u8>>, ProducerError>| #[trigger] seal.ensures((commit_call(v, count),), r) && !(r matches Ok(Some(_)))
}

/// The producer after sealing the first `count` records into the batch `bytes`.
pub open spec fn spec_sealed_batch(v: ProducerView, count: usize, bytes: Seq<u8>, now: u64) -> ProducerView {
    let ordinal = (v.next_batch_index + 1) as usize;
    ProducerView {
        records: v.records.subrange(count as int, v.records.len() as int),
        next_batch_index: ordinal,
        emitted_records: (v.emitted_records + count) as usize,
        pending: Some(fresh_pending(bytes, batch_id(v.revision, v.source.transport_epoch, ordinal), now)),
        state: ProducerState::PendingBatch,
        ..v
    }
}

/// What sealing the next message does, whatever the encoder replied: the
/// largest prefix of the collected records that fits becomes the next batch,
/// and once every record is batched the completion message follows.
pub open spec fn seal_outcome<F: Fn(SealCall) -> Result<Option<Vec<u8>>, ProducerError>>(v: ProducerView, now: u64, seal: F, after: ProducerView, result: Result<ProducerOutcome, ProducerError>) -> bool {
    if v.records.len() > 0 {
        if v.evidence is None || v.section_key is None {
            after == v && result == Err::<ProducerOutcome, ProducerError>(ProducerError::InvalidTransition)
        } else if v.next_batch_index == usize::MAX || v.next_batch_index + 1 > v.limits.max_batches
            || v.emitted_records == usize::MAX {
            after == v && result == Err::<ProducerOutcome, ProducerError>(ProducerError::DataLimit)
        } else {
            ||| (after == v && (result matches Err(e) && search_failed(v, seal, e)))
            ||| exists|count: usize, bytes: Vec<u8>| {
                &&& #[trigger] chosen_batch(v, seal, count, bytes)
                &&& ((commit_refused(v, seal, count) && after == v
                    && result == Err::<ProducerOutcome, ProducerError>(ProducerError::InvalidInput))
                    || (commit_accepted(v, seal, count) && if v.emitted_records + count > usize::MAX {
                        after == (ProducerView {
                            records: v.records.subrange(count as int, v.records.len() as int),
                            next_batch_index: (v.next_batch_index + 1) as usize,
                            ..v
                        }) && result == Err::<ProducerOutcome, ProducerError>(ProducerError::DataLimit)
                    } else {
                        after == spec_sealed_batch(v, count, bytes@, now)
                            && result == Ok::<ProducerOutcome, ProducerError>(ProducerOutcome::Progress)
                    }))
            }
        }
    } else if !v.finished {
        after == v && result == Ok::<ProducerOutcome, ProducerError>(ProducerOutcome::Accepted)
    } else if v.evidence is None || v.section_key is None {
        after == v && result == Err::<ProducerOutcome, ProducerError>(ProducerError::InvalidTransition)
    } else {
        exists|r: Result<Option<Vec<u8>>, ProducerError>| {
            &&& #[trigger] seal.ensures((SealCall::Complete,), r)
            &&& match r {
                Err(e) => after == v && result == Err::<ProducerOutcome, ProducerError>(e),
                Ok(None) => after == v && result == Err::<ProducerOutcome, ProducerError>(ProducerError::DataLimit),
                Ok(Some(b)) => after == (ProducerView {
                    pending: Some(fresh_pending(b@, complete_id(v.section_key->0, v.revision), now)),
                    state: ProducerState::PendingCompletion,
                    ..v
                }) && result == Ok::<ProducerOutcome, ProducerError>(ProducerOutcome::Progress),
            }
        }
    }
}

/// Finds the largest prefix of `n` records whose batch the encoder accepts,
/// trying the whole first and then halving the range.
fn largest_batch<F: Fn(SealCall) -> Result<Option<Vec<u8>>, ProducerError>>(
    n: usize,
    ordinal: usize,
    first_record_ordinal: usize,
    seal: &F,
) -> (chosen: Result<(usize, Vec<u8>), ProducerError>)
    requires
        n >= 1,
        forall|c: SealCall| seal.requires((c,)),
    ensures
        match chosen {
            Ok((count, bytes)) => {
                &&& 1 <= count <= n
                &&& seal.ensures((SealCall::Measure { count, ordinal, first_record_ordinal },), Ok(Some(bytes)))
                &&& (count == n || seal.ensures((SealCall::Measure { count: (count + 1) as usize, ordinal, first_record_ordinal },), no_fit()))
            },
            Err(e) => {
                ||| exists|c: usize| 1 <= c <= n && #[trigger] seal.ensures((SealCall::Measure { count: c, ordinal, first_record_ordinal },), Err(e))
                ||| (e == ProducerError::DataLimit && seal.ensures((SealCall::Measure { count: 1, ordinal, first_record_ordinal },), no_fit()))
            },
        },
{
    let full = seal(SealCall::Measure { count: n, ordinal, first_record_ordinal });
    match full {
        Err(e) => { return Err(e); },
        Ok(Some(bytes)) => { return Ok((n, bytes)); },
        Ok(None) => {},
    }
    let mut low: usize = 1;
    let mut high: usize = n - 1;
    let mut selected: Option<(usize, Vec<u8>)> = None;
    while low <= high
        invariant
            1 <= low,
            high < n,
            low <= high + 1,
            forall|c: SealCall| seal.requires((c,)),
            seal.ensures((SealCall::Measure { count: (high + 1) as usize, ordinal, first_record_ordinal },), no_fit()),
            match selected {
                Some((c, b)) => c == low - 1 && c >= 1 && seal.ensures((SealCall::Measure { count: c, ordinal, first_record_ordinal },), Ok(Some(b))),
                None => low == 1,
            },
        decreases high + 1 - low,
    {
        let count = low + (high - low) / 2;
        match seal(SealCall::Measure { count, ordinal, first_record_ordinal }) {
            Err(e) => { return Err(e); },
            Ok(None) => { high = count - 1; },
            Ok(Some(bytes)) => {
                selected = Some((count, bytes));
                low = count + 1;
            },
        }
    }
    match selected {
        Some((count, bytes)) => {
            assert(count == high);
            assert(seal.ensures((SealCall::Measure { count: (count + 1) as usize, ordinal, first_record_ordinal },), no_fit()));
            Ok((count, bytes))
        },
        None => Err(ProducerError::DataLimit),
    }
}


impl Producer {
    fn seal_batch<F: Fn(SealCall) -> Result<Option<Vec<u8>>, ProducerError>>(&mut self, now: u64, seal: &F) -> (result: Result<ProducerOutcome, ProducerError>)
        requires
            old(self)@.records.len() > 0,
            forall|c: SealCall| seal.requires((c,)),
        ensures
            seal_outcome(old(self)@, now, *seal, final(self)@, result),
    {
        let ghost v = self@;
        if self.evidence.is_none() || self.section_key.is_none() {
            return Err(ProducerError::InvalidTransition);
        }
        let ordinal = match self.next_batch_index.checked_add(1) {
            Some(o) => o,
            None => { return Err(ProducerError::DataLimit); },
        };
        if ordinal > self.limits.max_batches {
            return Err(ProducerError::DataLimit);
        }
        let first_record = match self.emitted_records.checked_add(1) {
            Some(f) => f,
            None => { return Err(ProducerError::DataLimit); },
        };
        proof {
            assert(self.records@.len() == v.records.len());
        }
        let (count, bytes) = match largest_batch(self.records.len(), ordinal, first_record, seal) {
            Ok(chosen) => chosen,
            Err(e) => {
                assert(measure_call(v, 1) == SealCall::Measure { count: 1, ordinal, first_record_ordinal: first_record });
                assert(search_failed(v, *seal, e)) by {
                    if exists|c: usize| 1 <= c <= v.records.len() && #[trigger] seal.ensures((SealCall::Measure { count: c, ordinal, first_record_ordinal: first_record },), Err(e)) {
                        let c = choose|c: usize| 1 <= c <= v.records.len() && #[trigger] seal.ensures((SealCall::Measure { count: c, ordinal, first_record_ordinal: first_record },), Err(e));
                        assert(measure_call(v, c) == SealCall::Measure { count: c, ordinal, first_record_ordinal: first_record });
                    }
                }
                return Err(e);
            },
        };
        assert(measure_call(v, count) == SealCall::Measure { count, ordinal, first_record_ordinal: first_record });
        assert(measure_call(v, (count + 1) as usize) == SealCall::Measure { count: (count + 1) as usize, ordinal, first_record_ordinal: first_record });
        assert(chosen_batch(v, *seal, count, bytes));
        let committed = seal(SealCall::Commit { count, ordinal, first_record_ordinal: first_record });
        assert(commit_call(v, count) == SealCall::Commit { count, ordinal, first_record_ordinal: first_record });
        match committed {
            Ok(Some(_)) => {
                assert(commit_accepted(v, *seal, count));
            },
            _ => {
                assert(commit_refused(v, *seal, count));
                return Err(ProducerError::InvalidInput);
            },
        }
        let mut id = text_bytes("carrier-b:");
        crate::text::append_decimal(&mut id, self.revision);
        crate::text::append_text(&mut id, ":");
        crate::text::append_decimal(&mut id, self.source.transport_epoch);
        crate::text::append_text(&mut id, ":");
        crate::text::append_decimal(&mut id, ordinal as u64);
        let ghost old_records = self.records@;
        let rest = self.records.split_off(count);
        self.records = rest;
        proof {
            assert(self.records@.map_values(|r: PreparedRecord| r@) =~= v.records.subrange(count as int, v.records.len() as int));
        }
        self.next_batch_index = ordinal;
        self.emitted_records = match self.emitted_records.checked_add(count) {
            Some(e) => e,
            None => {
                assert(self@ == (ProducerView {
                    records: v.records.subrange(count as int, v.records.len() as int),
                    next_batch_index: (v.next_batch_index + 1) as usize,
                    ..v
                }));
                return Err(ProducerError::DataLimit);
            },
        };
        self.pending = Some(Pending::new(bytes, id, now));
        self.state = ProducerState::PendingBatch;
        assert(self@ == spec_sealed_batch(v, count, bytes@, now));
        Ok(ProducerOutcome::Progress)
    }

    fn seal_next<F: Fn(SealCall) -> Result<Option<Vec<u8>>, ProducerError>>(&mut self, now: u64, seal: &F) -> (result: Result<ProducerOutcome, ProducerError>)
        requires
            forall|c: SealCall| seal.requires((c,)),
        ensures
            seal_outcome(old(self)@, now, *seal, final(self)@, result),
    {
        if self.records.len() > 0 {
            return self.seal_batch(now, seal);
        }
        assert(self@.records.len() == 0);
        if !self.finished {
            return Ok(ProducerOutcome::Accepted);
        }
        if self.evidence.is_none() || self.section_key.is_none() {
            return Err(ProducerError::InvalidTransition);
        }
        let reply = seal(SealCall::Complete);
        let bytes = match reply {
            Err(e) => { return Err(e); },
            Ok(None) => { return Err(ProducerError::DataLimit); },
            Ok(Some(b)) => b,
        };
        let mut id = text_bytes("message:complete:");
        match &self.section_key {
            Some(key) => { crate::text::append_text(&mut id, key.as_str()); },
            None => {},
        }
        crate::text::append_text(&mut id, ":");
        crate::text::append_decimal(&mut id, self.revision);
        self.pending = Some(Pending::new(bytes, id, now));
        self.state = ProducerState::PendingCompletion;
        Ok(ProducerOutcome::Progress)
    }

    fn retry(&mut self, now: u64) -> (outcome: ProducerOutcome)
        ensures
            (final(self)@, outcome) == spec_retry(old(self)@, now),
    {
        let max_age = self.limits.max_retry_age_millis;
        let exhausted = match &self.pending {
            None => { return ProducerOutcome::PausedAfterFailure; },
            Some(p) => p.attempts >= 2 || now.saturating_sub(p.first_attempt_at) > max_age,
        };
        if exhausted {
            self.state = ProducerState::PausedAfterFailure;
            return ProducerOutcome::PausedAfterFailure;
        }
        match &mut self.pending {
            Some(p) => {
                p.attempts = p.attempts + 1;
                p.handed_off = false;
            },
            None => {},
        }
        ProducerOutcome::CapacityUnavailable
    }

    fn advance_message(&mut self, feedback: ProducerFeedback) -> (result: (Result<ProducerOutcome, ProducerError>, bool))
        ensures
            (final(self)@, result.0, result.1) == spec_advance(old(self)@, feedback),
    {
        if (self.state == ProducerState::PendingStart || self.state == ProducerState::PendingBatch)
            && feedback == ProducerFeedback::Received {
            self.pending = None;
            self.state = ProducerState::Collecting;
            return (Ok(ProducerOutcome::Received), true);
        }
        if !(self.state == ProducerState::PendingCompletion && feedback == ProducerFeedback::Committed) {
            return (Err(ProducerError::InvalidTransition), false);
        }
        self.discard_incomplete();
        self.revision = match self.revision.checked_add(1) {
            Some(r) => r,
            None => { return (Err(ProducerError::InvalidTransition), false); },
        };
        self.state = ProducerState::Ready;
        self.readiness = Readiness::Intent;
        (Ok(ProducerOutcome::Committed), false)
    }

    fn apply_disposition(&mut self, d: DispositionBody, digest: &[u8], now: u64) -> (result: (Result<ProducerOutcome, ProducerError>, bool))
        ensures
            (final(self)@, result.0, result.1) == spec_apply_disposition(old(self)@, d, digest@, now),
    {
        let expected_hex = crate::text::hex_lower(digest);
        let mismatch = match &self.pending {
            None => { return (Err(ProducerError::InvalidTransition), false); },
            Some(p) => {
                let key_matches = match &self.section_key {
                    Some(key) => text_eq(d.section_key.as_str(), key.as_str()),
                    None => false,
                };
                !p.handed_off
                    || !crate::text::bytes_eq(d.message_id.as_str().as_bytes(), p.id.as_slice())
                    || !key_matches
                    || d.section_revision != self.revision
                    || !crate::text::bytes_eq(d.message_digest.as_str().as_bytes(), expected_hex.as_slice())
            },
        };
        if mismatch {
            return (Err(ProducerError::InvalidInput), false);
        }
        let feedback = match disposition(d.disposition.as_str()) {
            Ok(f) => f,
            Err(e) => { return (Err(e), false); },
        };
        if feedback == ProducerFeedback::CapacityUnavailable {
            return (Ok(self.retry(now)), false);
        }
        if feedback == ProducerFeedback::Ambiguous {
            self.state = ProducerState::PausedAfterFailure;
            return (Ok(ProducerOutcome::Ambiguous), false);
        }
        if feedback == ProducerFeedback::PermanentlyRejected || feedback == ProducerFeedback::StaleEpoch
            || feedback == ProducerFeedback::TimedOutOrSuperseded {
            self.fail_section();
            return (Ok(ProducerOutcome::PermanentlyRejected), false);
        }
        self.advance_message(feedback)
    }

    fn apply_feedback(&mut self, control: Result<ControlBody, ControlDecodeError>, digest: &[u8], now: u64) -> (result: (Result<ProducerOutcome, ProducerError>, bool))
        ensures
            (final(self)@, result.0, result.1) == spec_control(old(self)@, control, digest@, now),
    {
        let body = match control {
            Err(ControlDecodeError::StaleEpoch) => { return (Err(ProducerError::StaleEpoch), false); },
            Err(ControlDecodeError::RestartRequired) => { return (Err(ProducerError::Incompatible), false); },
            Err(ControlDecodeError::Malformed) => { return (Err(ProducerError::InvalidInput), false); },
            Ok(body) => body,
        };
        match body {
            ControlBody::Handshake => {
                let bootstrap_done = match &self.pending {
                    Some(p) => {
                        let bootstrap = text_bytes("bootstrap");
                        crate::text::bytes_eq(p.id.as_slice(), bootstrap.as_slice()) && p.handed_off
                    },
                    None => false,
                };
                if self.state == ProducerState::AwaitingCompatibility && bootstrap_done {
                    self.readiness = Readiness::Handshake;
                    self.pending = None;
                    self.state = ProducerState::Ready;
                    (Ok(ProducerOutcome::Accepted), false)
                } else {
                    (Err(ProducerError::InvalidTransition), false)
                }
            },
            ControlBody::CollectionIntent(i) => {
                if self.readiness == Readiness::Handshake && i.next_revision > 0
                    && i.max_records >= self.limits.max_records && i.max_raw_bytes >= self.limits.max_raw_bytes
                    && i.max_work >= 1 {
                    match ProducerProfile::from_section_key(i.section_key.as_str(), i.ship_kind) {
                        None => (Err(ProducerError::Incompatible), false),
                        Some(profile) => {
                            self.profile = profile;
                            if self.revision < i.next_revision {
                                self.revision = i.next_revision;
                            }
                            self.intent_key = i.section_key;
                            self.readiness = Readiness::Intent;
                            (Ok(ProducerOutcome::Accepted), false)
                        },
                    }
                } else {
                    (Err(ProducerError::InvalidTransition), false)
                }
            },
            ControlBody::Demand { credit } => {
                if self.readiness == Readiness::Intent && credit == 1 {
                    self.readiness = Readiness::Ready;
                    (Ok(ProducerOutcome::Accepted), false)
                } else {
                    (Err(ProducerError::InvalidTransition), false)
                }
            },
            ControlBody::Disposition(d) => self.apply_disposition(d, digest, now),
            ControlBody::Reset => {
                if self.profile == ProducerProfile::ShipCore {
                    self.fail_section();
                    self.readiness = Readiness::Awaiting;
                }
                (Ok(ProducerOutcome::Disconnected), false)
            },
            ControlBody::Other => (Err(ProducerError::InvalidTransition), false),
        }
    }

    /// Acts on a decoded control message from the bridge. `pending_digest` is
    /// the digest of the outstanding message; `seal` encodes the next batch or
    /// completion message once a message is received. An accepted collection
    /// intent sets the profile, the revision floor and the key that names the
    /// section's messages; the selected key stays as it was.
    pub fn apply_control<F: Fn(SealCall) -> Result<Option<Vec<u8>>, ProducerError>>(
        &mut self,
        control: Result<ControlBody, ControlDecodeError>,
        pending_digest: &[u8],
        now_millis: u64,
        seal: &F,
    ) -> (result: Result<ProducerOutcome, ProducerError>)
        requires
            forall|c: SealCall| seal.requires((c,)),
        ensures
            ({
                let (v1, r1, more) = spec_control(old(self)@, control, pending_digest@, now_millis);
                if !more {
                    final(self)@ == v1 && result == r1
                } else {
                    exists|r2: Result<ProducerOutcome, ProducerError>| {
                        &&& #[trigger] seal_outcome(v1, now_millis, *seal, final(self)@, r2)
                        &&& result == match r2 {
                            Ok(_) => Ok::<ProducerOutcome, ProducerError>(ProducerOutcome::Received),
                            Err(e) => Err(e),
                        }
                    }
                }
            }),
    {
        let (result, more) = self.apply_feedback(control, pending_digest, now_millis);
        if !more {
            return result;
        }
        let sealed = self.seal_next(now_millis, seal);
        match sealed {
            Ok(_) => Ok(ProducerOutcome::Received),
            Err(e) => Err(e),
        }
    }

    /// Settles an outstanding completion the bridge reports as committed,
    /// given the digest of the outstanding message.
    pub fn reconcile_committed(&mut self, message_id: &str, message_digest: &str, pending_digest: &[u8]) -> (result: Result<ProducerOutcome, ProducerError>)
        ensures
            ({
                let v = old(self)@;
                match v.pending {
                    None => final(self)@ == v && result == Err::<ProducerOutcome, ProducerError>(ProducerError::InvalidTransition),
                    Some(p) => if !p.handed_off || utf8(message_id@) != p.id || utf8(message_digest@) != hex_text(pending_digest@)
                        || !(v.state == ProducerState::PendingCompletion || v.state == ProducerState::PausedAfterFailure) {
                        final(self)@ == v && result == Err::<ProducerOutcome, ProducerError>(ProducerError::InvalidInput)
                    } else if v.revision == u64::MAX {
                        final(self)@ == spec_discard(v) && result == Err::<ProducerOutcome, ProducerError>(ProducerError::InvalidTransition)
                    } else {
                        final(self)@ == (ProducerView {
                            revision: (v.revision + 1) as u64,
                            state: ProducerState::Ready,
                            readiness: Readiness::Intent,
                            ..spec_discard(v)
                        }) && result == Ok::<ProducerOutcome, ProducerError>(ProducerOutcome::Committed)
                    },
                }
            }),
    {
        let expected_hex = crate::text::hex_lower(pending_digest);
        let refused = match &self.pending {
            None => { return Err(ProducerError::InvalidTransition); },
            Some(p) => !p.handed_off
                || !crate::text::bytes_eq(message_id.as_bytes(), p.id.as_slice())
                || !crate::text::bytes_eq(message_digest.as_bytes(), expected_hex.as_slice())
                || !(self.state == ProducerState::PendingCompletion || self.state == ProducerState::PausedAfterFailure),
        };
        if refused {
            return Err(ProducerError::InvalidInput);
        }
        self.discard_incomplete();
        self.revision = match self.revision.checked_add(1) {
            Some(r) => r,
            None => { return Err(ProducerError::InvalidTransition); },
        };
        self.state = ProducerState::Ready;
        self.readiness = Readiness::Intent;
        Ok(ProducerOutcome::Committed)
    }
}


/// No operation that leaves sealing aside ever lowers the section revision.
pub proof fn law_revision_never_decreases(
    v: ProducerView,
    control: Result<ControlBody, ControlDecodeError>,
    digest: Seq<u8>,
    now: u64,
    work: usize,
    generation: u64,
    start: Result<Seq<u8>, ProducerError>,
    bootstrap: Result<Seq<u8>, ProducerError>,
    finish: SectionFinishEvidence,
)
    ensures
        spec_control(v, control, digest, now).0.revision >= v.revision,
        spec_progress(v, work, now, start).0.revision >= v.revision,
        spec_observe_connection(v, generation, now, bootstrap).0.revision >= v.revision,
        spec_finish_section(v, finish).0.revision >= v.revision,
        spec_fail_section(v).revision == v.revision,
        spec_mark_local_handoff(v, now).0.revision == v.revision,
{
}

/// Sealing never changes the section revision.
pub proof fn law_sealing_keeps_revision<F: Fn(SealCall) -> Result<Option<Vec<u8>>, ProducerError>>(
    v: ProducerView,
    now: u64,
    seal: F,
    after: ProducerView,
    result: Result<ProducerOutcome, ProducerError>,
)
    requires
        seal_outcome(v, now, seal, after, result),
    ensures
        after.revision == v.revision,
{
}

/// A message is offered at most twice: a capacity verdict on its second
/// attempt pauses the producer instead of offering it again.
pub proof fn law_retry_is_bounded(v: ProducerView, now: u64)
    requires
        v.pending matches Some(p) && p.attempts <= 2,
    ensures
        spec_retry(v, now).0.pending matches Some(p) && p.attempts <= 2,
        v.pending->0.attempts == 2 ==> spec_retry(v, now).1 == ProducerOutcome::PausedAfterFailure
            && spec_retry(v, now).0.state == ProducerState::PausedAfterFailure,
{
}

/// Once the outstanding message is handed to the transport it is not offered again.
pub proof fn law_handoff_hides_pending(v: ProducerView, now: u64)
    requires
        spec_mark_local_handoff(v, now).1 is Ok,
    ensures
        spec_pending_bytes(spec_mark_local_handoff(v, now).0) is None,
{
}

/// A failed section leaves nothing behind: no outstanding message, no
/// collected record, and a paused producer.
pub proof fn law_fail_section_drops_everything(v: ProducerView)
    ensures
        spec_fail_section(v).pending is None,
        spec_fail_section(v).records.len() == 0,
        spec_fail_section(v).evidence is None,
        spec_fail_section(v).state == ProducerState::PausedAfterFailure,
        spec_collection_admitted(spec_fail_section(v)) == false,
{
}

/// The handshake is accepted only after the handshake message itself was
/// handed to the transport, and it clears that message.
pub proof fn law_handshake_follows_handoff(v: ProducerView, digest: Seq<u8>, now: u64)
    requires
        spec_control(v, Ok(ControlBody::Handshake), digest, now).1 is Ok,
    ensures
        v.pending matches Some(p) && p.id == bootstrap_id() && p.handed_off,
        spec_control(v, Ok(ControlBody::Handshake), digest, now).0.pending is None,
        spec_control(v, Ok(ControlBody::Handshake), digest, now).0.state == ProducerState::Ready,
{
}

/// A section can only be opened once the bridge has granted demand.
pub proof fn law_begin_requires_demand(v: ProducerView, evidence: SectionEvidence, expected: usize)
    requires
        spec_begin(v, evidence, expected).1 is Ok,
    ensures
        v.readiness == Readiness::Ready,
        v.state == ProducerState::Ready,
{
}

/// A later connection generation starts the next transport epoch over with a
/// fresh, not yet handed off handshake and nothing else outstanding.
pub proof fn law_reconnect_rearms_handshake(v: ProducerView, generation: u64, now: u64, bootstrap: Seq<u8>)
    requires
        v.connection_generation > 0,
        generation > v.connection_generation,
        spec_observe_connection(v, generation, now, Ok(bootstrap)).1 is Ok,
    ensures
        ({
            let after = spec_observe_connection(v, generation, now, Ok(bootstrap)).0;
            &&& after.state == ProducerState::AwaitingCompatibility
            &&& after.readiness == Readiness::Awaiting
            &&& after.source.transport_epoch == v.source.transport_epoch + 1
            &&& after.connection_generation == generation
            &&& spec_pending_bytes(after) == Some(bootstrap)
            &&& after.records.len() == 0
        }),
{
}

/// An old or unknown connection generation changes nothing.
pub proof fn law_stale_generation_is_ignored(v: ProducerView, generation: u64, now: u64, bootstrap: Result<Seq<u8>, ProducerError>)
    requires
        generation == 0 || generation <= v.connection_generation,
    ensures
        spec_observe_connection(v, generation, now, bootstrap) == (v, Ok::<(), ProducerError>(())),
{
}

/// A committed completion advances the revision by exactly one and returns to
/// waiting for the next collection intent with nothing outstanding.
pub proof fn law_commit_advances_revision(v: ProducerView)
    requires
        v.state == ProducerState::PendingCompletion,
        v.revision < u64::MAX,
    ensures
        spec_advance(v, ProducerFeedback::Committed).1 == Ok::<ProducerOutcome, ProducerError>(ProducerOutcome::Committed),
        spec_advance(v, ProducerFeedback::Committed).0.revision == v.revision + 1,
        spec_advance(v, ProducerFeedback::Committed).0.readiness == Readiness::Intent,
        spec_advance(v, ProducerFeedback::Committed).0.pending is None,
{
}

/// Sealing a batch takes the oldest `count` collected records and nothing
/// else: with the records still waiting, every collected record is sealed
/// exactly once and in the order it was collected, and the batch is the next
/// one of the section.
pub proof fn law_sealing_keeps_every_record_once(v: ProducerView, count: usize, bytes: Seq<u8>, now: u64)
    requires
        1 <= count <= v.records.len(),
        v.emitted_records + count <= usize::MAX,
        v.next_batch_index < usize::MAX,
    ensures
        v.records =~= v.records.subrange(0, count as int) + spec_sealed_batch(v, count, bytes, now).records,
        spec_sealed_batch(v, count, bytes, now).emitted_records == v.emitted_records + count,
        spec_sealed_batch(v, count, bytes, now).next_batch_index == v.next_batch_index + 1,
        spec_sealed_batch(v, count, bytes, now).pending == Some(fresh_pending(
            bytes,
            batch_id(v.revision, v.source.transport_epoch, (v.next_batch_index + 1) as usize),
            now,
        )),
{
}

/// The states in which a section is open and still collecting or sending
/// its records: from its reservation until its completion message is sealed.
pub open spec fn section_open(state: ProducerState) -> bool {
    state == ProducerState::SectionReserved || state == ProducerState::Collecting
        || state == ProducerState::PendingStart || state == ProducerState::PendingBatch
}

/// A producer with an open section holds that section's opening evidence.
pub open spec fn producer_wf(v: ProducerView) -> bool {
    section_open(v.state) ==> v.evidence is Some
}

/// A new producer has no open section, and every operation keeps the
/// opening evidence of an open section, so a producer reached by any
/// sequence of operations holds the evidence of the section it has open.
pub proof fn law_open_sections_keep_their_evidence(
    v: ProducerView,
    limits: ProducerLimits,
    source: ProducerSource,
    now: u64,
    bootstrap_bytes: Seq<u8>,
    evidence: SectionEvidence,
    expected: usize,
    record: RecordView,
    finish: SectionFinishEvidence,
    work: usize,
    start: Result<Seq<u8>, ProducerError>,
    generation: u64,
    bootstrap: Result<Seq<u8>, ProducerError>,
    policy: ProducerAdmissionPolicy,
    control: Result<ControlBody, ControlDecodeError>,
    digest: Seq<u8>,
)
    requires
        producer_wf(v),
    ensures
        producer_wf(spec_initial(limits, source, now, bootstrap_bytes)),
        producer_wf(spec_mark_local_handoff(v, now).0),
        producer_wf(spec_fail_section(v)),
        producer_wf(spec_close(v)),
        producer_wf(spec_begin(v, evidence, expected).0),
        producer_wf(spec_push(v, record).0),
        producer_wf(spec_finish_section(v, finish).0),
        producer_wf(spec_progress(v, work, now, start).0),
        producer_wf(spec_observe_connection(v, generation, now, bootstrap).0),
        producer_wf(spec_configure_admission(v, policy).0),
        producer_wf(spec_observe_progress(v, now).0),
        producer_wf(spec_control(v, control, digest, now).0),
{
}

/// Sealing keeps the opening evidence of an open section.
pub proof fn law_sealing_keeps_evidence<F: Fn(SealCall) -> Result<Option<Vec<u8>>, ProducerError>>(
    v: ProducerView,
    now: u64,
    seal: F,
    after: ProducerView,
    result: Result<ProducerOutcome, ProducerError>,
)
    requires
        producer_wf(v),
        seal_outcome(v, now, seal, after, result),
    ensures
        producer_wf(after),
{
}

/// No operation changes the selected key: it stays the clock section's key
/// from creation on, whatever intents the bridge sends.
pub proof fn law_selected_key_is_fixed(
    v: ProducerView,
    limits: ProducerLimits,
    source: ProducerSource,
    now: u64,
    bootstrap_bytes: Seq<u8>,
    control: Result<ControlBody, ControlDecodeError>,
    digest: Seq<u8>,
    work: usize,
    start: Result<Seq<u8>, ProducerError>,
    generation: u64,
    bootstrap: Result<Seq<u8>, ProducerError>,
    finish: SectionFinishEvidence,
)
    ensures
        spec_initial(limits, source, now, bootstrap_bytes).selected_key == default_section_key(),
        spec_control(v, control, digest, now).0.selected_key == v.selected_key,
        spec_progress(v, work, now, start).0.selected_key == v.selected_key,
        spec_observe_connection(v, generation, now, bootstrap).0.selected_key == v.selected_key,
        spec_finish_section(v, finish).0.selected_key == v.selected_key,
        spec_fail_section(v).selected_key == v.selected_key,
{
}

/// Every record pushed into the open section takes one of its record slots:
/// while slots are left, a successful push leaves one fewer.
pub proof fn law_push_takes_one_slot(v: ProducerView, record: RecordView)
    requires
        spec_push(v, record).1 is Ok,
        spec_remaining_records(v) > 0,
    ensures
        spec_remaining_records(spec_push(v, record).0) + 1 == spec_remaining_records(v),
{
}

/// The records left are the record ceiling less the sealed batches and the
/// collected records, and none once those reach the ceiling.
pub proof fn law_remaining_counts_collected_records(v: ProducerView)
    ensures
        v.next_batch_index + v.records.len() >= v.limits.max_records ==> spec_remaining_records(v) == 0,
        v.next_batch_index + v.records.len() < v.limits.max_records ==> spec_remaining_records(v)
            + v.next_batch_index + v.records.len() == v.limits.max_records,
{
}

/// Closing claims that report failure fail the open section: the answer is
/// invalid input and the producer pauses with nothing collected.
pub proof fn law_failed_finish_fails_section(v: ProducerView, finish: SectionFinishEvidence)
    requires
        v.state == ProducerState::SectionReserved || v.state == ProducerState::Collecting,
        v.records.len() == v.expected_records,
        v.evidence is Some,
        !finish.succeeded,
    ensures
        spec_finish_section(v, finish).1 == Err::<(), ProducerError>(ProducerError::InvalidInput),
        spec_finish_section(v, finish).0.state == ProducerState::PausedAfterFailure,
        spec_finish_section(v, finish).0.records.len() == 0,
{
}

/// A faction census row's content ends with the line `mind_candidate=true`
/// when the row names a mind candidate and `mind_candidate=false` otherwise.
pub proof fn law_census_reports_mind_candidate(r: FactionCensusRecord)
    ensures
        ({
            let c = spec_census_content(r);
            &&& r.mind_candidate ==> c.len() >= 20 && c.subrange(c.len() - 20, c.len() as int) == utf8(
                "\nmind_candidate=true"@,
            )
            &&& !r.mind_candidate ==> c.len() >= 21 && c.subrange(c.len() - 21, c.len() as int) == utf8(
                "\nmind_candidate=false"@,
            )
        }),
{
    reveal_strlit("\nmind_candidate=");
    reveal_strlit("true");
    reveal_strlit("false");
    reveal_strlit("\nmind_candidate=true");
    reveal_strlit("\nmind_candidate=false");
    let line = "\nmind_candidate="@;
    assert(vstd::utf8::is_ascii_chars(line));
    assert(vstd::utf8::is_ascii_chars("true"@));
    assert(vstd::utf8::is_ascii_chars("false"@));
    crate::text::lemma_utf8_ascii_concat(line, "true"@);
    crate::text::lemma_utf8_ascii_concat(line, "false"@);
    assert(line + "true"@ =~= "\nmind_candidate=true"@);
    assert(line + "false"@ =~= "\nmind_candidate=false"@);
    let head = utf8("discovery_revision="@) + decimal_text(r.discovery_revision as nat)
        + utf8("\ndisposition="@) + utf8(r.disposition@)
        + utf8("\nreason="@) + utf8(r.reason@)
        + utf8("\norigin="@) + utf8(r.origin@)
        + utf8("\nsource_evidence="@) + utf8(r.source_evidence@);
    let tail = utf8(line) + bool_text(r.mind_candidate);
    assert(spec_census_content(r) =~= head + tail);
    let c = spec_census_content(r);
    assert(c.subrange(head.len() as int, c.len() as int) =~= tail);
}

} // verus!
