use vstd::prelude::*;

verus! {

/// Ceilings a producer works within; `valid` asks that each is positive.
#[derive(Clone, Copy, Debug, PartialEq, Eq, Structural)]
pub struct ProducerLimits {
    pub data_message_bytes: usize,
    pub control_message_bytes: usize,
    pub max_records: usize,
    pub max_raw_bytes: usize,
    pub max_batches: usize,
    pub max_work: usize,
    pub max_retry_age_millis: u64,
}

impl ProducerLimits {
    /// Every ceiling is positive.
    pub open spec fn spec_valid(self) -> bool {
        self.data_message_bytes > 0 && self.control_message_bytes > 0 && self.max_records > 0
            && self.max_raw_bytes > 0 && self.max_batches > 0 && self.max_work > 0
            && self.max_retry_age_millis > 0
    }

    /// The small ceilings used while the bridge is brought up.
    pub fn bring_up() -> (limits: Self)
        ensures
            limits == (ProducerLimits {
                data_message_bytes: 2048,
                control_message_bytes: 512,
                max_records: 1,
                max_raw_bytes: 96,
                max_batches: 1,
                max_work: 1,
                max_retry_age_millis: 5000,
            }),
    {
        ProducerLimits {
            data_message_bytes: 2_048,
            control_message_bytes: 512,
            max_records: 1,
            max_raw_bytes: 96,
            max_batches: 1,
            max_work: 1,
            max_retry_age_millis: 5_000,
        }
    }

    /// Whether every ceiling is positive.
    pub fn valid(self) -> (ok: bool)
        ensures
            ok == self.spec_valid(),
    {
        self.data_message_bytes > 0 && self.control_message_bytes > 0 && self.max_records > 0
            && self.max_raw_bytes > 0 && self.max_batches > 0 && self.max_work > 0
            && self.max_retry_age_millis > 0
    }
}

/// How strictly a producer admits collections: inner records per row, send
/// attempts per message, and section age.
#[derive(Clone, Copy, Debug, PartialEq, Eq, Structural)]
pub struct ProducerAdmissionPolicy {
    pub max_inner_records: usize,
    pub max_attempts: u8,
    pub max_age_millis: u64,
}

/// What the producer knows about the source epoch it observes.
#[derive(Clone, Copy, Debug, PartialEq, Eq, Structural)]
pub enum SourceEpochStatus {
    Unknown,
    BoundaryUncertain,
}

/// Where the observed source last started over.
#[derive(Clone, Copy, Debug, PartialEq, Eq, Structural)]
pub enum SourceBoundary {
    RuntimeStart,
    GameLoaded,
    LuaReload,
    TransportReconnect,
}

/// Freshness of a captured section.
#[derive(Clone, Copy, Debug, PartialEq, Eq, Structural)]
pub enum SectionFreshness {
    Fresh,
}

/// Quality a sender claims for a section.
#[derive(Clone, Copy, Debug, PartialEq, Eq, Structural)]
pub enum SectionQuality {
    Unknown,
}

/// Availability a sender claims for a section.
#[derive(Clone, Copy, Debug, PartialEq, Eq, Structural)]
pub enum SectionAvailability {
    Available,
}

/// How much of a section a capture covers.
#[derive(Clone, Copy, Debug, PartialEq, Eq, Structural)]
pub enum SectionCoverage {
    Complete,
    KnownEmpty,
    Partial,
    Unknown,
    Unsupported,
    PointMeasurement,
}

/// Consistency a sender claims for its source.
#[derive(Clone, Copy, Debug, PartialEq, Eq, Structural)]
pub enum SourceConsistency {
    Unknown,
    ObservedCountFillOnly,
    Barrier,
    VersionedManifest,
    EventInterval,
}

/// The capture window and claims of one section.
#[derive(Clone, Copy, Debug, PartialEq, Eq, Structural)]
pub struct SectionState {
    pub capture_start_millis: u64,
    pub capture_end_millis: u64,
    pub freshness: SectionFreshness,
    pub quality: SectionQuality,
    pub availability: SectionAvailability,
    pub coverage: SectionCoverage,
}

/// What a sender states about the section it is about to send.
#[derive(Clone, Copy, Debug, PartialEq, Eq, Structural)]
pub struct SenderEvidence {
    pub section_state: SectionState,
    pub source_epoch_status: SourceEpochStatus,
    pub source_boundary: SourceBoundary,
    pub source_consistency: SourceConsistency,
    pub stable_identity: bool,
}

/// Who produces observations and over which transport epoch.
#[derive(Clone, Debug, PartialEq, Eq)]
pub struct ProducerSource {
    pub session_id: String,
    pub producer_incarnation: String,
    pub transport_epoch: u64,
    pub source_scope: String,
    pub source_epoch_status: SourceEpochStatus,
    pub source_boundary: SourceBoundary,
}

impl ProducerSource {
    /// A copy of the source.
    pub fn duplicate(&self) -> (copy: Self)
        ensures
            copy == *self,
    {
        ProducerSource {
            session_id: self.session_id.clone(),
            producer_incarnation: self.producer_incarnation.clone(),
            transport_epoch: self.transport_epoch,
            source_scope: self.source_scope.clone(),
            source_epoch_status: self.source_epoch_status,
            source_boundary: self.source_boundary,
        }
    }
}

/// The scope and sender claims a section begins with.
#[derive(Clone, Debug, PartialEq, Eq)]
pub struct SectionEvidence {
    pub source_scope: String,
    pub sender: SenderEvidence,
}

impl SectionEvidence {
    /// A copy of the evidence.
    pub fn duplicate(&self) -> (copy: Self)
        ensures
            copy == *self,
    {
        SectionEvidence { source_scope: self.source_scope.clone(), sender: self.sender }
    }
}

/// What a sender states when a section ends.
#[derive(Clone, Copy, Debug, PartialEq, Eq, Structural)]
pub struct SectionFinishEvidence {
    pub capture_end_millis: u64,
    pub succeeded: bool,
    pub quality: SectionQuality,
    pub availability: SectionAvailability,
    pub coverage: SectionCoverage,
    pub consistency: SourceConsistency,
    pub stable_identity: bool,
}

/// One observed runtime fact.
#[derive(Clone, Debug, PartialEq, Eq)]
pub struct TypedFact {
    pub entity_id: String,
    pub observation_version: u64,
    pub getter: String,
    pub semantics: String,
    pub raw_value: String,
}

/// One faction's row in a faction census.
#[derive(Clone, Debug, PartialEq, Eq)]
pub struct FactionCensusRecord {
    pub faction_id: String,
    pub discovery_revision: u64,
    pub disposition: String,
    pub reason: String,
    pub origin: String,
    pub source_evidence: String,
    pub mind_candidate: bool,
}

/// One ship's core fields, already checked by the observation domain.
#[derive(Clone, Debug, PartialEq, Eq)]
pub struct ShipCoreRecord {
    pub source_scope: String,
    pub identity: String,
    pub owner: String,
    pub ship_type: String,
    pub class: String,
    pub location: String,
}

/// The kind of ship section a section key names.
#[derive(Clone, Copy, Debug, PartialEq, Eq, Structural)]
pub enum ShipSectionKind {
    Core,
    Cargo,
    Crew,
    Loadout,
}

/// Which collection a producer has been asked for.
#[derive(Clone, Copy, Debug, PartialEq, Eq, Structural)]
pub enum ProducerProfile {
    Clock,
    FactionCensus,
    ShipCore,
    ShipCargo,
    ShipCrew,
    ShipLoadout,
}

/// The profile a section key selects, given what the ship-section grammar
/// made of the key.
pub open spec fn spec_profile_for(key: Seq<char>, ship_kind: Option<ShipSectionKind>) -> Option<ProducerProfile> {
    if key == "faction_census"@ {
        Some(ProducerProfile::FactionCensus)
    } else {
        match ship_kind {
            Some(ShipSectionKind::Core) => Some(ProducerProfile::ShipCore),
            Some(ShipSectionKind::Cargo) => Some(ProducerProfile::ShipCargo),
            Some(ShipSectionKind::Crew) => Some(ProducerProfile::ShipCrew),
            Some(ShipSectionKind::Loadout) => Some(ProducerProfile::ShipLoadout),
            None => if key == "carrier_b_realtime_sample"@ { Some(ProducerProfile::Clock) } else { None },
        }
    }
}

impl ProducerProfile {
    /// The profile a section key selects; `ship_kind` is what the ship-section
    /// grammar made of the key.
    pub fn from_section_key(value: &str, ship_kind: Option<ShipSectionKind>) -> (profile: Option<Self>)
        ensures
            profile == spec_profile_for(value@, ship_kind),
    {
        if crate::text::text_eq(value, "faction_census") {
            return Some(ProducerProfile::FactionCensus);
        }
        match ship_kind {
            Some(ShipSectionKind::Core) => Some(ProducerProfile::ShipCore),
            Some(ShipSectionKind::Cargo) => Some(ProducerProfile::ShipCargo),
            Some(ShipSectionKind::Crew) => Some(ProducerProfile::ShipCrew),
            Some(ShipSectionKind::Loadout) => Some(ProducerProfile::ShipLoadout),
            None => if crate::text::text_eq(value, "carrier_b_realtime_sample") {
                Some(ProducerProfile::Clock)
            } else {
                None
            },
        }
    }
}

/// A record ready for batching: its entity id and canonical content, as UTF-8.
#[derive(Clone, Debug, PartialEq, Eq)]
pub struct PreparedRecord {
    pub entity_id: Vec<u8>,
    pub content: Vec<u8>,
}

/// A prepared record as byte sequences.
pub struct RecordView {
    pub entity_id: Seq<u8>,
    pub content: Seq<u8>,
}

impl View for PreparedRecord {
    type V = RecordView;

    open spec fn view(&self) -> RecordView {
        RecordView { entity_id: self.entity_id@, content: self.content@ }
    }
}

/// Where a producer stands in its collection cycle.
#[derive(Clone, Copy, Debug, PartialEq, Eq, Structural)]
pub enum ProducerState {
    AwaitingCompatibility,
    Ready,
    SectionReserved,
    Collecting,
    PendingStart,
    PendingBatch,
    PendingCompletion,
    PausedAfterFailure,
    Incompatible,
    Closed,
}

/// What a producer operation achieved.
#[derive(Clone, Copy, Debug, PartialEq, Eq, Structural)]
pub enum ProducerOutcome {
    Accepted,
    Progress,
    CapacityUnavailable,
    NoControl,
    Received,
    Committed,
    PermanentlyRejected,
    Ambiguous,
    PausedAfterFailure,
    Disconnected,
    RestartRequired,
}

/// The bridge's verdict on a message the producer sent.
#[derive(Clone, Copy, Debug, PartialEq, Eq, Structural)]
pub enum ProducerFeedback {
    CapacityUnavailable,
    Received,
    Committed,
    PermanentlyRejected,
    Ambiguous,
    StaleEpoch,
    TimedOutOrSuperseded,
}

/// Why a producer refused an operation.
#[derive(Clone, Copy, Debug, PartialEq, Eq, Structural)]
pub enum ProducerError {
    InvalidInput,
    InvalidTransition,
    DataLimit,
    ControlLimit,
    StaleEpoch,
    Incompatible,
    ClockUnavailable,
}

} // verus!
