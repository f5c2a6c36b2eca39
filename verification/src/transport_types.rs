use vstd::prelude::*;

use crate::types::HandleToken;

verus! {

/// Where the transport listens and how large its messages may be.
#[derive(Clone, Debug, PartialEq, Eq)]
pub struct TransportConfig {
    pub pipe_name: String,
    pub max_data_message_bytes: usize,
    pub max_control_message_bytes: usize,
}

/// Why the transport refused a request.
#[derive(Clone, Copy, Debug, PartialEq, Eq, Structural)]
pub enum TransportError {
    InvalidConfig,
    Unavailable,
    SecurityPolicyFailed,
    AccessProbeFailed,
    PipeCreationFailed,
    WorkerStartFailed,
    StaleGeneration,
    MessageTooLarge,
    InvalidOutputCapacity,
}

/// Result of handing a data message to the transport.
#[derive(Clone, Copy, Debug, PartialEq, Eq, Structural)]
pub enum TransportSendOutcome {
    LocalHandoff,
    CapacityUnavailable,
    Rejected(TransportError),
}

/// Result of asking the transport for a control message.
#[derive(Clone, Debug, PartialEq, Eq)]
pub enum TransportPoll {
    NoMessage,
    Message(Vec<u8>),
    Closed,
    Rejected(TransportError),
}

/// Result of asking the transport to close.
#[derive(Clone, Copy, Debug, PartialEq, Eq, Structural)]
pub enum CloseProgress {
    Requested,
    Complete,
    StaleGeneration,
}

/// Whether one security control is in force.
#[derive(Clone, Copy, Debug, PartialEq, Eq, Structural)]
pub enum SecurityControl {
    Enforced,
    Missing,
}

impl Default for SecurityControl {
    fn default() -> (control: Self)
        ensures
            control == SecurityControl::Missing,
    {
        SecurityControl::Missing
    }
}

impl From<bool> for SecurityControl {
    fn from(value: bool) -> (control: Self) {
        if value { SecurityControl::Enforced } else { SecurityControl::Missing }
    }
}

impl vstd::std_specs::convert::FromSpecImpl<bool> for SecurityControl {
    open spec fn obeys_from_spec() -> bool {
        true
    }

    open spec fn from_spec(value: bool) -> Self {
        if value { SecurityControl::Enforced } else { SecurityControl::Missing }
    }
}

/// The control a probe result stands for.
pub open spec fn control_for(value: bool) -> SecurityControl {
    if value { SecurityControl::Enforced } else { SecurityControl::Missing }
}

/// The security controls the transport's pipe was created with.
#[derive(Clone, Copy, Debug, PartialEq, Eq, Structural)]
pub struct SecurityEvidence {
    pub explicit_descriptor: SecurityControl,
    pub current_logon_allowed: SecurityControl,
    pub outside_logon_denied: SecurityControl,
    pub remote_clients_rejected: SecurityControl,
}

impl Default for SecurityEvidence {
    fn default() -> (evidence: Self)
        ensures
            evidence == (SecurityEvidence {
                explicit_descriptor: SecurityControl::Missing,
                current_logon_allowed: SecurityControl::Missing,
                outside_logon_denied: SecurityControl::Missing,
                remote_clients_rejected: SecurityControl::Missing,
            }),
    {
        SecurityEvidence {
            explicit_descriptor: SecurityControl::Missing,
            current_logon_allowed: SecurityControl::Missing,
            outside_logon_denied: SecurityControl::Missing,
            remote_clients_rejected: SecurityControl::Missing,
        }
    }
}

impl SecurityEvidence {
    /// The evidence for a pipe created with an explicit descriptor (or not),
    /// with the two access-probe results; remote clients are always rejected.
    pub fn from_probe(explicit_descriptor: bool, current_allowed: bool, outside_denied: bool) -> (evidence: Self)
        ensures
            evidence.explicit_descriptor == control_for(explicit_descriptor),
            evidence.current_logon_allowed == control_for(current_allowed),
            evidence.outside_logon_denied == control_for(outside_denied),
            evidence.remote_clients_rejected == SecurityControl::Enforced,
    {
        SecurityEvidence {
            explicit_descriptor: SecurityControl::from(explicit_descriptor),
            current_logon_allowed: SecurityControl::from(current_allowed),
            outside_logon_denied: SecurityControl::from(outside_denied),
            remote_clients_rejected: SecurityControl::from(true),
        }
    }
}

/// What the transport's worker reports about its connection.
#[derive(Clone, Copy, Debug, PartialEq, Eq, Structural)]
pub struct WorkerSnapshot {
    pub connected: bool,
    pub connection_generation: u64,
    pub pending_operation_owners: usize,
    pub monotonic_millis: Option<u64>,
    pub closed: bool,
}

impl Default for WorkerSnapshot {
    fn default() -> (snapshot: Self)
        ensures
            snapshot == (WorkerSnapshot {
                connected: false,
                connection_generation: 0,
                pending_operation_owners: 0,
                monotonic_millis: None,
                closed: false,
            }),
    {
        WorkerSnapshot {
            connected: false,
            connection_generation: 0,
            pending_operation_owners: 0,
            monotonic_millis: None,
            closed: false,
        }
    }
}

impl WorkerSnapshot {
    /// A snapshot from the worker's flags; the clock reading counts only
    /// while the clock is available.
    pub fn observed(connected: bool, connection_generation: u64, owners: usize, clock_available: bool, millis: u64, closed: bool) -> (snapshot: Self)
        ensures
            snapshot == (WorkerSnapshot {
                connected,
                connection_generation,
                pending_operation_owners: owners,
                monotonic_millis: if clock_available { Some(millis) } else { None },
                closed,
            }),
    {
        WorkerSnapshot {
            connected,
            connection_generation,
            pending_operation_owners: owners,
            monotonic_millis: if clock_available { Some(millis) } else { None },
            closed,
        }
    }
}

/// A configuration needs a pipe name and two positive message ceilings.
pub open spec fn spec_config_valid(config: TransportConfig) -> bool {
    config.pipe_name@.len() > 0 && config.max_data_message_bytes > 0 && config.max_control_message_bytes > 0
}

/// Checks a transport configuration.
pub fn validate(config: &TransportConfig) -> (result: Result<(), TransportError>)
    ensures
        result == (if spec_config_valid(*config) { Ok::<(), TransportError>(()) } else { Err(TransportError::InvalidConfig) }),
{
    if config.pipe_name.as_str().is_empty() || config.max_data_message_bytes == 0
        || config.max_control_message_bytes == 0 {
        Err(TransportError::InvalidConfig)
    } else {
        Ok(())
    }
}

/// The transport's answer to a send before it tries to claim its one data
/// slot: `None` means the slot may be claimed.
pub open spec fn spec_send_precheck(owner: HandleToken, token: HandleToken, len: usize, max: usize, close_requested: bool) -> Option<TransportSendOutcome> {
    if token != owner {
        Some(TransportSendOutcome::Rejected(TransportError::StaleGeneration))
    } else if len > max {
        Some(TransportSendOutcome::Rejected(TransportError::MessageTooLarge))
    } else if close_requested {
        Some(TransportSendOutcome::CapacityUnavailable)
    } else {
        None
    }
}

/// Decides a send before the data slot is claimed: a foreign token, an
/// oversized message, or a pending close each settle it.
pub fn send_precheck(owner: HandleToken, token: HandleToken, len: usize, max: usize, close_requested: bool) -> (outcome: Option<TransportSendOutcome>)
    ensures
        outcome == spec_send_precheck(owner, token, len, max, close_requested),
{
    if token != owner {
        Some(TransportSendOutcome::Rejected(TransportError::StaleGeneration))
    } else if len > max {
        Some(TransportSendOutcome::Rejected(TransportError::MessageTooLarge))
    } else if close_requested {
        Some(TransportSendOutcome::CapacityUnavailable)
    } else {
        None
    }
}

/// Answers a close request from the owner's token and whether the worker has stopped.
pub fn close_decision(owner: HandleToken, token: HandleToken, closed: bool) -> (progress: CloseProgress)
    ensures
        progress == (if token != owner { CloseProgress::StaleGeneration } else if closed { CloseProgress::Complete } else { CloseProgress::Requested }),
{
    if token != owner {
        CloseProgress::StaleGeneration
    } else if closed {
        CloseProgress::Complete
    } else {
        CloseProgress::Requested
    }
}

/// What the poll does with one control message from the worker.
#[derive(Clone, Copy, Debug, PartialEq, Eq, Structural)]
pub enum ControlSelection {
    /// It belongs to an earlier connection; drop it and look at the next.
    Skip,
    /// It does not fit the caller's buffer; keep it for a later poll.
    Retain,
    /// Hand it to the caller.
    Deliver,
}

/// Classifies a control message by its connection generation and size.
pub fn select_control(message_generation: u64, len: usize, current_generation: u64, capacity: usize) -> (selection: ControlSelection)
    ensures
        selection == (if message_generation != current_generation { ControlSelection::Skip }
            else if len > capacity { ControlSelection::Retain }
            else { ControlSelection::Deliver }),
{
    if message_generation != current_generation {
        ControlSelection::Skip
    } else if len > capacity {
        ControlSelection::Retain
    } else {
        ControlSelection::Deliver
    }
}

/// Checks a peer's receive buffer against the data ceiling.
pub fn peer_receive_check(capacity: usize, max_data_message_bytes: usize) -> (result: Result<(), TransportError>)
    ensures
        result == (if capacity == 0 || capacity > max_data_message_bytes { Err(TransportError::InvalidConfig) } else { Ok::<(), TransportError>(()) }),
{
    if capacity == 0 || capacity > max_data_message_bytes {
        Err(TransportError::InvalidConfig)
    } else {
        Ok(())
    }
}

/// Checks a peer's control message against the control ceiling.
pub fn peer_send_check(len: usize, max_control_message_bytes: usize) -> (result: Result<(), TransportError>)
    ensures
        result == (if len > max_control_message_bytes { Err(TransportError::MessageTooLarge) } else { Ok::<(), TransportError>(()) }),
{
    if len > max_control_message_bytes {
        Err(TransportError::MessageTooLarge)
    } else {
        Ok(())
    }
}

} // verus!
