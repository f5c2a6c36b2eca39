use vstd::prelude::*;

verus! {

/// Bytes of the open-configuration record the host hands to `open`.
pub const OPEN_CONFIG_RECORD_SIZE: u32 = 24;

/// Per-handle message ceilings; both are positive.
#[derive(Clone, Copy, Debug, PartialEq, Eq, Structural)]
pub struct CarrierLimits {
    pub data_message_bytes: usize,
    pub control_message_bytes: usize,
}

impl CarrierLimits {
    /// Builds the limits from two positive byte ceilings.
    pub fn new(data_message_bytes: usize, control_message_bytes: usize) -> (limits: Self)
        requires
            data_message_bytes > 0,
            control_message_bytes > 0,
        ensures
            limits.data_message_bytes == data_message_bytes,
            limits.control_message_bytes == control_message_bytes,
    {
        CarrierLimits { data_message_bytes, control_message_bytes }
    }

    /// Both ceilings are positive.
    pub open spec fn wf(self) -> bool {
        self.data_message_bytes > 0 && self.control_message_bytes > 0
    }
}

/// The configuration record an `open` call carries.
#[derive(Clone, Copy, Debug, PartialEq, Eq, Structural)]
pub struct OpenConfig {
    pub abi_version: u32,
    pub record_size: u32,
    pub limits: CarrierLimits,
}

impl OpenConfig {
    /// The record the current module version expects, for the given limits.
    pub fn current(limits: CarrierLimits) -> (config: Self)
        ensures
            config.abi_version == crate::ABI_VERSION,
            config.record_size == OPEN_CONFIG_RECORD_SIZE,
            config.limits == limits,
    {
        OpenConfig { abi_version: crate::ABI_VERSION, record_size: OPEN_CONFIG_RECORD_SIZE, limits }
    }
}

/// Identifies one opened carrier handle.
#[derive(Clone, Copy, Debug, PartialEq, Eq, Structural)]
pub struct HandleToken {
    pub generation: u32,
    pub slot: u32,
}

/// Why a carrier request was refused.
#[derive(Clone, Copy, Debug, PartialEq, Eq, Structural)]
pub enum CarrierError {
    WrongVersion,
    WrongRecordSize,
    MessageTooLarge,
    ControlTooLarge,
    ControlCapacityUnavailable,
    InvalidOutputCapacity,
    StaleHandle,
    GenerationExhausted,
    TransportUnavailable,
}

/// Result of handing a data message to the carrier.
#[derive(Clone, Copy, Debug, PartialEq, Eq, Structural)]
pub enum SendOutcome {
    LocalHandoff,
    CapacityUnavailable,
    Rejected(CarrierError),
}

/// Result of asking the carrier for a queued control message.
#[derive(Clone, Debug, PartialEq, Eq)]
pub enum ControlPollOutcome {
    NoMessage,
    Message(Vec<u8>),
    Rejected(CarrierError),
}

/// Result of closing a carrier handle.
#[derive(Clone, Copy, Debug, PartialEq, Eq, Structural)]
pub enum CloseOutcome {
    Closed,
    AlreadyClosed,
    Rejected(CarrierError),
}

} // verus!
