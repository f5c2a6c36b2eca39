use vstd::prelude::*;

use crate::abi::spec_error_code;
use crate::handle::{owns, spec_close, spec_open, spec_reset, HandleRegistry, RegistryView};
use crate::transport_types::TransportError;
use crate::types::{CarrierError, CloseOutcome, HandleToken, OpenConfig};

verus! {

/// The status code the host sees for a transport error.
pub open spec fn spec_transport_code(error: TransportError) -> int {
    match error {
        TransportError::StaleGeneration => -16,
        TransportError::MessageTooLarge => -12,
        TransportError::InvalidOutputCapacity => -15,
        _ => -18,
    }
}

/// The status code the host sees for a transport error.
pub fn error_code_for_transport(error: TransportError) -> (code: isize)
    ensures
        code == spec_transport_code(error),
{
    match error {
        TransportError::StaleGeneration => -16,
        TransportError::MessageTooLarge => -12,
        TransportError::InvalidOutputCapacity => -15,
        TransportError::InvalidConfig
        | TransportError::Unavailable
        | TransportError::SecurityPolicyFailed
        | TransportError::AccessProbeFailed
        | TransportError::PipeCreationFailed
        | TransportError::WorkerStartFailed => -18,
    }
}

/// Whether a teardown request may tear down the module's transport and producer.
#[derive(Clone, Copy, Debug, PartialEq, Eq, Structural)]
pub enum TeardownDecision {
    OwnsActive,
    PreserveReplacement,
}

impl TeardownDecision {
    /// Only a successful reset owns the active handle.
    pub fn from_reset(result: Result<(), CarrierError>) -> (decision: Self)
        ensures
            decision == (if result is Ok { TeardownDecision::OwnsActive } else { TeardownDecision::PreserveReplacement }),
    {
        if result.is_ok() { TeardownDecision::OwnsActive } else { TeardownDecision::PreserveReplacement }
    }

    /// Only a close that actually closed the handle owns it.
    pub fn from_close(outcome: CloseOutcome) -> (decision: Self)
        ensures
            decision == (if outcome == CloseOutcome::Closed { TeardownDecision::OwnsActive } else { TeardownDecision::PreserveReplacement }),
    {
        match outcome {
            CloseOutcome::Closed => TeardownDecision::OwnsActive,
            _ => TeardownDecision::PreserveReplacement,
        }
    }

    /// Whether the request may tear down the module's globals.
    pub fn allows(self) -> (allowed: bool)
        ensures
            allowed == (self == TeardownDecision::OwnsActive),
    {
        match self {
            TeardownDecision::OwnsActive => true,
            TeardownDecision::PreserveReplacement => false,
        }
    }
}

/// The code and teardown permission a reset or close of `handle` yields.
pub open spec fn spec_teardown(r: RegistryView, handle: HandleToken, reset: bool) -> (RegistryView, int, bool) {
    if reset {
        let (r1, result) = spec_reset(r, handle);
        (r1, match result { Ok(()) => 0, Err(e) => spec_error_code(e) }, result is Ok)
    } else {
        let (r1, outcome) = spec_close(r, handle);
        (r1, match outcome {
            CloseOutcome::Closed => 0,
            CloseOutcome::AlreadyClosed => 0,
            CloseOutcome::Rejected(e) => spec_error_code(e),
        }, outcome == CloseOutcome::Closed)
    }
}

/// Resets or closes `handle` in the registry and says which status code the
/// host gets and whether the module's transport and producer may be torn down.
pub fn teardown(registry: &mut HandleRegistry, handle: HandleToken, reset: bool) -> (result: (isize, bool))
    ensures
        (final(registry)@, result.0 as int, result.1) == spec_teardown(old(registry)@, handle, reset),
{
    if reset {
        let outcome = registry.reset(handle);
        let code = match outcome {
            Ok(()) => 0,
            Err(e) => crate::abi::error_code(e),
        };
        (code, TeardownDecision::from_reset(outcome).allows())
    } else {
        let outcome = registry.close(handle);
        let code = match outcome {
            CloseOutcome::Closed | CloseOutcome::AlreadyClosed => 0,
            CloseOutcome::Rejected(e) => crate::abi::error_code(e),
        };
        (code, TeardownDecision::from_close(outcome).allows())
    }
}

/// What a reset or close call does: the token must parse, and a reset must
/// carry an acceptable reason; otherwise the call is refused as invalid and
/// nothing changes.
pub open spec fn spec_close_call(r: RegistryView, token: Seq<u8>, reset: bool, reason: Option<&[u8]>) -> (RegistryView, int, bool) {
    match crate::abi::spec_parse_token(token) {
        None => (r, crate::lua_producer_operations::INVALID_INPUT as int, false),
        Some(handle) => if reset && !crate::lua_producer_operations::spec_reason_ok(reason) {
            (r, crate::lua_producer_operations::INVALID_INPUT as int, false)
        } else {
            spec_teardown(r, handle, reset)
        },
    }
}

/// A reset (`reset`) or close call with the host's encoded token and, for a
/// reset, its reason. Returns the status code and whether the module's
/// transport and producer may be torn down.
pub fn close_call(registry: &mut HandleRegistry, token: &[u8], reset: bool, reason: Option<&[u8]>) -> (result: (isize, bool))
    ensures
        (final(registry)@, result.0 as int, result.1) == spec_close_call(old(registry)@, token@, reset, reason),
{
    let handle = match crate::abi::parse_token(token) {
        Some(h) => h,
        None => { return (crate::lua_producer_operations::INVALID_INPUT, false); },
    };
    if reset && !crate::lua_producer_operations::reason_ok(reason) {
        return (crate::lua_producer_operations::INVALID_INPUT, false);
    }
    teardown(registry, handle, reset)
}

/// A reset or close carrying a token that does not own the open handle
/// changes nothing, is refused as stale, and never tears down the owner's
/// transport or producer.
pub proof fn law_stale_teardown_preserves_owner(r: RegistryView, handle: HandleToken, reset: bool)
    requires
        !owns(r, handle),
        !(r.current matches Some(e) && e.token == handle),
    ensures
        spec_teardown(r, handle, reset).0 == r,
        spec_teardown(r, handle, reset).1 == -16,
        !spec_teardown(r, handle, reset).2,
{
}

/// The owner's reset keeps its handle open, while its close ends it; both
/// tear down the module's transport and producer.
pub proof fn law_owner_reset_and_close_differ(r: RegistryView, handle: HandleToken)
    requires
        owns(r, handle),
    ensures
        spec_teardown(r, handle, true).1 == 0 && spec_teardown(r, handle, true).2,
        owns(spec_teardown(r, handle, true).0, handle),
        spec_teardown(r, handle, false).1 == 0 && spec_teardown(r, handle, false).2,
        !owns(spec_teardown(r, handle, false).0, handle),
{
}

/// The token text an open call hands the host names the opened handle: the
/// host's close with it succeeds and tears the module down, and a reset with
/// an acceptable reason keeps the handle open.
pub proof fn law_opened_token_closes_its_handle(r: RegistryView, config: OpenConfig, reason: Option<&[u8]>)
    requires
        spec_open(r, config).1 is Ok,
        crate::lua_producer_operations::spec_reason_ok(reason),
    ensures
        ({
            let (r1, opened) = spec_open(r, config);
            let text = crate::abi::spec_token_text(opened->Ok_0);
            &&& spec_close_call(r1, text, false, None).1 == 0
            &&& spec_close_call(r1, text, false, None).2
            &&& !owns(spec_close_call(r1, text, false, None).0, opened->Ok_0)
            &&& spec_close_call(r1, text, true, reason).1 == 0
            &&& owns(spec_close_call(r1, text, true, reason).0, opened->Ok_0)
        }),
{
    let (r1, opened) = spec_open(r, config);
    crate::abi::law_token_text_round_trip(opened->Ok_0);
}

} // verus!
