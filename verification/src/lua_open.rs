use vstd::prelude::*;

use crate::handle::{HandleRegistry, owns, spec_close, spec_open};
use crate::producer_types::{
    ProducerAdmissionPolicy, ProducerLimits, ProducerSource, SourceBoundary, SourceEpochStatus,
};
use crate::text::{decimal_chars, decimal_string, text_eq};
use crate::transport_types::TransportConfig;
use crate::types::{CarrierLimits, HandleToken, OpenConfig};
use vstd::string::StringExecFns;

verus! {

/// The integer fields of the limits table a host passes to `open`.
#[derive(Clone, Copy, Debug, PartialEq, Eq, Structural)]
pub struct OpenLimitFields {
    pub data_message_bytes: usize,
    pub control_message_bytes: usize,
    pub max_records: usize,
    pub max_content_bytes: usize,
    pub max_canonical_bytes: usize,
    pub max_batches: usize,
    pub max_work: usize,
    pub max_age_millis: usize,
    pub pending_slots: usize,
    pub max_attempts: usize,
    pub max_retry_age_millis: usize,
    pub availability_interval_millis: usize,
}

/// The producer ceilings and admission policy an open request asks for, if
/// the request is one the module supports.
pub open spec fn spec_decode_limits(f: OpenLimitFields) -> Option<(ProducerLimits, ProducerAdmissionPolicy)> {
    if f.max_canonical_bytes != f.data_message_bytes || f.max_batches < f.max_records || f.max_age_millis == 0
        || f.pending_slots != 1 || f.max_attempts == 0 || f.max_attempts > 2 || f.availability_interval_millis != 5000 {
        None
    } else {
        let limits = ProducerLimits {
            data_message_bytes: f.data_message_bytes,
            control_message_bytes: f.control_message_bytes,
            max_records: f.max_records,
            max_raw_bytes: f.max_content_bytes,
            max_batches: f.max_batches,
            max_work: f.max_work,
            max_retry_age_millis: f.max_retry_age_millis as u64,
        };
        if !limits.spec_valid() {
            None
        } else {
            Some((limits, ProducerAdmissionPolicy {
                max_inner_records: f.max_records,
                max_attempts: f.max_attempts as u8,
                max_age_millis: f.max_age_millis as u64,
            }))
        }
    }
}

/// Checks an open request's limits: canonical and data ceilings agree, there
/// are at least as many batches as records, one pending slot, one or two
/// attempts, a positive age and the fixed availability interval.
pub fn decode_limits(f: &OpenLimitFields) -> (decoded: Option<(ProducerLimits, ProducerAdmissionPolicy)>)
    ensures
        decoded == spec_decode_limits(*f),
{
    if f.max_canonical_bytes != f.data_message_bytes || f.max_batches < f.max_records || f.max_age_millis == 0
        || f.pending_slots != 1 || f.max_attempts == 0 || f.max_attempts > 2 || f.availability_interval_millis != 5000 {
        return None;
    }
    let limits = ProducerLimits {
        data_message_bytes: f.data_message_bytes,
        control_message_bytes: f.control_message_bytes,
        max_records: f.max_records,
        max_raw_bytes: f.max_content_bytes,
        max_batches: f.max_batches,
        max_work: f.max_work,
        max_retry_age_millis: f.max_retry_age_millis as u64,
    };
    if !limits.valid() {
        return None;
    }
    Some((limits, ProducerAdmissionPolicy {
        max_inner_records: f.max_records,
        max_attempts: f.max_attempts as u8,
        max_age_millis: f.max_age_millis as u64,
    }))
}

/// The inner-record ceiling an open request settles on.
pub open spec fn spec_inner(heavy: Option<usize>, max_inner: Option<usize>, records: usize, policy: ProducerAdmissionPolicy) -> Option<usize> {
    if heavy == Some(1usize) {
        if policy.max_attempts != 1 {
            None
        } else {
            match max_inner {
                Some(inner) => if inner > 0 && inner <= records { Some(inner) } else { None },
                None => None,
            }
        }
    } else if heavy is Some || policy.max_age_millis != 5000 || policy.max_attempts != 2 {
        None
    } else {
        Some(records)
    }
}

/// The inner-record ceiling: a heavy profile (version 1) asks for a single
/// attempt and names a ceiling up to the record ceiling; otherwise the
/// default policy applies and the record ceiling is the inner ceiling.
pub fn inner(heavy: Option<usize>, max_inner: Option<usize>, records: usize, policy: ProducerAdmissionPolicy) -> (limit: Option<usize>)
    ensures
        limit == spec_inner(heavy, max_inner, records, policy),
{
    if heavy == Some(1usize) {
        if policy.max_attempts != 1 {
            return None;
        }
        return match max_inner {
            Some(inner) => if inner > 0 && inner <= records { Some(inner) } else { None },
            None => None,
        };
    }
    if heavy.is_some() || policy.max_age_millis != 5000 || policy.max_attempts != 2 {
        return None;
    }
    Some(records)
}

/// The epoch status a text names.
pub open spec fn spec_epoch_status(text: Seq<char>) -> Option<SourceEpochStatus> {
    if text == "unknown"@ { Some(SourceEpochStatus::Unknown) }
    else if text == "boundary_uncertain"@ { Some(SourceEpochStatus::BoundaryUncertain) }
    else { None }
}

/// Reads an epoch status.
pub fn epoch_status(text: &str) -> (status: Option<SourceEpochStatus>)
    ensures
        status == spec_epoch_status(text@),
{
    if text_eq(text, "unknown") { Some(SourceEpochStatus::Unknown) }
    else if text_eq(text, "boundary_uncertain") { Some(SourceEpochStatus::BoundaryUncertain) }
    else { None }
}

/// The source boundary a text names; a reconnect counts only where allowed.
pub open spec fn spec_boundary(text: Seq<char>, allow_reconnect: bool) -> Option<SourceBoundary> {
    if text == "runtime_start"@ { Some(SourceBoundary::RuntimeStart) }
    else if text == "game_loaded"@ { Some(SourceBoundary::GameLoaded) }
    else if text == "lua_reload"@ { Some(SourceBoundary::LuaReload) }
    else if allow_reconnect && text == "transport_reconnect"@ { Some(SourceBoundary::TransportReconnect) }
    else { None }
}

/// Reads a source boundary; `transport_reconnect` counts only when allowed.
pub fn boundary(text: &str, allow_reconnect: bool) -> (found: Option<SourceBoundary>)
    ensures
        found == spec_boundary(text@, allow_reconnect),
{
    if text_eq(text, "runtime_start") { Some(SourceBoundary::RuntimeStart) }
    else if text_eq(text, "game_loaded") { Some(SourceBoundary::GameLoaded) }
    else if text_eq(text, "lua_reload") { Some(SourceBoundary::LuaReload) }
    else if allow_reconnect && text_eq(text, "transport_reconnect") { Some(SourceBoundary::TransportReconnect) }
    else { None }
}

/// Reads the source table of an open request; `scope_is_valid` says whether
/// the scope passed the observation domain's scope check.
pub fn decode_source(scope: &str, epoch: &str, boundary_text: &str, scope_is_valid: bool) -> (decoded: Option<(String, SourceEpochStatus, SourceBoundary)>)
    ensures
        match decoded {
            Some((s, e, b)) => s@ == scope@ && scope_is_valid
                && spec_epoch_status(epoch@) == Some(e) && spec_boundary(boundary_text@, true) == Some(b),
            None => !scope_is_valid || spec_epoch_status(epoch@) is None || spec_boundary(boundary_text@, true) is None,
        },
{
    let e = match epoch_status(epoch) {
        Some(e) => e,
        None => { return None; },
    };
    let b = match boundary(boundary_text, true) {
        Some(b) => b,
        None => { return None; },
    };
    if !scope_is_valid {
        return None;
    }
    Some((scope.to_owned(), e, b))
}


/// The named pipe the carrier listens on.
pub const PIPE_ENDPOINT: &'static str = "\\\\.\\pipe\\live_galaxy";

/// Status when an open call names another module version.
pub const WRONG_VERSION: isize = -10;

/// Status when the registry refuses to open a handle.
pub const OPEN_REFUSED: isize = -17;

/// What an open request carries once its tables have been read.
#[derive(Clone, Debug, PartialEq, Eq)]
pub struct OpenArgs {
    pub policy: ProducerAdmissionPolicy,
    pub limits: ProducerLimits,
    pub source_scope: String,
    pub epoch_status: SourceEpochStatus,
    pub boundary: SourceBoundary,
}

/// The producer source of a freshly opened handle: session and incarnation are
/// named after the handle's generation, which is also the transport epoch.
pub open spec fn spec_open_source(
    generation: u32,
    scope: Seq<char>,
    status: SourceEpochStatus,
    boundary: SourceBoundary,
    source: ProducerSource,
) -> bool {
    &&& source.session_id@ == "x4-session-"@ + decimal_chars(generation as nat)
    &&& source.producer_incarnation@ == "x4-producer-"@ + decimal_chars(generation as nat)
    &&& source.transport_epoch == generation
    &&& source.source_scope@ == scope
    &&& source.source_epoch_status == status
    &&& source.source_boundary == boundary
}

/// The producer source of a freshly opened handle.
pub fn open_source(
    generation: u32,
    scope: String,
    status: SourceEpochStatus,
    boundary: SourceBoundary,
) -> (source: ProducerSource)
    ensures
        spec_open_source(generation, scope@, status, boundary, source),
{
    let digits = decimal_string(generation as u64);
    let mut session_id = String::from_str("x4-session-");
    session_id.append(digits.as_str());
    let mut producer_incarnation = String::from_str("x4-producer-");
    producer_incarnation.append(digits.as_str());
    ProducerSource {
        session_id,
        producer_incarnation,
        transport_epoch: generation as u64,
        source_scope: scope,
        source_epoch_status: status,
        source_boundary: boundary,
    }
}

/// What an open call does before it starts the transport and the producer.
#[derive(Clone, Debug, PartialEq, Eq)]
pub enum OpenStep {
    /// Answer with this status.
    Reply(isize),
    /// A handle was opened: start the transport with this configuration and a
    /// producer with these limits and this source.
    Opened { token: HandleToken, transport: TransportConfig, limits: ProducerLimits, source: ProducerSource },
}

/// An open call: the host names the module version and passes its tables, read
/// into `args` (`None` where they were refused). The version must be the
/// current one, both message ceilings positive, and the registry must open a
/// handle for them.
pub fn open_step(registry: &mut HandleRegistry, version: Option<usize>, args: Option<OpenArgs>)
    -> (step: OpenStep)
    ensures
        version != Some(crate::ABI_VERSION as usize) ==> step == OpenStep::Reply(WRONG_VERSION)
            && final(registry)@ == old(registry)@,
        version == Some(crate::ABI_VERSION as usize) ==> match args {
            None => step == OpenStep::Reply(crate::lua_producer_operations::INVALID_INPUT)
                && final(registry)@ == old(registry)@,
            Some(a) => if a.limits.data_message_bytes == 0 || a.limits.control_message_bytes == 0 {
                step == OpenStep::Reply(crate::lua_producer_operations::INVALID_INPUT)
                    && final(registry)@ == old(registry)@
            } else {
                let config = OpenConfig {
                    abi_version: crate::ABI_VERSION,
                    record_size: crate::types::OPEN_CONFIG_RECORD_SIZE,
                    limits: CarrierLimits {
                        data_message_bytes: a.limits.data_message_bytes,
                        control_message_bytes: a.limits.control_message_bytes,
                    },
                };
                let (r, opened) = spec_open(old(registry)@, config);
                &&& final(registry)@ == r
                &&& match opened {
                    Err(_) => step == OpenStep::Reply(OPEN_REFUSED),
                    Ok(t) => match step {
                        OpenStep::Opened { token, transport, limits, source } => {
                            &&& token == t
                            &&& transport.pipe_name@ == PIPE_ENDPOINT@
                            &&& transport.max_data_message_bytes == a.limits.data_message_bytes
                            &&& transport.max_control_message_bytes
                                == a.limits.control_message_bytes
                            &&& limits == a.limits
                            &&& spec_open_source(
                                t.generation,
                                a.source_scope@,
                                a.epoch_status,
                                a.boundary,
                                source,
                            )
                        },
                        _ => false,
                    },
                }
            },
        },
{
    if version != Some(crate::ABI_VERSION as usize) {
        return OpenStep::Reply(WRONG_VERSION);
    }
    let a = match args {
        Some(a) => a,
        None => {
            return OpenStep::Reply(crate::lua_producer_operations::INVALID_INPUT);
        },
    };
    if a.limits.data_message_bytes == 0 || a.limits.control_message_bytes == 0 {
        return OpenStep::Reply(crate::lua_producer_operations::INVALID_INPUT);
    }
    let config = OpenConfig::current(
        CarrierLimits::new(a.limits.data_message_bytes, a.limits.control_message_bytes),
    );
    let token = match registry.open(config) {
        Ok(t) => t,
        Err(_) => {
            return OpenStep::Reply(OPEN_REFUSED);
        },
    };
    let transport = TransportConfig {
        pipe_name: String::from_str(PIPE_ENDPOINT),
        max_data_message_bytes: a.limits.data_message_bytes,
        max_control_message_bytes: a.limits.control_message_bytes,
    };
    let source = open_source(token.generation, a.source_scope, a.epoch_status, a.boundary);
    OpenStep::Opened { token, transport, limits: a.limits, source }
}

/// The end of an open call, once the transport and the producer were started
/// for the opened handle `token`: with both running the host gets 0 (and the
/// token text); if either failed the host gets the unavailable status and the
/// handle is closed again.
pub fn open_finish(registry: &mut HandleRegistry, token: HandleToken, transport_started: bool, producer_started: bool)
    -> (code: isize)
    ensures
        transport_started && producer_started ==> code == 0 && final(registry)@ == old(registry)@,
        !(transport_started && producer_started) ==> code == crate::lua_producer_operations::UNAVAILABLE
            && final(registry)@ == spec_close(old(registry)@, token).0,
{
    if transport_started && producer_started {
        0
    } else {
        let _ = registry.close(token);
        crate::lua_producer_operations::UNAVAILABLE
    }
}

/// A handle whose transport or producer failed to start does not stay open:
/// the token the registry just issued owns nothing afterwards.
pub proof fn law_failed_start_leaves_no_owner(r: crate::handle::RegistryView, config: OpenConfig)
    requires
        spec_open(r, config).1 is Ok,
    ensures
        ({
            let (r1, opened) = spec_open(r, config);
            !owns(spec_close(r1, opened->Ok_0).0, opened->Ok_0)
        }),
{
}

/// Each boundary text decodes to the boundary of the same name, and only that
/// text does; a transport reconnect counts only where allowed.
pub proof fn law_boundary_names(text: Seq<char>, allow_reconnect: bool)
    ensures
        spec_boundary("runtime_start"@, allow_reconnect) == Some(SourceBoundary::RuntimeStart),
        spec_boundary("game_loaded"@, allow_reconnect) == Some(SourceBoundary::GameLoaded),
        spec_boundary("lua_reload"@, allow_reconnect) == Some(SourceBoundary::LuaReload),
        spec_boundary("transport_reconnect"@, true) == Some(SourceBoundary::TransportReconnect),
        spec_boundary("transport_reconnect"@, false) is None,
        spec_boundary(text, allow_reconnect) == Some(SourceBoundary::RuntimeStart) ==> text == "runtime_start"@,
        spec_boundary(text, allow_reconnect) == Some(SourceBoundary::GameLoaded) ==> text == "game_loaded"@,
        spec_boundary(text, allow_reconnect) == Some(SourceBoundary::LuaReload) ==> text == "lua_reload"@,
        spec_boundary(text, allow_reconnect) == Some(SourceBoundary::TransportReconnect) ==> text
            == "transport_reconnect"@ && allow_reconnect,
{
    reveal_strlit("runtime_start");
    reveal_strlit("game_loaded");
    reveal_strlit("lua_reload");
    reveal_strlit("transport_reconnect");
    assert("game_loaded"@[0] != "runtime_start"@[0]);
    assert("lua_reload"@[0] != "runtime_start"@[0]);
    assert("lua_reload"@[0] != "game_loaded"@[0]);
    assert("transport_reconnect"@[0] != "runtime_start"@[0]);
    assert("transport_reconnect"@[0] != "game_loaded"@[0]);
    assert("transport_reconnect"@[0] != "lua_reload"@[0]);
}

/// Each epoch status text decodes to the status of the same name, and only
/// that text does.
pub proof fn law_epoch_status_names(text: Seq<char>)
    ensures
        spec_epoch_status("unknown"@) == Some(SourceEpochStatus::Unknown),
        spec_epoch_status("boundary_uncertain"@) == Some(SourceEpochStatus::BoundaryUncertain),
        spec_epoch_status(text) == Some(SourceEpochStatus::Unknown) ==> text == "unknown"@,
        spec_epoch_status(text) == Some(SourceEpochStatus::BoundaryUncertain) ==> text == "boundary_uncertain"@,
{
    reveal_strlit("unknown");
    reveal_strlit("boundary_uncertain");
    assert("unknown"@[0] != "boundary_uncertain"@[0]);
}

} // verus!
