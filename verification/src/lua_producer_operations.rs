use vstd::prelude::*;

use crate::lua_progress::{error_code, outcome_code, spec_error_code, spec_outcome_code};
use crate::lua_transport::{error_code_for_transport, spec_transport_code};
use crate::producer::{
    Producer, ProducerView, spec_fail_section, spec_mark_local_handoff, spec_observe_connection, spec_pending_bytes,
    spec_progress,
};
use crate::producer_types::{ProducerError, ProducerOutcome};
use crate::transport_types::{TransportPoll, TransportSendOutcome};

verus! {

/// Status for arguments the host passed wrongly.
pub const INVALID_INPUT: isize = -20;

/// Status when the producer or the transport cannot be reached.
pub const UNAVAILABLE: isize = -18;

/// Status when the transport has no clock reading yet.
pub const CLOCK_UNAVAILABLE: isize = -22;

/// Status when no control message is waiting.
pub const NO_CONTROL: isize = 3;

/// Status when the transport has closed.
pub const TRANSPORT_CLOSED: isize = 9;

/// Status after the pending message was handed to the transport.
pub const HANDED_OFF: isize = 1;

/// Status when the transport had no room for the pending message.
pub const NO_CAPACITY: isize = 2;

/// What a progress call answers before anything is sent.
#[derive(Clone, Copy, Debug, PartialEq, Eq, Structural)]
pub enum ProgressStep {
    /// Answer with this status alone.
    Reply(isize),
    /// Answer with this status and the status fields.
    Status(isize),
    /// Hand the pending message to the transport, then answer.
    Send,
}

/// The status code of a producer result.
pub open spec fn result_code(result: Result<ProducerOutcome, ProducerError>) -> int {
    match result {
        Ok(outcome) => spec_outcome_code(outcome),
        Err(error) => spec_error_code(error),
    }
}

pub open spec fn bytes_result(bytes: Result<Vec<u8>, ProducerError>) -> Result<Seq<u8>, ProducerError> {
    match bytes {
        Ok(b) => Ok(b@),
        Err(e) => Err(e),
    }
}

/// What a progress call does to the producer and answers, up to the send.
pub open spec fn spec_progress_step(
    v: ProducerView,
    work: usize,
    clock: Option<u64>,
    generation: u64,
    bootstrap: Result<Seq<u8>, ProducerError>,
    start: Result<Seq<u8>, ProducerError>,
) -> (ProducerView, ProgressStep) {
    let now = clock->Some_0;
    if clock is None {
        (v, ProgressStep::Reply(CLOCK_UNAVAILABLE))
    } else if work == 0 {
        (v, ProgressStep::Status(0))
    } else {
        let (v1, r1) = spec_observe_connection(v, generation, now, bootstrap);
        if r1 is Err {
            (v1, ProgressStep::Reply(UNAVAILABLE))
        } else if spec_pending_bytes(v1) is Some {
            (v1, ProgressStep::Send)
        } else {
            let (v2, r2) = spec_progress(v1, work, now, start);
            if r2 != Ok::<ProducerOutcome, ProducerError>(ProducerOutcome::Progress) {
                (v2, ProgressStep::Status(result_code(r2) as isize))
            } else if spec_pending_bytes(v2) is Some {
                (v2, ProgressStep::Send)
            } else {
                (v2, ProgressStep::Reply(0))
            }
        }
    }
}

fn result_code_of(result: Result<ProducerOutcome, ProducerError>) -> (code: isize)
    ensures
        code == result_code(result),
{
    match result {
        Ok(outcome) => outcome_code(outcome),
        Err(error) => error_code(error),
    }
}

/// A progress call with `work` units of work at the transport's clock
/// reading `clock`: without a reading nothing changes and the answer is the
/// clock status; a zero budget only reports status; otherwise the producer first notes the transport's
/// connection generation and then, unless a message is already waiting to be
/// sent, does the work. `bootstrap` and `start` are the encoded messages the
/// producer would emit on a reconnect and at the start of a section.
pub fn progress_step(
    producer: &mut Producer,
    work: usize,
    clock: Option<u64>,
    generation: u64,
    bootstrap: Result<Vec<u8>, ProducerError>,
    start: Result<Vec<u8>, ProducerError>,
) -> (step: ProgressStep)
    ensures
        (final(producer)@, step) == spec_progress_step(
            old(producer)@,
            work,
            clock,
            generation,
            bytes_result(bootstrap),
            bytes_result(start),
        ),
{
    let now = match clock {
        Some(now) => now,
        None => {
            return ProgressStep::Reply(CLOCK_UNAVAILABLE);
        },
    };
    if work == 0 {
        return ProgressStep::Status(0);
    }
    if producer.observe_connection(generation, now, bootstrap).is_err() {
        return ProgressStep::Reply(UNAVAILABLE);
    }
    if producer.pending_bytes().is_some() {
        return ProgressStep::Send;
    }
    let result = producer.progress(work, now, start);
    match result {
        Ok(ProducerOutcome::Progress) => {},
        _ => {
            return ProgressStep::Status(result_code_of(result));
        },
    }
    if producer.pending_bytes().is_some() {
        ProgressStep::Send
    } else {
        ProgressStep::Reply(0)
    }
}

/// What a control poll does before the transport is asked: without a clock
/// reading nothing changes and the answer is the clock status; otherwise the
/// producer notes the connection generation, and a failure to do so is the
/// answer. `None` means the transport is to be polled.
pub open spec fn spec_poll_prepare(
    v: ProducerView,
    clock: Option<u64>,
    generation: u64,
    bootstrap: Result<Seq<u8>, ProducerError>,
) -> (ProducerView, Option<isize>) {
    match clock {
        None => (v, Some(CLOCK_UNAVAILABLE)),
        Some(now) => {
            let (v1, r1) = spec_observe_connection(v, generation, now, bootstrap);
            (v1, if r1 is Err { Some(UNAVAILABLE) } else { None::<isize> })
        },
    }
}

/// The first step of a control poll; see `spec_poll_prepare`.
pub fn poll_prepare(
    producer: &mut Producer,
    clock: Option<u64>,
    generation: u64,
    bootstrap: Result<Vec<u8>, ProducerError>,
) -> (answer: Option<isize>)
    ensures
        (final(producer)@, answer) == spec_poll_prepare(old(producer)@, clock, generation, bytes_result(bootstrap)),
{
    let now = match clock {
        Some(now) => now,
        None => {
            return Some(CLOCK_UNAVAILABLE);
        },
    };
    if producer.observe_connection(generation, now, bootstrap).is_err() {
        Some(UNAVAILABLE)
    } else {
        None
    }
}

/// The status after handing the pending message to the transport: a local
/// handoff marks the message as handed off.
pub fn send_code(producer: &mut Producer, outcome: TransportSendOutcome, now: u64) -> (code: isize)
    ensures
        match outcome {
            TransportSendOutcome::LocalHandoff => {
                let (v, r) = spec_mark_local_handoff(old(producer)@, now);
                &&& final(producer)@ == v
                &&& code == match r {
                    Ok(()) => HANDED_OFF as int,
                    Err(e) => spec_error_code(e),
                }
            },
            TransportSendOutcome::CapacityUnavailable => *final(producer) == *old(producer) && code
                == NO_CAPACITY,
            TransportSendOutcome::Rejected(e) => *final(producer) == *old(producer) && code
                == spec_transport_code(e),
        },
{
    match outcome {
        TransportSendOutcome::LocalHandoff => match producer.mark_local_handoff(now) {
            Ok(()) => HANDED_OFF,
            Err(e) => error_code(e),
        },
        TransportSendOutcome::CapacityUnavailable => NO_CAPACITY,
        TransportSendOutcome::Rejected(e) => error_code_for_transport(e),
    }
}

/// The status for a control poll that brought no message to apply, or `None`
/// where its message is to be applied. A message that arrives after the
/// connection generation moved is dropped as if none had come.
pub fn poll_code(poll: &TransportPoll, generation_moved: bool) -> (code: Option<isize>)
    ensures
        code == match poll {
            TransportPoll::Message(_) => if generation_moved {
                Some(NO_CONTROL)
            } else {
                None::<isize>
            },
            TransportPoll::NoMessage => Some(NO_CONTROL),
            TransportPoll::Closed => Some(TRANSPORT_CLOSED),
            TransportPoll::Rejected(e) => Some(spec_transport_code(*e) as isize),
        },
{
    match poll {
        TransportPoll::Message(_) => if generation_moved {
            Some(NO_CONTROL)
        } else {
            None
        },
        TransportPoll::NoMessage => Some(NO_CONTROL),
        TransportPoll::Closed => Some(TRANSPORT_CLOSED),
        TransportPoll::Rejected(e) => Some(error_code_for_transport(*e)),
    }
}

/// The status for an applied control message, and whether the transport is to
/// reconnect: exactly where the producer reports that it disconnected.
pub fn control_code(result: Result<ProducerOutcome, ProducerError>) -> (answer: (isize, bool))
    ensures
        answer.0 == result_code(result),
        answer.1 == (result_code(result) == spec_outcome_code(ProducerOutcome::Disconnected)),
        answer.1 == (result == Ok::<ProducerOutcome, ProducerError>(ProducerOutcome::Disconnected)),
{
    let code = result_code_of(result);
    (code, code == outcome_code(ProducerOutcome::Disconnected))
}

/// A reason the host gives for failing a section or resetting a handle is
/// acceptable where it is a string of 1 to 64 bytes.
pub open spec fn spec_reason_ok(reason: Option<&[u8]>) -> bool {
    match reason {
        Some(r) => 1 <= r@.len() <= 64,
        None => false,
    }
}

/// Whether a reason is acceptable: a string of 1 to 64 bytes.
pub fn reason_ok(reason: Option<&[u8]>) -> (ok: bool)
    ensures
        ok == spec_reason_ok(reason),
{
    match reason {
        Some(r) => r.len() >= 1 && r.len() <= 64,
        None => false,
    }
}

/// A fail-section call: with an acceptable reason the producer drops the
/// section it was collecting and pauses; otherwise nothing changes.
pub fn fail_section_call(producer: &mut Producer, reason: Option<&[u8]>) -> (code: isize)
    ensures
        spec_reason_ok(reason) ==> code == 0 && final(producer)@ == spec_fail_section(old(producer)@),
        !spec_reason_ok(reason) ==> code == INVALID_INPUT && *final(producer) == *old(producer),
{
    if !reason_ok(reason) {
        return INVALID_INPUT;
    }
    producer.fail_section();
    0
}

} // verus!
