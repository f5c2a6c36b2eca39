use vstd::prelude::*;

verus! {

/// Deepest table nesting the admission walk accepts.
pub const MAX_DEPTH: usize = 5;

/// Budget charged for every value the walk visits, whatever its kind.
pub const ENTRY_CHARGE: usize = 128;

/// What the admission walk learns about one Lua value before copying it.
#[derive(Clone, Copy, Debug, PartialEq, Eq, Structural)]
pub enum ValueKind {
    Boolean,
    Number,
    /// A string of the given byte length; `None` when the host gave no pointer.
    Text(Option<usize>),
    /// A table, and whether it carries a metatable.
    Table(bool),
    Other,
}

/// What the walk does next with one visited value.
#[derive(Clone, Copy, Debug, PartialEq, Eq, Structural)]
pub enum WalkStep {
    /// The value is admitted and has no children.
    Accept,
    /// The value is a plain table; its keys and values are walked one level deeper.
    Descend,
    /// The frame is refused.
    Reject,
}

/// `remaining` after charging `bytes`: exhausted once any charge exceeds it.
pub open spec fn spec_charge(remaining: Option<usize>, bytes: usize) -> Option<usize> {
    match remaining {
        Some(v) => if v >= bytes { Some((v - bytes) as usize) } else { None },
        None => None,
    }
}

/// Charges `bytes` against the shared copy budget; false once it is exhausted.
pub fn charge(remaining: &mut Option<usize>, bytes: usize) -> (ok: bool)
    ensures
        *final(remaining) == spec_charge(*old(remaining), bytes),
        ok == (*final(remaining) is Some),
{
    *remaining = match *remaining {
        Some(v) => v.checked_sub(bytes),
        None => None,
    };
    remaining.is_some()
}

/// The copy budget for one frame: eight times its byte ceiling, if that fits.
pub fn admission_budget(frame_bytes: usize) -> (budget: Option<usize>)
    ensures
        budget == (if frame_bytes * 8 <= usize::MAX { Some((frame_bytes * 8) as usize) } else { None::<usize> }),
{
    frame_bytes.checked_mul(8)
}

/// The walk's decision for one value at nesting `depth`, given the budget left.
pub open spec fn spec_walk_step(remaining: Option<usize>, depth: usize, kind: ValueKind) -> (Option<usize>, WalkStep) {
    if depth > MAX_DEPTH {
        (remaining, WalkStep::Reject)
    } else {
        let after = spec_charge(remaining, ENTRY_CHARGE);
        if after is None {
            (after, WalkStep::Reject)
        } else {
            match kind {
                ValueKind::Text(len) => match len {
                    None => (after, WalkStep::Reject),
                    Some(n) => if n * 2 > usize::MAX {
                        (after, WalkStep::Reject)
                    } else {
                        let charged = spec_charge(after, (n * 2) as usize);
                        (charged, if charged is Some { WalkStep::Accept } else { WalkStep::Reject })
                    },
                },
                ValueKind::Table(has_metatable) => (after, if has_metatable { WalkStep::Reject } else { WalkStep::Descend }),
                ValueKind::Boolean => (after, WalkStep::Accept),
                ValueKind::Number => (after, WalkStep::Accept),
                ValueKind::Other => (after, WalkStep::Reject),
            }
        }
    }
}

/// Charges and classifies one value met by the admission walk: every value
/// costs a fixed entry charge, a string also twice its length, a table with a
/// metatable or anything past the nesting limit is refused.
pub fn walk_step(remaining: &mut Option<usize>, depth: usize, kind: ValueKind) -> (step: WalkStep)
    ensures
        (*final(remaining), step) == spec_walk_step(*old(remaining), depth, kind),
{
    if depth > MAX_DEPTH || !charge(remaining, ENTRY_CHARGE) {
        return WalkStep::Reject;
    }
    match kind {
        ValueKind::Text(len) => match len {
            None => WalkStep::Reject,
            Some(n) => match n.checked_mul(2) {
                None => WalkStep::Reject,
                Some(bytes) => if charge(remaining, bytes) { WalkStep::Accept } else { WalkStep::Reject },
            },
        },
        ValueKind::Table(has_metatable) => if has_metatable { WalkStep::Reject } else { WalkStep::Descend },
        ValueKind::Boolean => WalkStep::Accept,
        ValueKind::Number => WalkStep::Accept,
        ValueKind::Other => WalkStep::Reject,
    }
}

/// Once the budget is exhausted every later charge fails, even a charge of nothing.
pub proof fn law_exhausted_budget_stays_exhausted(remaining: Option<usize>, first: usize, second: usize)
    requires
        spec_charge(remaining, first) is None,
    ensures
        spec_charge(spec_charge(remaining, first), second) is None,
{
}

/// Successive charges draw on one shared budget: they succeed together exactly
/// when their sum fits in it.
pub proof fn law_charges_share_one_budget(total: usize, first: usize, second: usize)
    ensures
        (spec_charge(spec_charge(Some(total), first), second) is Some) == (first + second <= total),
{
}

} // verus!
