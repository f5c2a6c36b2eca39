use vstd::prelude::*;

use crate::handle::{HandleRegistry, RegistryView};
use crate::text::{
    all_digits, decimal_chars, decimal_text, digits_value, is_digit, lemma_decimal_chars_text,
    lemma_decimal_text, parse_digits_u64, utf8,
};

verus! {

/// The value Rust's `u32` parser gives for the UTF-8 text `s`: an optional
/// leading `+` and then one or more ASCII digits whose value fits in 32 bits.
pub open spec fn spec_parse_u32(s: Seq<u8>) -> Option<u32> {
    let digits = if s.len() > 0 && s[0] == 43 { s.subrange(1, s.len() as int) } else { s };
    if digits.len() > 0 && all_digits(digits) && digits_value(digits) <= u32::MAX {
        Some(digits_value(digits) as u32)
    } else {
        None
    }
}

/// Parses `text` the way Rust parses a `u32`.
pub fn parse_u32(text: &str) -> (value: Option<u32>)
    ensures
        value == spec_parse_u32(vstd::utf8::encode_utf8(text@)),
{
    let bytes = text.as_bytes();
    let digits: &[u8] = if bytes.len() > 0 && bytes[0] == 43 {
        vstd::slice::slice_subrange(bytes, 1, bytes.len())
    } else {
        bytes
    };
    match parse_digits_u64(digits) {
        Some(v) => if v <= 0xffff_ffff { Some(v as u32) } else { None },
        None => None,
    }
}

/// The generation claimed from a stored text (or, when none is stored, from
/// the seed) together with the value to store for the next claim.
pub open spec fn spec_claim_values(raw: Option<Seq<u8>>, seed: u32) -> Result<(u32, u32), ()> {
    let value = match raw {
        Some(text) => match spec_parse_u32(text) {
            Some(v) => if v != 0 { Some(v) } else { None },
            None => None,
        },
        None => if seed != 0 { Some(seed) } else { None },
    };
    match value {
        Some(v) => if v < u32::MAX { Ok((v, (v + 1) as u32)) } else { Err(()) },
        None => Err(()),
    }
}

/// Picks the generation this process starts at: the stored nonzero decimal
/// value when there is one, else the nonzero seed; the stored value must leave
/// room for the next claim.
pub fn claim_values(raw: Option<&str>, seed: u32) -> (claim: Result<(u32, u32), ()>)
    ensures
        claim == spec_claim_values(
            match raw { Some(text) => Some(vstd::utf8::encode_utf8(text@)), None => None },
            seed,
        ),
{
    let value = match raw {
        Some(text) => match parse_u32(text) {
            Some(v) => if v != 0 { v } else { return Err(()); },
            None => { return Err(()); },
        },
        None => if seed != 0 { seed } else { return Err(()); },
    };
    match value.checked_add(1) {
        Some(next) => Ok((value, next)),
        None => Err(()),
    }
}

/// The seed mixed from a monotonic clock reading and the process id.
pub open spec fn spec_fold_seed(millis: u64, pid: u32) -> u32 {
    let p = pid as u64;
    let rotated = ((p << 17u64) | (p >> 47u64)) as u64;
    let mixed = (millis ^ rotated) as u64;
    let folded = ((mixed ^ (mixed >> 32u64)) & 0xffff_ffffu64) as u32;
    if folded == 0 { 1 } else { folded }
}

/// Folds a clock reading and the process id into a nonzero 32-bit seed.
pub fn fold_seed(millis: u64, pid: u32) -> (seed: u32)
    ensures
        seed == spec_fold_seed(millis, pid),
        seed != 0,
{
    let p = pid as u64;
    let rotated = (p << 17u64) | (p >> 47u64);
    let mixed = millis ^ rotated;
    let wide = (mixed ^ (mixed >> 32u64)) & 0xffff_ffffu64;
    assert(wide <= 0xffff_ffffu64) by (bit_vector)
        requires wide == (mixed ^ (mixed >> 32u64)) & 0xffff_ffffu64;
    let folded = wide as u32;
    if folded == 0 { 1 } else { folded }
}

/// The registry after start-up: unchanged when the generation claim failed or
/// was already applied, else a fresh registry starting at the claimed generation.
pub open spec fn spec_initialize(r: RegistryView, claim: Result<u32, ()>, applied_before: bool) -> (RegistryView, Result<(), ()>) {
    match claim {
        Err(()) => (r, Err(())),
        Ok(g) => if applied_before { (r, Ok(())) } else {
            (RegistryView { next_generation: Some(g), current: None }, Ok(()))
        },
    }
}

/// Applies the process-wide generation claim to the registry once.
pub fn initialize(registry: &mut HandleRegistry, claim: Result<u32, ()>, applied_before: bool) -> (result: Result<(), ()>)
    ensures
        (final(registry)@, result) == spec_initialize(old(registry)@, claim, applied_before),
{
    match claim {
        Err(()) => Err(()),
        Ok(generation) => {
            if !applied_before {
                *registry = HandleRegistry::starting_at(generation);
            }
            Ok(())
        },
    }
}

/// A load stores the next generation as its decimal text (`decimal_string`);
/// the next load of the module in the same process reads that text back,
/// claims exactly that generation, and stores its successor in turn.
pub proof fn law_stored_generation_is_claimed_next(next: u32, seed: u32)
    requires
        0 < next < u32::MAX,
    ensures
        spec_claim_values(Some(utf8(decimal_chars(next as nat))), seed) == Ok::<(u32, u32), ()>(
            (next, (next + 1) as u32),
        ),
{
    lemma_decimal_chars_text(next as nat);
    lemma_decimal_text(next as nat, 1);
    let text = decimal_text(next as nat);
    assert(is_digit(text[0]));
    assert(spec_parse_u32(text) == Some(next));
}

} // verus!
