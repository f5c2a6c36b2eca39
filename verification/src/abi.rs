use vstd::prelude::*;

use crate::text::{all_digits, decimal_text, digits_value, parse_digits_u64};
use crate::types::{CarrierError, HandleToken};
use crate::InitializerError;

verus! {

/// Host symbols the module needs before it can register its operations.
pub const REQUIRED: [&'static str; 16] = [
    "lua_createtable",
    "lua_getmetatable",
    "lua_gettop",
    "lua_next",
    "lua_pushcclosure",
    "lua_pushinteger",
    "lua_pushlstring",
    "lua_pushnil",
    "lua_rawget",
    "lua_setfield",
    "lua_settop",
    "lua_toboolean",
    "lua_tointeger",
    "lua_tolstring",
    "lua_tonumber",
    "lua_type",
];

/// Checks every required host symbol in order and names the first one the
/// host lacks.
pub fn require_lua_symbols<F: Fn(&str) -> bool>(available: F) -> (result: Result<(), InitializerError>)
    requires
        forall|name: &str| available.requires((name,)),
    ensures
        match result {
            Ok(()) => forall|i: int| 0 <= i < 16 ==> available.ensures((REQUIRED@[i],), true),
            Err(InitializerError::MissingHostSymbol(name)) => exists|i: int| {
                &&& 0 <= i < 16
                &&& name == REQUIRED@[i]
                &&& available.ensures((REQUIRED@[i],), false)
                &&& forall|j: int| 0 <= j < i ==> available.ensures((REQUIRED@[j],), true)
            },
            Err(_) => false,
        },
{
    let mut i: usize = 0;
    while i < 16
        invariant
            i <= 16,
            forall|name: &str| available.requires((name,)),
            forall|j: int| 0 <= j < i ==> available.ensures((REQUIRED@[j],), true),
        decreases 16 - i,
    {
        let name = REQUIRED[i];
        if !available(name) {
            return Err(InitializerError::MissingHostSymbol(name));
        }
        i = i + 1;
    }
    Ok(())
}

/// An owned copy of `bytes`.
pub fn copy_owned(bytes: &[u8]) -> (copy: Vec<u8>)
    ensures
        copy@ == bytes@,
{
    vstd::slice::slice_to_vec(bytes)
}

/// The status code the host sees for a carrier error.
pub open spec fn spec_error_code(error: CarrierError) -> int {
    match error {
        CarrierError::WrongVersion => -10,
        CarrierError::WrongRecordSize => -11,
        CarrierError::MessageTooLarge => -12,
        CarrierError::ControlTooLarge => -13,
        CarrierError::ControlCapacityUnavailable => -14,
        CarrierError::InvalidOutputCapacity => -15,
        CarrierError::StaleHandle => -16,
        CarrierError::GenerationExhausted => -17,
        CarrierError::TransportUnavailable => -18,
    }
}

/// The status code the host sees for a carrier error.
pub fn error_code(error: CarrierError) -> (code: isize)
    ensures
        code == spec_error_code(error),
{
    match error {
        CarrierError::WrongVersion => -10,
        CarrierError::WrongRecordSize => -11,
        CarrierError::MessageTooLarge => -12,
        CarrierError::ControlTooLarge => -13,
        CarrierError::ControlCapacityUnavailable => -14,
        CarrierError::InvalidOutputCapacity => -15,
        CarrierError::StaleHandle => -16,
        CarrierError::GenerationExhausted => -17,
        CarrierError::TransportUnavailable => -18,
    }
}

/// Index of the first `:` in `s` at or after `i`, or -1.
pub open spec fn colon_from(s: Seq<u8>, i: int) -> int
    decreases s.len() - i,
{
    if i < 0 || i >= s.len() {
        -1
    } else if s[i] == 58 {
        i
    } else {
        colon_from(s, i + 1)
    }
}

/// A token field: one to ten ASCII digits whose value fits in 32 bits.
pub open spec fn token_field(s: Seq<u8>) -> bool {
    1 <= s.len() <= 10 && all_digits(s) && digits_value(s) <= u32::MAX
}

/// The handle token that the text `generation:slot` names.
pub open spec fn spec_parse_token(raw: Seq<u8>) -> Option<HandleToken> {
    let k = colon_from(raw, 0);
    if k < 0 {
        None
    } else {
        let g = raw.subrange(0, k);
        let s = raw.subrange(k + 1, raw.len() as int);
        if token_field(g) && token_field(s) {
            Some(HandleToken { generation: digits_value(g) as u32, slot: digits_value(s) as u32 })
        } else {
            None
        }
    }
}

/// The text form `generation:slot` of a handle token.
pub open spec fn spec_token_text(token: HandleToken) -> Seq<u8> {
    decimal_text(token.generation as nat) + seq![58u8] + decimal_text(token.slot as nat)
}

proof fn lemma_colon_from_steps(s: Seq<u8>, i: int)
    requires
        0 <= i <= s.len(),
        forall|j: int| 0 <= j < i ==> s[j] != 58,
    ensures
        colon_from(s, 0) == colon_from(s, i),
    decreases i,
{
    if i > 0 {
        lemma_colon_from_steps(s, i - 1);
    }
}

fn parse_field(s: &[u8]) -> (value: Option<u32>)
    ensures
        match value {
            Some(v) => token_field(s@) && v == digits_value(s@),
            None => !token_field(s@),
        },
{
    if s.len() == 0 || s.len() > 10 {
        return None;
    }
    match parse_digits_u64(s) {
        Some(v) => if v <= 0xffff_ffff { Some(v as u32) } else { None },
        None => None,
    }
}

/// Reads a handle token from its text form `generation:slot`: each side is
/// one to ten ASCII digits and fits in 32 bits.
pub fn parse_token(raw: &[u8]) -> (token: Option<HandleToken>)
    ensures
        token == spec_parse_token(raw@),
{
    let mut k: usize = 0;
    while k < raw.len() && raw[k] != 58
        invariant
            k <= raw@.len(),
            forall|j: int| 0 <= j < k ==> raw@[j] != 58,
        decreases raw@.len() - k,
    {
        k = k + 1;
    }
    proof { lemma_colon_from_steps(raw@, k as int); }
    if k == raw.len() {
        return None;
    }
    let g = vstd::slice::slice_subrange(raw, 0, k);
    let s = vstd::slice::slice_subrange(raw, k + 1, raw.len());
    match (parse_field(g), parse_field(s)) {
        (Some(generation), Some(slot)) => Some(HandleToken { generation, slot }),
        _ => None,
    }
}

/// The text form `generation:slot` of a handle token.
pub fn token_text(token: HandleToken) -> (text: Vec<u8>)
    ensures
        text@ == spec_token_text(token),
{
    let mut text = crate::text::decimal_bytes(token.generation as u64);
    text.push(58u8);
    let mut slot = crate::text::decimal_bytes(token.slot as u64);
    text.append(&mut slot);
    text
}


/// Reading the text form of any token gives that token back.
pub proof fn law_token_text_round_trip(token: HandleToken)
    ensures
        spec_parse_token(spec_token_text(token)) == Some(token),
{
    let g = decimal_text(token.generation as nat);
    let s = decimal_text(token.slot as nat);
    let t = spec_token_text(token);
    assert(crate::text::pow10(10) == 10000000000) by {
        reveal_with_fuel(crate::text::pow10, 11);
    }
    crate::text::lemma_decimal_text(token.generation as nat, 10);
    crate::text::lemma_decimal_text(token.slot as nat, 10);
    assert forall|j: int| 0 <= j < g.len() implies t[j] != 58 by {
        assert(t[j] == g[j]);
        assert(crate::text::is_digit(g[j]));
    }
    assert(t[g.len() as int] == 58);
    lemma_colon_from_steps(t, g.len() as int);
    assert(t.subrange(0, g.len() as int) =~= g);
    assert(t.subrange(g.len() as int + 1, t.len() as int) =~= s);
}

/// Each carrier error reports its fixed status code, from -10 for a wrong
/// version down to -18 for an unavailable transport.
pub proof fn law_carrier_error_code_table()
    ensures
        spec_error_code(CarrierError::WrongVersion) == -10,
        spec_error_code(CarrierError::WrongRecordSize) == -11,
        spec_error_code(CarrierError::MessageTooLarge) == -12,
        spec_error_code(CarrierError::ControlTooLarge) == -13,
        spec_error_code(CarrierError::ControlCapacityUnavailable) == -14,
        spec_error_code(CarrierError::InvalidOutputCapacity) == -15,
        spec_error_code(CarrierError::StaleHandle) == -16,
        spec_error_code(CarrierError::GenerationExhausted) == -17,
        spec_error_code(CarrierError::TransportUnavailable) == -18,
{
}

} // verus!
