use vstd::prelude::*;

use crate::text::{bytes_eq, text_eq, utf8};

verus! {

/// Longest table key, in bytes, that a detail table may use.
pub const KEY_BYTES: usize = 64;

/// Keys of a cargo detail record.
pub const CARGO_KEYS: [&'static str; 16] = [
    "profile",
    "source_scope",
    "identity",
    "owner",
    "core_revision",
    "member_revision",
    "policy_version",
    "capture_start_millis",
    "capture_end_millis",
    "source_evidence",
    "consistency",
    "consistency_reason",
    "wares_outcome",
    "storage_outcome",
    "wares",
    "storage",
];

/// Keys of a crew detail record.
pub const CREW_KEYS: [&'static str; 15] = [
    "profile",
    "source_scope",
    "identity",
    "owner",
    "core_revision",
    "member_revision",
    "policy_version",
    "capture_start_millis",
    "capture_end_millis",
    "source_evidence",
    "capacity_outcome",
    "capacity_people",
    "roles_outcome",
    "includepilot",
    "roles",
];

/// Keys of a loadout detail record.
pub const LOADOUT_KEYS: [&'static str; 23] = [
    "profile",
    "source_scope",
    "identity",
    "owner",
    "core_revision",
    "member_revision",
    "policy_version",
    "capture_start_millis",
    "capture_end_millis",
    "source_evidence",
    "consistency",
    "consistency_reason",
    "physical_outcome",
    "virtual_outcome",
    "software_outcome",
    "missiles_outcome",
    "units_outcome",
    "physical",
    "virtual_slots",
    "software",
    "missiles",
    "units",
    "onlydrones",
];

pub const CARGO_WARE_KEYS: [&'static str; 2] = ["ware", "amount_items"];

pub const CARGO_STORAGE_KEYS: [&'static str; 3] = [
    "transport",
    "capacity_cubic_metres",
    "occupied_cubic_metres",
];

pub const CREW_TIER_KEYS: [&'static str; 3] = ["name", "skill_lower_threshold", "amount_people"];

pub const CREW_ROLE_KEYS: [&'static str; 5] = [
    "id",
    "amount_people",
    "reported_numtiers",
    "canhire",
    "tiers",
];

pub const PHYSICAL_SLOT_KEYS: [&'static str; 6] = [
    "kind",
    "slot",
    "component",
    "macro_name",
    "path",
    "group",
];

pub const VIRTUAL_SLOT_KEYS: [&'static str; 3] = ["kind", "slot", "macro_name"];

pub const SOFTWARE_KEYS: [&'static str; 2] = ["maximum", "current"];

pub const MISSILE_KEYS: [&'static str; 3] = ["ware", "macro_name", "amount_raw"];

pub const UNIT_KEYS: [&'static str; 3] = ["macro_name", "category", "amount_items"];

/// One ware held in a ship's cargo.
#[derive(Clone, Debug, PartialEq, Eq)]
pub struct CargoWare {
    pub ware: String,
    pub amount_items: u64,
}

/// One cargo storage of a ship.
#[derive(Clone, Debug, PartialEq, Eq)]
pub struct CargoStorage {
    pub transport: String,
    pub capacity_cubic_metres: u32,
    pub occupied_cubic_metres: u32,
}

/// One skill tier of a crew role.
#[derive(Clone, Debug, PartialEq, Eq)]
pub struct CrewTier {
    pub name: String,
    pub skill_lower_threshold: i64,
    pub amount_people: u32,
}

/// One crew role with its tiers.
#[derive(Clone, Debug, PartialEq, Eq)]
pub struct CrewRole {
    pub id: String,
    pub amount_people: u32,
    pub reported_numtiers: u32,
    pub canhire: bool,
    pub tiers: Vec<CrewTier>,
}

/// How many people a ship's crew may hold.
#[derive(Clone, Copy, Debug, PartialEq, Eq, Structural)]
pub enum CrewCapacity {
    Value(u32),
    Zero,
}

/// One physical equipment slot.
#[derive(Clone, Debug, PartialEq, Eq)]
pub struct InstalledSlot {
    pub kind: String,
    pub slot: u32,
    pub component: String,
    pub macro_name: String,
    pub path: String,
    pub group: String,
}

/// One virtual equipment slot.
#[derive(Clone, Debug, PartialEq, Eq)]
pub struct VirtualSlot {
    pub kind: String,
    pub slot: u32,
    pub macro_name: String,
}

/// One installed software entry.
#[derive(Clone, Debug, PartialEq, Eq)]
pub struct InstalledSoftware {
    pub maximum: String,
    pub current: String,
}

/// Missiles carried by a ship.
#[derive(Clone, Debug, PartialEq, Eq)]
pub struct MissileCargo {
    pub ware: String,
    pub macro_name: String,
    pub amount_raw: i64,
}

/// Units (drones and the like) carried by a ship.
#[derive(Clone, Debug, PartialEq, Eq)]
pub struct ShipUnit {
    pub macro_name: String,
    pub category: String,
    pub amount_items: u32,
}

/// A table key as read: its bytes where it is a string, `None` otherwise. It
/// is acceptable where it is at most `KEY_BYTES` long and one of `expected`.
pub open spec fn key_ok(key: Option<Vec<u8>>, expected: Seq<&str>) -> bool {
    match key {
        Some(k) => k@.len() <= KEY_BYTES && exists|j: int|
            0 <= j < expected.len() && k@ == utf8(#[trigger] expected[j]@),
        None => false,
    }
}

/// A table has exactly the expected keys: as many as expected, each of them
/// acceptable.
pub open spec fn spec_exact_keys(keys: Seq<Option<Vec<u8>>>, expected: Seq<&str>) -> bool {
    keys.len() == expected.len() && forall|i: int| 0 <= i < keys.len() ==> key_ok(#[trigger] keys[i], expected)
}

/// A string field as read (its bytes, or `None` where it is missing or no
/// string) is usable where it has at most `limit` bytes of valid UTF-8.
pub open spec fn text_ok(raw: Option<Vec<u8>>, limit: usize) -> bool {
    match raw {
        Some(b) => b@.len() <= limit && vstd::utf8::valid_utf8(b@),
        None => false,
    }
}

/// `text` holds exactly the bytes that were read.
pub open spec fn text_of(text: String, raw: Option<Vec<u8>>) -> bool {
    match raw {
        Some(b) => utf8(text@) == b@,
        None => false,
    }
}

/// The field was read as the string `s`, within `limit` bytes.
pub open spec fn text_is(raw: Option<Vec<u8>>, limit: usize, s: Seq<char>) -> bool {
    text_ok(raw, limit) && text_of_chars(s, raw)
}

pub open spec fn text_of_chars(s: Seq<char>, raw: Option<Vec<u8>>) -> bool {
    match raw {
        Some(b) => utf8(s) == b@,
        None => false,
    }
}

pub open spec fn decoded(text: Option<String>, raw: Option<Vec<u8>>) -> bool {
    match text {
        Some(t) => text_of(t, raw),
        None => true,
    }
}

pub open spec fn fits_u32(raw: Option<usize>) -> bool {
    match raw {
        Some(v) => v <= u32::MAX,
        None => false,
    }
}

pub open spec fn index_ok(index: Option<usize>, limit: usize) -> bool {
    match index {
        Some(k) => 1 <= k <= limit,
        None => false,
    }
}

/// `String::from_utf8`. Its documentation: the bytes become the string
/// unchanged where they are valid UTF-8, and an error is returned otherwise.
#[verifier::external_body]
fn utf8_string(bytes: Vec<u8>) -> (text: Option<String>)
    ensures
        text.is_some() == vstd::utf8::valid_utf8(bytes@),
        decoded(text, Some(bytes)),
{
    String::from_utf8(bytes).ok()
}

/// A string field: at most `limit` bytes of valid UTF-8, else `None`.
pub fn bounded_text(raw: Option<Vec<u8>>, limit: usize) -> (text: Option<String>)
    ensures
        text.is_some() == text_ok(raw, limit),
        decoded(text, raw),
{
    match raw {
        Some(bytes) => if bytes.len() <= limit {
            utf8_string(bytes)
        } else {
            None
        },
        None => None,
    }
}

/// An integer field that must fit in a `u32`.
pub fn to_u32(raw: Option<usize>) -> (value: Option<u32>)
    ensures
        value.is_some() == fits_u32(raw),
        (value matches Some(v) ==> v == raw.unwrap()),
{
    match raw {
        Some(v) => if v <= 0xffff_ffffusize {
            Some(v as u32)
        } else {
            None
        },
        None => None,
    }
}

fn key_listed(key: &[u8], expected: &[&str]) -> (found: bool)
    ensures
        found == exists|j: int| 0 <= j < expected@.len() && key@ == utf8(#[trigger] expected@[j]@),
{
    let mut j: usize = 0;
    while j < expected.len()
        invariant
            j <= expected@.len(),
            forall|m: int| 0 <= m < j ==> key@ != utf8(#[trigger] expected@[m]@),
        decreases expected.len() - j,
    {
        if bytes_eq(key, expected[j].as_bytes()) {
            return true;
        }
        j = j + 1;
    }
    false
}

/// Whether a table's keys are exactly `expected`: as many keys as expected,
/// each a string of at most `KEY_BYTES` bytes that is one of them. Lua keys
/// are distinct, so this is set equality.
pub fn exact_keys(keys: &[Option<Vec<u8>>], expected: &[&str]) -> (exact: bool)
    ensures
        exact == spec_exact_keys(keys@, expected@),
{
    let mut i: usize = 0;
    while i < keys.len()
        invariant
            i <= keys@.len(),
            forall|m: int| 0 <= m < i ==> key_ok(#[trigger] keys@[m], expected@),
        decreases keys.len() - i,
    {
        let ok = match &keys[i] {
            Some(k) => k.len() <= KEY_BYTES && key_listed(k.as_slice(), expected),
            None => false,
        };
        if !ok {
            return false;
        }
        i = i + 1;
    }
    keys.len() == expected.len()
}

/// The length of a dense array, from its keys in iteration order: each must be
/// an integer index from 1 to `limit`, and there may be at most `limit` of them.
pub fn array_len(indices: &[Option<usize>], limit: usize) -> (count: Option<usize>)
    ensures
        count == if indices@.len() <= limit && forall|i: int|
            0 <= i < indices@.len() ==> index_ok(#[trigger] indices@[i], limit) {
            Some(indices@.len() as usize)
        } else {
            None::<usize>
        },
{
    let mut count: usize = 0;
    while count < indices.len()
        invariant
            count <= indices@.len(),
            count <= limit,
            forall|m: int| 0 <= m < count ==> index_ok(#[trigger] indices@[m], limit),
        decreases indices.len() - count,
    {
        let ok = match indices[count] {
            Some(k) => k != 0 && k <= limit && count < limit,
            None => false,
        };
        if !ok {
            return None;
        }
        count = count + 1;
    }
    Some(count)
}

/// Whether a cargo record table has exactly the cargo keys.
pub fn cargo_shape(keys: &[Option<Vec<u8>>]) -> (ok: bool)
    ensures
        ok == spec_exact_keys(keys@, CARGO_KEYS@),
{
    exact_keys(keys, CARGO_KEYS.as_slice())
}

/// Whether a crew record table has exactly the crew keys and includes the pilot.
pub fn crew_shape(keys: &[Option<Vec<u8>>], includepilot: Option<bool>) -> (ok: bool)
    ensures
        ok == (spec_exact_keys(keys@, CREW_KEYS@) && includepilot == Some(true)),
{
    exact_keys(keys, CREW_KEYS.as_slice()) && includepilot == Some(true)
}

/// Whether a loadout record table has exactly the loadout keys and does not
/// describe drones only.
pub fn loadout_shape(keys: &[Option<Vec<u8>>], onlydrones: Option<bool>) -> (ok: bool)
    ensures
        ok == (spec_exact_keys(keys@, LOADOUT_KEYS@) && onlydrones == Some(false)),
{
    exact_keys(keys, LOADOUT_KEYS.as_slice()) && onlydrones == Some(false)
}

pub open spec fn spec_crew_capacity(outcome: Option<Vec<u8>>, people: Option<usize>)
    -> Option<CrewCapacity> {
    if !fits_u32(people) {
        None
    } else if text_is(outcome, 32, "value"@) && people.unwrap() > 0 {
        Some(CrewCapacity::Value(people.unwrap() as u32))
    } else if text_is(outcome, 32, "zero"@) && people.unwrap() == 0 {
        Some(CrewCapacity::Zero)
    } else {
        None
    }
}

/// A crew's capacity: "value" with a positive count of people, or "zero" with
/// none; the count must fit in a `u32`.
pub fn crew_capacity(outcome: Option<Vec<u8>>, people: Option<usize>)
    -> (capacity: Option<CrewCapacity>)
    ensures
        capacity == spec_crew_capacity(outcome, people),
{
    let count = match to_u32(people) {
        Some(c) => c,
        None => return None,
    };
    let ghost raw = outcome;
    let text = match bounded_text(outcome, 32) {
        Some(t) => t,
        None => return None,
    };
    proof {
        vstd::utf8::encode_utf8_decode_utf8(text@);
        vstd::utf8::encode_utf8_decode_utf8("value"@);
        vstd::utf8::encode_utf8_decode_utf8("zero"@);
    }
    if text_eq(text.as_str(), "value") && count > 0 {
        Some(CrewCapacity::Value(count))
    } else if text_eq(text.as_str(), "zero") && count == 0 {
        Some(CrewCapacity::Zero)
    } else {
        None
    }
}

/// One ware of a cargo detail: exactly its keys, a ware name of at most 128
/// bytes and a count of items.
pub fn cargo_ware(keys: &[Option<Vec<u8>>], ware: Option<Vec<u8>>, amount_items: Option<usize>)
    -> (row: Option<CargoWare>)
    ensures
        row.is_some() == (spec_exact_keys(keys@, CARGO_WARE_KEYS@) && text_ok(ware, 128)
            && amount_items.is_some()),
        (row matches Some(r) ==> text_of(r.ware, ware) && r.amount_items == amount_items.unwrap()),
{
    if !exact_keys(keys, CARGO_WARE_KEYS.as_slice()) {
        return None;
    }
    let ware = match bounded_text(ware, 128) {
        Some(t) => t,
        None => return None,
    };
    match amount_items {
        Some(n) => Some(CargoWare { ware, amount_items: n as u64 }),
        None => None,
    }
}

/// One cargo storage: exactly its keys, a transport name of at most 128 bytes,
/// and capacity and occupied volume that fit in a `u32`.
pub fn cargo_storage(
    keys: &[Option<Vec<u8>>],
    transport: Option<Vec<u8>>,
    capacity_cubic_metres: Option<usize>,
    occupied_cubic_metres: Option<usize>,
) -> (row: Option<CargoStorage>)
    ensures
        row.is_some() == (spec_exact_keys(keys@, CARGO_STORAGE_KEYS@) && text_ok(transport, 128)
            && fits_u32(capacity_cubic_metres) && fits_u32(occupied_cubic_metres)),
        (row matches Some(r) ==> text_of(r.transport, transport) && r.capacity_cubic_metres
            == capacity_cubic_metres.unwrap() && r.occupied_cubic_metres
            == occupied_cubic_metres.unwrap()),
{
    if !exact_keys(keys, CARGO_STORAGE_KEYS.as_slice()) {
        return None;
    }
    let transport = match bounded_text(transport, 128) {
        Some(t) => t,
        None => return None,
    };
    let capacity = match to_u32(capacity_cubic_metres) {
        Some(v) => v,
        None => return None,
    };
    let occupied = match to_u32(occupied_cubic_metres) {
        Some(v) => v,
        None => return None,
    };
    Some(
        CargoStorage {
            transport,
            capacity_cubic_metres: capacity,
            occupied_cubic_metres: occupied,
        },
    )
}

/// One skill tier of a crew role: exactly its keys, a name of at most 128
/// bytes, a signed skill threshold and a count of people that fits in a `u32`.
pub fn crew_tier(
    keys: &[Option<Vec<u8>>],
    name: Option<Vec<u8>>,
    skill_lower_threshold: Option<i64>,
    amount_people: Option<usize>,
) -> (row: Option<CrewTier>)
    ensures
        row.is_some() == (spec_exact_keys(keys@, CREW_TIER_KEYS@) && text_ok(name, 128)
            && skill_lower_threshold.is_some() && fits_u32(amount_people)),
        (row matches Some(r) ==> text_of(r.name, name) && r.skill_lower_threshold
            == skill_lower_threshold.unwrap() && r.amount_people == amount_people.unwrap()),
{
    if !exact_keys(keys, CREW_TIER_KEYS.as_slice()) {
        return None;
    }
    let name = match bounded_text(name, 128) {
        Some(t) => t,
        None => return None,
    };
    let threshold = match skill_lower_threshold {
        Some(v) => v,
        None => return None,
    };
    let people = match to_u32(amount_people) {
        Some(v) => v,
        None => return None,
    };
    Some(CrewTier { name, skill_lower_threshold: threshold, amount_people: people })
}

/// One crew role: exactly its keys, an id of at most 128 bytes, counts that fit
/// in a `u32`, whether it can hire, and its tiers as read (`None` where the
/// tier array or one of its rows was refused).
pub fn crew_role(
    keys: &[Option<Vec<u8>>],
    id: Option<Vec<u8>>,
    amount_people: Option<usize>,
    reported_numtiers: Option<usize>,
    canhire: Option<bool>,
    tiers: Option<Vec<CrewTier>>,
) -> (row: Option<CrewRole>)
    ensures
        row.is_some() == (spec_exact_keys(keys@, CREW_ROLE_KEYS@) && tiers.is_some() && text_ok(
            id,
            128,
        ) && fits_u32(amount_people) && fits_u32(reported_numtiers) && canhire.is_some()),
        (row matches Some(r) ==> text_of(r.id, id) && r.amount_people == amount_people.unwrap()
            && r.reported_numtiers == reported_numtiers.unwrap() && r.canhire == canhire.unwrap()
            && r.tiers@ == tiers.unwrap()@),
{
    if !exact_keys(keys, CREW_ROLE_KEYS.as_slice()) {
        return None;
    }
    let tiers = match tiers {
        Some(t) => t,
        None => return None,
    };
    let id = match bounded_text(id, 128) {
        Some(t) => t,
        None => return None,
    };
    let people = match to_u32(amount_people) {
        Some(v) => v,
        None => return None,
    };
    let reported = match to_u32(reported_numtiers) {
        Some(v) => v,
        None => return None,
    };
    match canhire {
        Some(canhire) => Some(
            CrewRole { id, amount_people: people, reported_numtiers: reported, canhire, tiers },
        ),
        None => None,
    }
}

/// One physical equipment slot: exactly its keys, a kind of at most 32 bytes, a
/// slot number that fits in a `u32`, a component of at most 20 bytes, and macro,
/// path and group names of at most 128 bytes.
pub fn installed_slot(
    keys: &[Option<Vec<u8>>],
    kind: Option<Vec<u8>>,
    slot: Option<usize>,
    component: Option<Vec<u8>>,
    macro_name: Option<Vec<u8>>,
    path: Option<Vec<u8>>,
    group: Option<Vec<u8>>,
) -> (row: Option<InstalledSlot>)
    ensures
        row.is_some() == (spec_exact_keys(keys@, PHYSICAL_SLOT_KEYS@) && text_ok(kind, 32)
            && fits_u32(slot) && text_ok(component, 20) && text_ok(macro_name, 128) && text_ok(
            path,
            128,
        ) && text_ok(group, 128)),
        (row matches Some(r) ==> text_of(r.kind, kind) && r.slot == slot.unwrap() && text_of(
            r.component,
            component,
        ) && text_of(r.macro_name, macro_name) && text_of(r.path, path) && text_of(
            r.group,
            group,
        )),
{
    if !exact_keys(keys, PHYSICAL_SLOT_KEYS.as_slice()) {
        return None;
    }
    let kind = match bounded_text(kind, 32) {
        Some(t) => t,
        None => return None,
    };
    let slot = match to_u32(slot) {
        Some(v) => v,
        None => return None,
    };
    let component = match bounded_text(component, 20) {
        Some(t) => t,
        None => return None,
    };
    let macro_name = match bounded_text(macro_name, 128) {
        Some(t) => t,
        None => return None,
    };
    let path = match bounded_text(path, 128) {
        Some(t) => t,
        None => return None,
    };
    let group = match bounded_text(group, 128) {
        Some(t) => t,
        None => return None,
    };
    Some(InstalledSlot { kind, slot, component, macro_name, path, group })
}

/// One virtual equipment slot: exactly its keys, a kind of at most 32 bytes, a
/// slot number that fits in a `u32` and a macro name of at most 128 bytes.
pub fn virtual_slot(
    keys: &[Option<Vec<u8>>],
    kind: Option<Vec<u8>>,
    slot: Option<usize>,
    macro_name: Option<Vec<u8>>,
) -> (row: Option<VirtualSlot>)
    ensures
        row.is_some() == (spec_exact_keys(keys@, VIRTUAL_SLOT_KEYS@) && text_ok(kind, 32)
            && fits_u32(slot) && text_ok(macro_name, 128)),
        (row matches Some(r) ==> text_of(r.kind, kind) && r.slot == slot.unwrap() && text_of(
            r.macro_name,
            macro_name,
        )),
{
    if !exact_keys(keys, VIRTUAL_SLOT_KEYS.as_slice()) {
        return None;
    }
    let kind = match bounded_text(kind, 32) {
        Some(t) => t,
        None => return None,
    };
    let slot = match to_u32(slot) {
        Some(v) => v,
        None => return None,
    };
    let macro_name = match bounded_text(macro_name, 128) {
        Some(t) => t,
        None => return None,
    };
    Some(VirtualSlot { kind, slot, macro_name })
}

/// One installed software entry: exactly its keys, and the maximum and current
/// software names of at most 128 bytes each.
pub fn installed_software(
    keys: &[Option<Vec<u8>>],
    maximum: Option<Vec<u8>>,
    current: Option<Vec<u8>>,
) -> (row: Option<InstalledSoftware>)
    ensures
        row.is_some() == (spec_exact_keys(keys@, SOFTWARE_KEYS@) && text_ok(maximum, 128)
            && text_ok(current, 128)),
        (row matches Some(r) ==> text_of(r.maximum, maximum) && text_of(r.current, current)),
{
    if !exact_keys(keys, SOFTWARE_KEYS.as_slice()) {
        return None;
    }
    let maximum = match bounded_text(maximum, 128) {
        Some(t) => t,
        None => return None,
    };
    let current = match bounded_text(current, 128) {
        Some(t) => t,
        None => return None,
    };
    Some(InstalledSoftware { maximum, current })
}

/// Missiles carried: exactly their keys, ware and macro names of at most 128
/// bytes, and the raw signed amount.
pub fn missile_cargo(
    keys: &[Option<Vec<u8>>],
    ware: Option<Vec<u8>>,
    macro_name: Option<Vec<u8>>,
    amount_raw: Option<i64>,
) -> (row: Option<MissileCargo>)
    ensures
        row.is_some() == (spec_exact_keys(keys@, MISSILE_KEYS@) && text_ok(ware, 128) && text_ok(
            macro_name,
            128,
        ) && amount_raw.is_some()),
        (row matches Some(r) ==> text_of(r.ware, ware) && text_of(r.macro_name, macro_name)
            && r.amount_raw == amount_raw.unwrap()),
{
    if !exact_keys(keys, MISSILE_KEYS.as_slice()) {
        return None;
    }
    let ware = match bounded_text(ware, 128) {
        Some(t) => t,
        None => return None,
    };
    let macro_name = match bounded_text(macro_name, 128) {
        Some(t) => t,
        None => return None,
    };
    match amount_raw {
        Some(amount_raw) => Some(MissileCargo { ware, macro_name, amount_raw }),
        None => None,
    }
}

/// Units carried: exactly their keys, macro and category names of at most 128
/// bytes, and a count that fits in a `u32`.
pub fn ship_unit(
    keys: &[Option<Vec<u8>>],
    macro_name: Option<Vec<u8>>,
    category: Option<Vec<u8>>,
    amount_items: Option<usize>,
) -> (row: Option<ShipUnit>)
    ensures
        row.is_some() == (spec_exact_keys(keys@, UNIT_KEYS@) && text_ok(macro_name, 128)
            && text_ok(category, 128) && fits_u32(amount_items)),
        (row matches Some(r) ==> text_of(r.macro_name, macro_name) && text_of(
            r.category,
            category,
        ) && r.amount_items == amount_items.unwrap()),
{
    if !exact_keys(keys, UNIT_KEYS.as_slice()) {
        return None;
    }
    let macro_name = match bounded_text(macro_name, 128) {
        Some(t) => t,
        None => return None,
    };
    let category = match bounded_text(category, 128) {
        Some(t) => t,
        None => return None,
    };
    let amount = match to_u32(amount_items) {
        Some(v) => v,
        None => return None,
    };
    Some(ShipUnit { macro_name, category, amount_items: amount })
}

/// The rows of a dense array, read one by one after its length was found:
/// the array is accepted exactly when its keys make it dense within `limit`,
/// one row was read per element, and every row was accepted.
pub open spec fn rows_ok<T>(indices: Seq<Option<usize>>, limit: usize, rows: Seq<Option<T>>) -> bool {
    &&& indices.len() <= limit
    &&& (forall|i: int| 0 <= i < indices.len() ==> index_ok(#[trigger] indices[i], limit))
    &&& rows.len() == indices.len()
    &&& forall|i: int| 0 <= i < rows.len() ==> #[trigger] rows[i] is Some
}

/// A dense array from its keys in iteration order and the rows read for
/// elements 1 to its length; `None` where the array or any row is refused.
pub fn array_rows<T>(indices: &[Option<usize>], limit: usize, rows: Vec<Option<T>>) -> (array: Option<Vec<T>>)
    ensures
        array is Some == rows_ok(indices@, limit, rows@),
        (array matches Some(v) ==> v@.len() == rows@.len() && forall|i: int|
            0 <= i < v@.len() ==> Some(#[trigger] v@[i]) == rows@[i]),
{
    match array_len(indices, limit) {
        None => None,
        Some(count) => {
            if count != rows.len() {
                return None;
            }
            let ghost given = rows@;
            let mut rest = rows;
            let mut out: Vec<T> = Vec::new();
            while rest.len() > 0
                invariant
                    given == rows@,
                    given.len() == indices@.len(),
                    indices@.len() <= limit,
                    forall|i: int| 0 <= i < indices@.len() ==> index_ok(#[trigger] indices@[i], limit),
                    given.len() == out@.len() + rest@.len(),
                    forall|i: int| 0 <= i < out@.len() ==> Some(#[trigger] out@[i]) == given[i],
                    forall|i: int| 0 <= i < rest@.len() ==> #[trigger] rest@[i] == given[out@.len() + i],
                decreases rest.len(),
            {
                let row = rest.remove(0);
                match row {
                    Some(value) => out.push(value),
                    None => {
                        assert(given[out@.len() as int] is None);
                        assert(!rows_ok(indices@, limit, rows@));
                        return None;
                    },
                }
            }
            assert forall|i: int| 0 <= i < given.len() implies #[trigger] given[i] is Some by {
                assert(Some(out@[i]) == given[i]);
            }
            Some(out)
        },
    }
}

/// A cargo record as the library reads it: its scope and its rows.
#[derive(Clone, Debug, PartialEq, Eq)]
pub struct CargoDetail {
    pub source_scope: String,
    pub wares: Vec<CargoWare>,
    pub storage: Vec<CargoStorage>,
}

/// A crew record as the library reads it: its scope, capacity and roles.
#[derive(Clone, Debug, PartialEq, Eq)]
pub struct CrewDetail {
    pub source_scope: String,
    pub capacity: CrewCapacity,
    pub roles: Vec<CrewRole>,
}

/// A loadout record as the library reads it: its scope and its rows.
#[derive(Clone, Debug, PartialEq, Eq)]
pub struct LoadoutDetail {
    pub source_scope: String,
    pub physical: Vec<InstalledSlot>,
    pub virtual_slots: Vec<VirtualSlot>,
    pub software: Vec<InstalledSoftware>,
    pub missiles: Vec<MissileCargo>,
    pub units: Vec<ShipUnit>,
}

/// A cargo record: exactly the cargo keys, a scope of at most 128 bytes, and
/// both arrays accepted (`wares` and `storage` as `array_rows` gave them).
pub fn cargo_table(
    keys: &[Option<Vec<u8>>],
    source_scope: Option<Vec<u8>>,
    wares: Option<Vec<CargoWare>>,
    storage: Option<Vec<CargoStorage>>,
) -> (record: Option<CargoDetail>)
    ensures
        record is Some == (spec_exact_keys(keys@, CARGO_KEYS@) && text_ok(source_scope, 128) && wares is Some
            && storage is Some),
        (record matches Some(r) ==> text_of(r.source_scope, source_scope) && r.wares@ == wares->Some_0@
            && r.storage@ == storage->Some_0@),
{
    if !cargo_shape(keys) {
        return None;
    }
    let source_scope = match bounded_text(source_scope, 128) {
        Some(t) => t,
        None => return None,
    };
    match (wares, storage) {
        (Some(wares), Some(storage)) => Some(CargoDetail { source_scope, wares, storage }),
        _ => None,
    }
}

/// A crew record: exactly the crew keys with the pilot included, a scope of
/// at most 128 bytes, an accepted capacity (`crew_capacity`) and an accepted
/// role array.
pub fn crew_table(
    keys: &[Option<Vec<u8>>],
    includepilot: Option<bool>,
    source_scope: Option<Vec<u8>>,
    capacity: Option<CrewCapacity>,
    roles: Option<Vec<CrewRole>>,
) -> (record: Option<CrewDetail>)
    ensures
        record is Some == (spec_exact_keys(keys@, CREW_KEYS@) && includepilot == Some(true) && text_ok(
            source_scope,
            128,
        ) && capacity is Some && roles is Some),
        (record matches Some(r) ==> text_of(r.source_scope, source_scope) && Some(r.capacity) == capacity
            && r.roles@ == roles->Some_0@),
{
    if !crew_shape(keys, includepilot) {
        return None;
    }
    let source_scope = match bounded_text(source_scope, 128) {
        Some(t) => t,
        None => return None,
    };
    match (capacity, roles) {
        (Some(capacity), Some(roles)) => Some(CrewDetail { source_scope, capacity, roles }),
        _ => None,
    }
}

/// A loadout record: exactly the loadout keys, not drones only, a scope of at
/// most 128 bytes, and all five arrays accepted.
pub fn loadout_table(
    keys: &[Option<Vec<u8>>],
    onlydrones: Option<bool>,
    source_scope: Option<Vec<u8>>,
    physical: Option<Vec<InstalledSlot>>,
    virtual_slots: Option<Vec<VirtualSlot>>,
    software: Option<Vec<InstalledSoftware>>,
    missiles: Option<Vec<MissileCargo>>,
    units: Option<Vec<ShipUnit>>,
) -> (record: Option<LoadoutDetail>)
    ensures
        record is Some == (spec_exact_keys(keys@, LOADOUT_KEYS@) && onlydrones == Some(false) && text_ok(
            source_scope,
            128,
        ) && physical is Some && virtual_slots is Some && software is Some && missiles is Some
            && units is Some),
        (record matches Some(r) ==> text_of(r.source_scope, source_scope) && r.physical@
            == physical->Some_0@ && r.virtual_slots@ == virtual_slots->Some_0@ && r.software@
            == software->Some_0@ && r.missiles@ == missiles->Some_0@ && r.units@ == units->Some_0@),
{
    if !loadout_shape(keys, onlydrones) {
        return None;
    }
    let source_scope = match bounded_text(source_scope, 128) {
        Some(t) => t,
        None => return None,
    };
    match (physical, virtual_slots, software, missiles, units) {
        (Some(physical), Some(virtual_slots), Some(software), Some(missiles), Some(units)) => Some(
            LoadoutDetail { source_scope, physical, virtual_slots, software, missiles, units },
        ),
        _ => None,
    }
}

} // verus!
