use x4_carrier_native::lua_detail_budget::charge;
use x4_carrier_native::lua_generation::claim_values;
use x4_carrier_native::text::decimal_string;

#[test]
fn nested_arrays_share_one_finite_copy_budget() {
    let mut remaining = Some(512);
    assert!(charge(&mut remaining, 256));
    assert!(charge(&mut remaining, 128));
    assert!(!charge(&mut remaining, 129));
    assert!(!charge(&mut remaining, 0));
}

#[test]
fn stored_generation_is_nonzero_decimal_and_bounded() {
    assert_eq!(claim_values(Some("7"), 9), Ok((7, 8)));
    assert_eq!(claim_values(None, 9), Ok((9, 10)));
    for invalid in ["", "0", "-1", "1.0", "4294967296", " 7"] {
        assert_eq!(claim_values(Some(invalid), 9), Err(()));
    }
    assert_eq!(claim_values(None, 0), Err(()));
    assert_eq!(claim_values(Some("4294967295"), 9), Err(()));
}

#[test]
fn the_stored_generation_is_claimed_by_the_next_load() {
    let (first, next) = claim_values(None, 41).unwrap();
    assert_eq!((first, next), (41, 42));
    let stored = decimal_string(u64::from(next));
    assert_eq!(claim_values(Some(&stored), 7), Ok((42, 43)));
}
