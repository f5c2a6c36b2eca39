use vstd::prelude::*;

use crate::producer_types::ProducerError;
use crate::text::{
    append_bytes, append_text, decimal_bytes, decimal_text, has_prefix, lemma_decimal_text, pow10,
    starts_with, text_eq, utf8,
};

verus! {

/// Width, in digits, of a padded record ordinal.
pub const ORDINAL_WIDTH: usize = 20;

/// `digits` with zeros in front, up to `width` digits.
pub open spec fn zero_pad(digits: Seq<u8>, width: nat) -> Seq<u8> {
    if digits.len() < width {
        Seq::new((width - digits.len()) as nat, |i: int| 48u8) + digits
    } else {
        digits
    }
}

/// Sections whose records are ordered by a padded ordinal, so that the
/// lexical order of their identifiers is their numeric order.
pub open spec fn padded_section(section_key: Seq<char>) -> bool {
    has_prefix(utf8(section_key), utf8("ship_"@)) || section_key == "faction_census"@
}

/// The identifier of the record with ordinal `ordinal` in revision `revision`
/// of a section.
pub open spec fn spec_record_id(section_key: Seq<char>, revision: u64, ordinal: u64) -> Seq<u8> {
    let digits = decimal_text(ordinal as nat);
    utf8("carrier-b:"@) + decimal_text(revision as nat) + utf8(":"@) + if padded_section(
        section_key,
    ) {
        zero_pad(digits, ORDINAL_WIDTH as nat)
    } else {
        digits
    }
}

/// Whether a section's record ordinals are padded.
pub fn is_padded_section(section_key: &str) -> (padded: bool)
    ensures
        padded == padded_section(section_key@),
{
    starts_with(section_key.as_bytes(), "ship_".as_bytes()) || text_eq(section_key, "faction_census")
}

/// The identifier of a record: "carrier-b:", the revision, ":", and the
/// record's ordinal, padded with zeros to twenty digits in ship and faction
/// census sections.
pub fn record_id(section_key: &str, revision: u64, ordinal: u64) -> (id: Vec<u8>)
    ensures
        id@ == spec_record_id(section_key@, revision, ordinal),
{
    let mut id: Vec<u8> = Vec::new();
    append_text(&mut id, "carrier-b:");
    let rev = decimal_bytes(revision);
    append_bytes(&mut id, rev.as_slice());
    append_text(&mut id, ":");
    let digits = decimal_bytes(ordinal);
    let ghost prefix = id@;
    if is_padded_section(section_key) && digits.len() < ORDINAL_WIDTH {
        let fill = ORDINAL_WIDTH - digits.len();
        let mut k: usize = 0;
        while k < fill
            invariant
                k <= fill,
                id@ == prefix + Seq::new(k as nat, |i: int| 48u8),
            decreases fill - k,
        {
            id.push(48u8);
            k = k + 1;
            assert(id@ =~= prefix + Seq::new(k as nat, |i: int| 48u8));
        }
    }
    append_bytes(&mut id, digits.as_slice());
    assert(id@ =~= spec_record_id(section_key@, revision, ordinal));
    id
}

/// The ordinal of the record `offset` places after the first one of a batch;
/// a sum past the machine's range is a data limit.
pub fn record_ordinal(first: usize, offset: usize) -> (ordinal: Result<usize, ProducerError>)
    ensures
        match ordinal {
            Ok(n) => n == first + offset,
            Err(e) => e == ProducerError::DataLimit && first + offset > usize::MAX,
        },
{
    match first.checked_add(offset) {
        Some(n) => Ok(n),
        None => Err(ProducerError::DataLimit),
    }
}

/// `x` sorts before `y` byte by byte.
pub open spec fn lex_less(x: Seq<u8>, y: Seq<u8>) -> bool {
    ||| exists|i: int|
        0 <= i < x.len() && i < y.len() && x.subrange(0, i) == y.subrange(0, i) && #[trigger] x[i] < y[i]
    ||| (x.len() < y.len() && x == y.subrange(0, x.len() as int))
}

/// The last `width` decimal digits of `n`, zeros in front.
pub open spec fn fixed_digits(n: nat, width: nat) -> Seq<u8>
    decreases width,
{
    if width == 0 {
        Seq::empty()
    } else {
        fixed_digits(n / 10, (width - 1) as nat).push((48 + n % 10) as u8)
    }
}

proof fn lemma_fixed_zero(width: nat)
    ensures
        fixed_digits(0, width) == Seq::new(width, |i: int| 48u8),
    decreases width,
{
    if width > 0 {
        lemma_fixed_zero((width - 1) as nat);
        assert(fixed_digits(0, width) =~= Seq::new(width, |i: int| 48u8));
    }
}

proof fn lemma_pad_is_fixed(n: nat, width: nat)
    requires
        width >= 1,
        n < pow10(width),
    ensures
        zero_pad(decimal_text(n), width) == fixed_digits(n, width),
    decreases width,
{
    lemma_decimal_text(n, width);
    if n < 10 {
        lemma_fixed_zero((width - 1) as nat);
        assert(fixed_digits(n / 10, (width - 1) as nat) == fixed_digits(0, (width - 1) as nat));
        assert(zero_pad(decimal_text(n), width) =~= fixed_digits(n, width));
    } else {
        let w1 = (width - 1) as nat;
        assert(width >= 2) by {
            if width == 1 {
                assert(pow10(1) == 10 * pow10(0));
            }
        }
        assert(n / 10 < pow10(w1)) by {
            assert(pow10(width) == 10 * pow10(w1));
        }
        lemma_pad_is_fixed(n / 10, w1);
        lemma_decimal_text(n / 10, w1);
        let head = decimal_text(n / 10);
        let d = (48 + n % 10) as u8;
        assert(decimal_text(n) == head.push(d));
        assert(zero_pad(decimal_text(n), width) =~= zero_pad(head, w1).push(d));
    }
}

proof fn lemma_fixed_order(a: nat, b: nat, width: nat)
    requires
        a < b < pow10(width),
    ensures
        fixed_digits(a, width).len() == width,
        fixed_digits(b, width).len() == width,
        exists|i: int|
            0 <= i < width && fixed_digits(a, width).subrange(0, i) == fixed_digits(b, width).subrange(0, i)
                && #[trigger] fixed_digits(a, width)[i] < fixed_digits(b, width)[i],
    decreases width,
{
    if width == 0 {
        assert(pow10(0) == 1);
    } else {
        let w1 = (width - 1) as nat;
        assert(pow10(width) == 10 * pow10(w1));
        assert(b / 10 < pow10(w1)) by (nonlinear_arith)
            requires
                b < 10 * pow10(w1),
        ;
        assert(a / 10 <= b / 10) by (nonlinear_arith)
            requires
                a < b,
        ;
        let fa = fixed_digits(a, width);
        let fb = fixed_digits(b, width);
        let ha = fixed_digits(a / 10, w1);
        let hb = fixed_digits(b / 10, w1);
        if a / 10 < b / 10 {
            lemma_fixed_order(a / 10, b / 10, w1);
            let i = choose|i: int|
                0 <= i < w1 && ha.subrange(0, i) == hb.subrange(0, i) && #[trigger] ha[i] < hb[i];
            assert(fa.subrange(0, i) =~= ha.subrange(0, i));
            assert(fb.subrange(0, i) =~= hb.subrange(0, i));
            assert(fa[i] == ha[i] && fb[i] == hb[i]);
        } else {
            lemma_fixed_len(a / 10, w1);
            assert(a % 10 < b % 10) by (nonlinear_arith)
                requires
                    a < b,
                    a / 10 == b / 10,
            ;
            let i = w1 as int;
            assert(fa.subrange(0, i) =~= ha);
            assert(fb.subrange(0, i) =~= hb);
            assert(fa[i] < fb[i]);
        }
    }
}

proof fn lemma_fixed_len(n: nat, width: nat)
    ensures
        fixed_digits(n, width).len() == width,
    decreases width,
{
    if width > 0 {
        lemma_fixed_len(n / 10, (width - 1) as nat);
    }
}

/// In ship and faction census sections, record identifiers sort byte by byte
/// exactly as their ordinals do, so that ordinals of any width keep their
/// order in the section's certificate.
pub proof fn law_padded_ids_sort_as_ordinals(section_key: Seq<char>, revision: u64, a: u64, b: u64)
    requires
        padded_section(section_key),
        a < b,
    ensures
        lex_less(spec_record_id(section_key, revision, a), spec_record_id(section_key, revision, b)),
{
    let w = ORDINAL_WIDTH as nat;
    assert(pow10(20) == 100000000000000000000nat) by {
        reveal_with_fuel(pow10, 21);
    }
    lemma_pad_is_fixed(a as nat, w);
    lemma_pad_is_fixed(b as nat, w);
    lemma_fixed_order(a as nat, b as nat, w);
    let fa = fixed_digits(a as nat, w);
    let fb = fixed_digits(b as nat, w);
    let j = choose|i: int| 0 <= i < w && fa.subrange(0, i) == fb.subrange(0, i) && #[trigger] fa[i] < fb[i];
    let prefix = utf8("carrier-b:"@) + decimal_text(revision as nat) + utf8(":"@);
    let x = spec_record_id(section_key, revision, a);
    let y = spec_record_id(section_key, revision, b);
    assert(x == prefix + fa);
    assert(y == prefix + fb);
    let k = prefix.len() + j;
    assert(x.subrange(0, k) =~= prefix + fa.subrange(0, j));
    assert(y.subrange(0, k) =~= prefix + fb.subrange(0, j));
    assert(x[k] == fa[j] && y[k] == fb[j]);
    assert(x[k] < y[k]);
}

} // verus!
