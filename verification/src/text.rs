use vstd::prelude::*;
use vstd::string::StrSliceExecFns;
use vstd::string::StringExecFns;

verus! {

/// An ASCII decimal digit.
pub open spec fn is_digit(b: u8) -> bool {
    48 <= b <= 57
}

/// Every byte is an ASCII decimal digit.
pub open spec fn all_digits(s: Seq<u8>) -> bool {
    forall|i: int| 0 <= i < s.len() ==> is_digit(#[trigger] s[i])
}

/// The number an ASCII digit string denotes (most significant digit first).
pub open spec fn digits_value(s: Seq<u8>) -> nat
    decreases s.len(),
{
    if s.len() == 0 {
        0
    } else {
        digits_value(s.drop_last()) * 10 + (s.last() - 48) as nat
    }
}

/// The shortest decimal text of `n`, as ASCII digits.
pub open spec fn decimal_text(n: nat) -> Seq<u8>
    decreases n,
{
    if n < 10 {
        seq![(48 + n) as u8]
    } else {
        decimal_text(n / 10).push((48 + n % 10) as u8)
    }
}

/// The lowercase hexadecimal digit for a value below 16.
pub open spec fn hex_digit(v: nat) -> u8 {
    if v < 10 { (48 + v) as u8 } else { (87 + v) as u8 }
}

/// Two lowercase hexadecimal digits per byte, high nibble first.
pub open spec fn hex_text(bytes: Seq<u8>) -> Seq<u8>
    decreases bytes.len(),
{
    if bytes.len() == 0 {
        Seq::empty()
    } else {
        hex_text(bytes.drop_last()) + seq![hex_digit((bytes.last() / 16) as nat), hex_digit((bytes.last() % 16) as nat)]
    }
}

/// `prefix` opens `s`.
pub open spec fn has_prefix(s: Seq<u8>, prefix: Seq<u8>) -> bool {
    prefix.len() <= s.len() && s.subrange(0, prefix.len() as int) == prefix
}

/// Ten to the power `k`.
pub open spec fn pow10(k: nat) -> nat
    decreases k,
{
    if k == 0 { 1 } else { 10 * pow10((k - 1) as nat) }
}

/// The decimal text of `n` is a nonempty digit string denoting `n`, with at
/// most `k` digits when `n` is below ten to the `k`.
pub proof fn lemma_decimal_text(n: nat, k: nat)
    ensures
        decimal_text(n).len() >= 1,
        all_digits(decimal_text(n)),
        digits_value(decimal_text(n)) == n,
        k >= 1 && n < pow10(k) ==> decimal_text(n).len() <= k,
    decreases n,
{
    if n >= 10 {
        let km: nat = if k >= 1 { (k - 1) as nat } else { 0 };
        lemma_decimal_text(n / 10, km);
        lemma_digits_value_push(decimal_text(n / 10), (48 + n % 10) as u8);
        assert(((48 + n % 10) as u8 - 48) as nat == n % 10);
        assert((n / 10) * 10 + n % 10 == n);
        assert(decimal_text(n) == decimal_text(n / 10).push((48 + n % 10) as u8));
        assert(digits_value(decimal_text(n)) == n);
        assert(all_digits(decimal_text(n))) by {
            assert forall|i: int| 0 <= i < decimal_text(n).len() implies is_digit(#[trigger] decimal_text(n)[i]) by {
                if i < decimal_text(n / 10).len() {
                    assert(decimal_text(n)[i] == decimal_text(n / 10)[i]);
                }
            }
        }
        if k >= 1 && n < pow10(k) {
            if k == 1 {
                assert(pow10(1) == 10) by { assert(pow10(0) == 1); }
            } else {
                assert(pow10(k) == 10 * pow10(km));
                assert(n / 10 < pow10(km));
            }
        }
    } else {
        assert(decimal_text(n).drop_last() =~= Seq::<u8>::empty());
        assert(digits_value(decimal_text(n).drop_last()) == 0);
        assert(decimal_text(n).last() == (48 + n) as u8);
        assert(digits_value(decimal_text(n)) == n);
        if k >= 1 {
            assert(pow10(k) >= 1) by { lemma_pow10_positive(k); }
        }
    }
}

/// Powers of ten are positive.
pub proof fn lemma_pow10_positive(k: nat)
    ensures
        pow10(k) >= 1,
    decreases k,
{
    if k > 0 {
        lemma_pow10_positive((k - 1) as nat);
    }
}

/// The UTF-8 bytes of a character sequence.
pub open spec fn utf8(s: Seq<char>) -> Seq<u8> {
    vstd::utf8::encode_utf8(s)
}

/// Appends `bytes` to `out`.
pub fn append_bytes(out: &mut Vec<u8>, bytes: &[u8])
    ensures
        final(out)@ == old(out)@ + bytes@,
{
    let mut i: usize = 0;
    while i < bytes.len()
        invariant
            i <= bytes@.len(),
            out@ == old(out)@ + bytes@.subrange(0, i as int),
        decreases bytes@.len() - i,
    {
        out.push(bytes[i]);
        proof {
            assert(bytes@.subrange(0, i + 1) =~= bytes@.subrange(0, i as int).push(bytes@[i as int]));
        }
        i = i + 1;
    }
    assert(bytes@.subrange(0, bytes@.len() as int) =~= bytes@);
}

/// Appends the UTF-8 bytes of `text` to `out`.
pub fn append_text(out: &mut Vec<u8>, text: &str)
    ensures
        final(out)@ == old(out)@ + utf8(text@),
{
    append_bytes(out, text.as_bytes());
}

/// Appends the decimal text of `n` to `out`.
pub fn append_decimal(out: &mut Vec<u8>, n: u64)
    ensures
        final(out)@ == old(out)@ + decimal_text(n as nat),
{
    let digits = decimal_bytes(n);
    append_bytes(out, digits.as_slice());
}

/// Whether two byte strings are equal.
pub fn bytes_eq(a: &[u8], b: &[u8]) -> (same: bool)
    ensures
        same == (a@ == b@),
{
    if a.len() != b.len() {
        return false;
    }
    let mut i: usize = 0;
    while i < a.len()
        invariant
            a@.len() == b@.len(),
            i <= a@.len(),
            forall|j: int| 0 <= j < i ==> a@[j] == b@[j],
        decreases a@.len() - i,
    {
        if a[i] != b[i] {
            return false;
        }
        i = i + 1;
    }
    assert(a@ =~= b@);
    true
}

/// Whether `s` begins with `prefix`.
pub fn starts_with(s: &[u8], prefix: &[u8]) -> (found: bool)
    ensures
        found == has_prefix(s@, prefix@),
{
    if prefix.len() > s.len() {
        return false;
    }
    let mut i: usize = 0;
    while i < prefix.len()
        invariant
            prefix@.len() <= s@.len(),
            i <= prefix@.len(),
            forall|j: int| 0 <= j < i ==> s@[j] == prefix@[j],
        decreases prefix@.len() - i,
    {
        if s[i] != prefix[i] {
            assert(s@.subrange(0, prefix@.len() as int)[i as int] != prefix@[i as int]);
            return false;
        }
        i = i + 1;
    }
    assert(s@.subrange(0, prefix@.len() as int) =~= prefix@);
    true
}

/// Two strings are equal exactly when their UTF-8 encodings are.
pub proof fn lemma_text_eq_bytes(a: &str, b: &str)
    ensures
        (a@ == b@) == (vstd::utf8::encode_utf8(a@) == vstd::utf8::encode_utf8(b@)),
{
    vstd::utf8::encode_utf8_decode_utf8(a@);
    vstd::utf8::encode_utf8_decode_utf8(b@);
}

/// Whether two strings are equal.
pub fn text_eq(a: &str, b: &str) -> (same: bool)
    ensures
        same == (a@ == b@),
{
    proof { lemma_text_eq_bytes(a, b); }
    bytes_eq(a.as_bytes(), b.as_bytes())
}

/// Whether every byte of `s` is an ASCII digit.
pub fn digits_only(s: &[u8]) -> (ok: bool)
    ensures
        ok == all_digits(s@),
{
    let mut i: usize = 0;
    while i < s.len()
        invariant
            i <= s@.len(),
            forall|j: int| 0 <= j < i ==> is_digit(#[trigger] s@[j]),
        decreases s@.len() - i,
    {
        if s[i] < 48 || s[i] > 57 {
            return false;
        }
        i = i + 1;
    }
    true
}

/// Extending a digit string by one digit multiplies its value by ten and adds the digit.
pub proof fn lemma_digits_value_push(s: Seq<u8>, d: u8)
    ensures
        digits_value(s.push(d)) == digits_value(s) * 10 + (d - 48) as nat,
{
    assert(s.push(d).drop_last() =~= s);
}

/// A digit string denotes at least what any of its prefixes denotes.
pub proof fn lemma_digits_value_prefix(s: Seq<u8>, k: int)
    requires
        all_digits(s),
        0 <= k <= s.len(),
    ensures
        digits_value(s.subrange(0, k)) <= digits_value(s),
    decreases s.len(),
{
    if k < s.len() {
        assert(all_digits(s.drop_last()));
        assert(s.drop_last().subrange(0, k) =~= s.subrange(0, k));
        lemma_digits_value_prefix(s.drop_last(), k);
        let v = digits_value(s.drop_last());
        assert(v <= v * 10) by (nonlinear_arith);
    } else {
        assert(s.subrange(0, k) =~= s);
    }
}

/// The value of the digit string `s`, or `None` when it is empty, holds a
/// byte that is not a digit, or exceeds `u64::MAX`.
pub fn parse_digits_u64(s: &[u8]) -> (value: Option<u64>)
    ensures
        match value {
            Some(v) => s@.len() > 0 && all_digits(s@) && v == digits_value(s@),
            None => s@.len() == 0 || !all_digits(s@) || digits_value(s@) > u64::MAX,
        },
{
    if s.len() == 0 || !digits_only(s) {
        return None;
    }
    let mut acc: u64 = 0;
    let mut i: usize = 0;
    while i < s.len()
        invariant
            i <= s@.len(),
            all_digits(s@),
            acc == digits_value(s@.subrange(0, i as int)),
        decreases s@.len() - i,
    {
        let d = s[i] - 48;
        proof {
            assert(is_digit(s@[i as int]));
            assert(s@.subrange(0, i + 1) =~= s@.subrange(0, i as int).push(s@[i as int]));
            lemma_digits_value_push(s@.subrange(0, i as int), s@[i as int]);
        }
        let next = match acc.checked_mul(10) {
            Some(m) => m.checked_add(d as u64),
            None => None,
        };
        match next {
            Some(n) => { acc = n; },
            None => {
                proof { lemma_digits_value_prefix(s@, i + 1); }
                return None;
            },
        }
        i = i + 1;
    }
    assert(s@.subrange(0, s@.len() as int) =~= s@);
    Some(acc)
}

/// The shortest decimal text of `n`.
pub fn decimal_bytes(n: u64) -> (text: Vec<u8>)
    ensures
        text@ == decimal_text(n as nat),
    decreases n,
{
    if n < 10 {
        let mut v: Vec<u8> = Vec::new();
        v.push((48 + n) as u8);
        assert(v@ =~= decimal_text(n as nat));
        v
    } else {
        let mut v = decimal_bytes(n / 10);
        v.push((48 + n % 10) as u8);
        v
    }
}

/// Two lowercase hexadecimal digits per byte of `bytes`.
pub fn hex_lower(bytes: &[u8]) -> (text: Vec<u8>)
    ensures
        text@ == hex_text(bytes@),
{
    let mut out: Vec<u8> = Vec::new();
    let mut i: usize = 0;
    while i < bytes.len()
        invariant
            i <= bytes@.len(),
            out@ == hex_text(bytes@.subrange(0, i as int)),
        decreases bytes@.len() - i,
    {
        let b = bytes[i];
        let high = b / 16;
        let low = b % 16;
        let hd = if high < 10 { 48 + high } else { 87 + high };
        let ld = if low < 10 { 48 + low } else { 87 + low };
        out.push(hd);
        out.push(ld);
        proof {
            let pre = bytes@.subrange(0, i + 1);
            assert(pre.drop_last() =~= bytes@.subrange(0, i as int));
            assert(pre.last() == b);
            assert(out@ =~= hex_text(pre));
        }
        i = i + 1;
    }
    assert(bytes@.subrange(0, bytes@.len() as int) =~= bytes@);
    out
}


/// The UTF-16 code units of one character.
pub open spec fn utf16_units(c: char) -> Seq<u16> {
    let v = c as u32;
    if v < 0x10000 {
        seq![v as u16]
    } else {
        let u = (v - 0x10000) as u32;
        seq![(0xD800 + u / 0x400) as u16, (0xDC00 + u % 0x400) as u16]
    }
}

/// The UTF-16 encoding of a character sequence.
pub open spec fn utf16_text(s: Seq<char>) -> Seq<u16>
    decreases s.len(),
{
    if s.len() == 0 {
        Seq::empty()
    } else {
        utf16_text(s.drop_last()) + utf16_units(s.last())
    }
}

/// The UTF-16 encoding of `value` followed by a terminating zero unit, the
/// form wide-character system calls take.
pub fn wide(value: &str) -> (units: Vec<u16>)
    ensures
        units@ == utf16_text(value@).push(0u16),
{
    let n = value.unicode_len();
    let mut out: Vec<u16> = Vec::new();
    let mut i: usize = 0;
    while i < n
        invariant
            n == value@.len(),
            i <= n,
            out@ == utf16_text(value@.subrange(0, i as int)),
        decreases n - i,
    {
        let c = value.get_char(i);
        let v = c as u32;
        proof { vstd::utf8::char_is_scalar(c); }
        if v < 0x10000 {
            out.push(v as u16);
        } else {
            let u = v - 0x10000;
            assert(u < 0x100000);
            out.push((0xD800 + u / 0x400) as u16);
            out.push((0xDC00 + u % 0x400) as u16);
        }
        proof {
            let pre = value@.subrange(0, i + 1);
            assert(pre.drop_last() =~= value@.subrange(0, i as int));
            assert(pre.last() == c);
            assert(out@ =~= utf16_text(pre));
        }
        i = i + 1;
    }
    assert(value@.subrange(0, n as int) =~= value@);
    out.push(0u16);
    out
}


/// The decimal digits of `n`, as characters.
pub open spec fn decimal_chars(n: nat) -> Seq<char>
    decreases n,
{
    if n < 10 {
        seq![(48 + n) as char]
    } else {
        decimal_chars(n / 10).push((48 + n % 10) as char)
    }
}

fn digit_str(d: u64) -> (s: &'static str)
    requires
        d < 10,
    ensures
        s@ == seq![(48 + d) as char],
{
    proof {
        reveal_strlit("0");
        reveal_strlit("1");
        reveal_strlit("2");
        reveal_strlit("3");
        reveal_strlit("4");
        reveal_strlit("5");
        reveal_strlit("6");
        reveal_strlit("7");
        reveal_strlit("8");
        reveal_strlit("9");
    }
    if d == 0 {
        "0"
    } else if d == 1 {
        "1"
    } else if d == 2 {
        "2"
    } else if d == 3 {
        "3"
    } else if d == 4 {
        "4"
    } else if d == 5 {
        "5"
    } else if d == 6 {
        "6"
    } else if d == 7 {
        "7"
    } else if d == 8 {
        "8"
    } else {
        "9"
    }
}

/// The decimal text of `n` as a string.
pub fn decimal_string(n: u64) -> (text: String)
    ensures
        text@ == decimal_chars(n as nat),
    decreases n,
{
    if n < 10 {
        String::from_str(digit_str(n))
    } else {
        let mut text = decimal_string(n / 10);
        text.append(digit_str(n % 10));
        text
    }
}

/// The decimal digits of `n` as characters are the ASCII decimal digits of `n`.
pub proof fn lemma_decimal_chars_text(n: nat)
    ensures
        utf8(decimal_chars(n)) == decimal_text(n),
    decreases n,
{
    lemma_decimal_chars_digits(n);
    vstd::utf8::is_ascii_chars_encode_utf8(decimal_chars(n));
    assert(utf8(decimal_chars(n)) =~= decimal_text(n));
}

proof fn lemma_decimal_chars_digits(n: nat)
    ensures
        decimal_chars(n).len() == decimal_text(n).len(),
        vstd::utf8::is_ascii_chars(decimal_chars(n)),
        forall|i: int| 0 <= i < decimal_text(n).len() ==> #[trigger] decimal_chars(n)[i] as u8 == decimal_text(n)[i],
    decreases n,
{
    if n < 10 {
        let c = (48 + n) as char;
        assert(c as u32 == 48 + n) by {
            vstd::utf8::char_u32_cast(c, (48 + n) as u32);
        }
        assert(decimal_chars(n)[0] == c);
    } else {
        lemma_decimal_chars_digits(n / 10);
        let c = (48 + n % 10) as char;
        assert(c as u32 == 48 + n % 10) by {
            vstd::utf8::char_u32_cast(c, (48 + n % 10) as u32);
        }
        let head = decimal_chars(n / 10);
        assert(decimal_chars(n) == head.push(c));
        assert forall|i: int| 0 <= i < decimal_chars(n).len() implies '\0' <= #[trigger] decimal_chars(n)[i] <= '\u{7f}' by {
            if i < head.len() {
                assert(decimal_chars(n)[i] == head[i]);
            }
        }
        assert forall|i: int| 0 <= i < decimal_text(n).len() implies #[trigger] decimal_chars(n)[i] as u8 == decimal_text(n)[i] by {
            if i < head.len() {
                assert(decimal_chars(n)[i] == head[i]);
                assert(decimal_text(n)[i] == decimal_text(n / 10)[i]);
            }
        }
    }
}

/// The UTF-8 encoding of two ASCII texts one after the other is their
/// encodings one after the other.
pub proof fn lemma_utf8_ascii_concat(a: Seq<char>, b: Seq<char>)
    requires
        vstd::utf8::is_ascii_chars(a),
        vstd::utf8::is_ascii_chars(b),
    ensures
        utf8(a + b) == utf8(a) + utf8(b),
        utf8(a + b).len() == a.len() + b.len(),
{
    let ab = a + b;
    assert(vstd::utf8::is_ascii_chars(ab)) by {
        assert forall|i: int| 0 <= i < ab.len() implies '\0' <= #[trigger] ab[i] <= '\u{7f}' by {
            if i < a.len() {
                assert(ab[i] == a[i]);
            } else {
                assert(ab[i] == b[i - a.len()]);
            }
        }
    }
    vstd::utf8::is_ascii_chars_encode_utf8(a);
    vstd::utf8::is_ascii_chars_encode_utf8(b);
    vstd::utf8::is_ascii_chars_encode_utf8(ab);
    assert forall|i: int| 0 <= i < ab.len() implies utf8(ab)[i] == (utf8(a) + utf8(b))[i] by {
        if i < a.len() {
            assert(ab[i] == a[i]);
            assert(utf8(ab)[i] == ab[i] as u8);
            assert(utf8(a)[i] == a[i] as u8);
        } else {
            assert(ab[i] == b[i - a.len()]);
            assert(utf8(ab)[i] == ab[i] as u8);
            assert(utf8(b)[i - a.len()] == b[i - a.len()] as u8);
        }
    }
    assert(utf8(ab) =~= utf8(a) + utf8(b));
}

} // verus!
