//! The persisted session record: a flat, comma-delimited byte record with
//! decimal number fields. Writing and reading are exact inverses of one
//! another, and a malformed record is rejected as a whole, never
//! zero-filled.

use vstd::prelude::*;
use crate::errors::ParseError;

verus! {

/// The byte that separates the fields of a record.
pub const FIELD_SEP: u8 = 44;

/// Whether `b` is an ASCII decimal digit.
pub open spec fn is_digit(b: u8) -> bool {
    48 <= b <= 57
}

/// Whether every byte of `s` is an ASCII decimal digit.
pub open spec fn all_digits(s: Seq<u8>) -> bool {
    forall|i: int| 0 <= i < s.len() ==> is_digit(s[i])
}

/// The canonical decimal rendering of `n`: no sign, no leading zero except
/// on zero itself.
pub open spec fn spec_digits(n: int) -> Seq<u8>
    decreases n,
{
    if n < 10 {
        seq![(48 + n) as u8]
    } else {
        spec_digits(n / 10).push((48 + n % 10) as u8)
    }
}

/// The numeric value of a digit string, most significant digit first.
pub open spec fn digits_val(s: Seq<u8>) -> int
    decreases s.len(),
{
    if s.len() == 0 {
        0
    } else {
        digits_val(s.drop_last()) * 10 + (s.last() - 48)
    }
}

/// The value of a digit string is never negative.
proof fn lemma_digits_val_nonneg(s: Seq<u8>)
    requires
        all_digits(s),
    ensures
        digits_val(s) >= 0,
    decreases s.len(),
{
    if s.len() > 0 {
        assert(all_digits(s.drop_last()));
        lemma_digits_val_nonneg(s.drop_last());
        vstd::arithmetic::mul::lemma_mul_nonnegative(digits_val(s.drop_last()), 10);
    }
}

/// Extending a digit string can only raise its value: a prefix never has a
/// larger value than the whole.
proof fn lemma_digits_val_prefix_le(s: Seq<u8>, i: int)
    requires
        all_digits(s),
        0 <= i <= s.len(),
    ensures
        digits_val(s.subrange(0, i)) <= digits_val(s),
    decreases s.len() - i,
{
    if i < s.len() {
        let t = s.subrange(0, i + 1);
        lemma_digits_val_prefix_le(s, i + 1);
        assert(t.drop_last() =~= s.subrange(0, i));
        assert(all_digits(t));
        lemma_digits_val_nonneg(t.drop_last());
        assert(digits_val(t) == digits_val(t.drop_last()) * 10 + (t.last() - 48));
        assert(digits_val(t.drop_last()) * 10 >= digits_val(t.drop_last())) by (nonlinear_arith)
            requires
                digits_val(t.drop_last()) >= 0,
        {}
    } else {
        assert(s.subrange(0, i) =~= s);
    }
}

/// Rendering a number and reading it back returns the number: the
/// canonical rendering is nonempty, all digits, and carries the value it
/// was made from.
pub proof fn lemma_digits_roundtrip(n: int)
    requires
        n >= 0,
    ensures
        spec_digits(n).len() >= 1,
        all_digits(spec_digits(n)),
        digits_val(spec_digits(n)) == n,
    decreases n,
{
    if n < 10 {
        let s = spec_digits(n);
        assert(s.drop_last() =~= Seq::<u8>::empty());
        assert(s.last() == (48 + n) as u8);
        assert(digits_val(s.drop_last()) == 0);
        assert(digits_val(s) == 0 * 10 + (s.last() - 48));
        assert(digits_val(s) == n);
    } else {
        lemma_digits_roundtrip(n / 10);
        vstd::arithmetic::div_mod::lemma_fundamental_div_mod(n, 10);
        vstd::arithmetic::div_mod::lemma_mod_bound(n, 10);
        let s = spec_digits(n);
        assert(s == spec_digits(n / 10).push((48 + n % 10) as u8));
        assert(s.drop_last() =~= spec_digits(n / 10));
        assert(s.last() == (48 + n % 10) as u8);
        assert(digits_val(s) == digits_val(s.drop_last()) * 10 + (s.last() - 48));
        assert(digits_val(s.drop_last()) == n / 10);
        assert((s.last() - 48) == n % 10);
        assert(digits_val(s) == (n / 10) * 10 + n % 10);
    }
}

/// Renders `n` as its canonical decimal digit string.
pub fn u64_to_dec(n: u64) -> (out: Vec<u8>)
    ensures
        out@ == spec_digits(n as int),
{
    let mut out: Vec<u8> = Vec::new();
    let mut m: u64 = n;
    proof {
        assert(spec_digits(n as int) =~= spec_digits(m as int) + out@);
    }
    while m >= 10
        invariant
            spec_digits(n as int) =~= spec_digits(m as int) + out@,
        decreases m,
    {
        let d = (48 + (m % 10) as u8) as u8;
        let ghost prev = out@;
        let ghost mprev = m as int;
        out.insert(0, d);
        proof {
            assert(out@ =~= seq![d] + prev);
            assert(spec_digits(mprev) == spec_digits(mprev / 10).push(d));
            assert(spec_digits(mprev) =~= spec_digits(mprev / 10) + seq![d]);
            assert(spec_digits(mprev) + prev =~= spec_digits(mprev / 10) + out@);
        }
        m = m / 10;
    }
    let d = (48 + m as u8) as u8;
    let ghost prev = out@;
    out.insert(0, d);
    proof {
        assert(out@ =~= seq![d] + prev);
        assert(spec_digits(m as int) =~= seq![d]);
        assert(spec_digits(n as int) =~= out@);
    }
    out
}

/// Reads a decimal digit string as a `u64`: rejects an empty string, any
/// non-digit byte, and any value that overflows.
pub fn parse_u64(s: &Vec<u8>) -> (r: Result<u64, ParseError>)
    ensures
        match r {
            Ok(n) => {
                &&& s@.len() > 0
                &&& all_digits(s@)
                &&& digits_val(s@) == n
            },
            Err(e) => {
                &&& e == ParseError::InvalidNumber
                &&& !(s@.len() > 0 && all_digits(s@) && digits_val(s@) <= u64::MAX)
            },
        },
{
    if s.len() == 0 {
        return Err(ParseError::InvalidNumber);
    }
    let mut acc: u64 = 0;
    let mut i: usize = 0;
    while i < s.len()
        invariant
            0 <= i <= s@.len(),
            s@.len() > 0,
            all_digits(s@.subrange(0, i as int)),
            acc == digits_val(s@.subrange(0, i as int)),
        decreases s@.len() - i,
    {
        let b = s[i];
        let ghost pre = s@.subrange(0, i as int);
        if b < 48 || b > 57 {
            assert(!is_digit(s@[i as int]));
            return Err(ParseError::InvalidNumber);
        }
        let d = (b - 48) as u64;
        if acc > (u64::MAX - d) / 10 {
            proof {
                let post = s@.subrange(0, i + 1);
                assert(post.drop_last() =~= pre);
                assert(post.last() == b);
                assert(digits_val(post) == acc * 10 + d);
                vstd::arithmetic::div_mod::lemma_fundamental_div_mod(
                    (u64::MAX - d) as int, 10);
                vstd::arithmetic::div_mod::lemma_mod_bound((u64::MAX - d) as int, 10);
                assert(acc * 10 + d > u64::MAX) by (nonlinear_arith)
                    requires
                        acc > (u64::MAX - d) / 10,
                        (u64::MAX - d) as int == 10 * (((u64::MAX - d) as int) / 10)
                            + ((u64::MAX - d) as int) % 10,
                        0 <= ((u64::MAX - d) as int) % 10 < 10,
                        0 <= d < 10,
                {}
                if all_digits(s@) {
                    lemma_digits_val_prefix_le(s@, i + 1);
                }
            }
            return Err(ParseError::InvalidNumber);
        }
        proof {
            vstd::arithmetic::div_mod::lemma_fundamental_div_mod(
                (u64::MAX - d) as int, 10);
            vstd::arithmetic::div_mod::lemma_mod_bound((u64::MAX - d) as int, 10);
            assert(acc * 10 + d <= u64::MAX) by (nonlinear_arith)
                requires
                    acc <= (u64::MAX - d) / 10,
                    (u64::MAX - d) as int == 10 * (((u64::MAX - d) as int) / 10)
                        + ((u64::MAX - d) as int) % 10,
                    0 <= ((u64::MAX - d) as int) % 10 < 10,
                    0 <= d < 10,
            {}
            let post = s@.subrange(0, i + 1);
            assert(post.drop_last() =~= pre);
            assert(post.last() == b);
        }
        acc = acc * 10 + d;
        i = i + 1;
    }
    proof {
        assert(s@.subrange(0, s@.len() as int) =~= s@);
    }
    Ok(acc)
}

/// Whether `s` holds no field separator.
pub open spec fn has_no_sep(s: Seq<u8>) -> bool {
    forall|i: int| 0 <= i < s.len() ==> s[i] != FIELD_SEP
}

/// The position of the first field separator at or after `from`, or the
/// length of `s` if there is none.
pub open spec fn find_sep(s: Seq<u8>, from: int) -> int
    decreases s.len() - from,
    when 0 <= from <= s.len()
{
    if from >= s.len() {
        s.len() as int
    } else if s[from] == FIELD_SEP {
        from
    } else {
        find_sep(s, from + 1)
    }
}

/// Splits the first field off the front of `s`: the bytes before the first
/// separator, and the bytes after it. `None` when `s` holds no separator.
pub open spec fn take_field(s: Seq<u8>) -> Option<(Seq<u8>, Seq<u8>)> {
    let c = find_sep(s, 0);
    if c == s.len() {
        None
    } else {
        Some((s.subrange(0, c), s.subrange(c + 1, s.len() as int)))
    }
}

/// A string without separators has no separator to find.
proof fn lemma_find_sep_none(s: Seq<u8>, from: int)
    requires
        0 <= from <= s.len(),
        forall|j: int| from <= j < s.len() ==> s[j] != FIELD_SEP,
    ensures
        find_sep(s, from) == s.len(),
    decreases s.len() - from,
{
    if from < s.len() {
        lemma_find_sep_none(s, from + 1);
    }
}

/// The first separator of a string that starts separator-free up to
/// position `k`, where a separator stands, is at `k`.
proof fn lemma_find_sep_at(s: Seq<u8>, from: int, k: int)
    requires
        0 <= from <= k < s.len(),
        s[k] == FIELD_SEP,
        forall|j: int| from <= j < k ==> s[j] != FIELD_SEP,
    ensures
        find_sep(s, from) == k,
    decreases k - from,
{
    if from < k {
        lemma_find_sep_at(s, from + 1, k);
    }
}

/// Taking a field off `a + separator + rest` returns exactly `a` and
/// `rest`, provided `a` holds no separator of its own.
proof fn lemma_take_field_concat(a: Seq<u8>, rest: Seq<u8>)
    requires
        has_no_sep(a),
    ensures
        take_field(a + seq![FIELD_SEP] + rest) == Some((a, rest)),
{
    let s = a + seq![FIELD_SEP] + rest;
    assert(s[a.len() as int] == FIELD_SEP);
    assert(forall|j: int| 0 <= j < a.len() ==> s[j] == a[j]);
    lemma_find_sep_at(s, 0, a.len() as int);
    assert(s.subrange(0, a.len() as int) =~= a);
    assert(s.subrange(a.len() as int + 1, s.len() as int) =~= rest);
}

/// Everything strictly before the first separator is separator-free.
pub proof fn lemma_find_sep_prefix_free(s: Seq<u8>, from: int)
    requires
        0 <= from <= s.len(),
    ensures
        forall|j: int| from <= j < find_sep(s, from) ==> s[j] != FIELD_SEP,
        from <= find_sep(s, from) <= s.len(),
    decreases s.len() - from,
{
    if from < s.len() && s[from] != FIELD_SEP {
        lemma_find_sep_prefix_free(s, from + 1);
    }
}

/// The first field that `take_field` splits off holds no separator.
pub proof fn lemma_take_field_first_free(s: Seq<u8>)
    ensures
        take_field(s) matches Some(p) ==> has_no_sep(p.0),
{
    lemma_find_sep_prefix_free(s, 0);
}

/// Splits a record into its five fields; `None` unless there are exactly
/// four separators.
pub open spec fn spec_split5(s: Seq<u8>) -> Option<(Seq<u8>, Seq<u8>, Seq<u8>, Seq<u8>, Seq<u8>)> {
    match take_field(s) {
        None => None,
        Some((f1, r1)) => match take_field(r1) {
            None => None,
            Some((f2, r2)) => match take_field(r2) {
                None => None,
                Some((f3, r3)) => match take_field(r3) {
                    None => None,
                    Some((f4, f5)) => if find_sep(f5, 0) == f5.len() {
                        Some((f1, f2, f3, f4, f5))
                    } else {
                        None
                    },
                },
            },
        },
    }
}

/// Whether a field is a readable `u64`: nonempty, all digits, in range.
pub open spec fn field_num_ok(f: Seq<u8>) -> bool {
    f.len() > 0 && all_digits(f) && digits_val(f) <= u64::MAX
}

/// The serialized session record: the player name and four decimal number
/// fields, separated by commas.
pub open spec fn spec_record(name: Seq<u8>, money: int, entropy: int, level: int, length: int) -> Seq<u8> {
    name + seq![FIELD_SEP] + spec_digits(money) + seq![FIELD_SEP] + spec_digits(entropy)
        + seq![FIELD_SEP] + spec_digits(level) + seq![FIELD_SEP] + spec_digits(length)
}

/// What a record means: its name field and the values of its four number
/// fields; `None` when the shape or a number field is bad.
pub open spec fn spec_parse_record(s: Seq<u8>) -> Option<(Seq<u8>, int, int, int, int)> {
    match spec_split5(s) {
        None => None,
        Some((f1, f2, f3, f4, f5)) => if field_num_ok(f2) && field_num_ok(f3)
            && field_num_ok(f4) && field_num_ok(f5) {
            Some((f1, digits_val(f2), digits_val(f3), digits_val(f4), digits_val(f5)))
        } else {
            None
        },
    }
}

/// A digit string holds no field separator.
proof fn lemma_digits_no_sep(f: Seq<u8>)
    requires
        all_digits(f),
    ensures
        has_no_sep(f),
{
}

/// Reading back a written record recovers exactly the fields it was
/// written from: serialization and deserialization are inverses for every
/// session whose player name holds no comma.
pub proof fn lemma_record_roundtrip(name: Seq<u8>, money: int, entropy: int, level: int, length: int)
    requires
        has_no_sep(name),
        0 <= money <= u64::MAX,
        0 <= entropy <= u64::MAX,
        0 <= level <= u64::MAX,
        0 <= length <= u64::MAX,
    ensures
        spec_parse_record(spec_record(name, money, entropy, level, length))
            == Some((name, money, entropy, level, length)),
{
    let d1 = spec_digits(money);
    let d2 = spec_digits(entropy);
    let d3 = spec_digits(level);
    let d4 = spec_digits(length);
    lemma_digits_roundtrip(money);
    lemma_digits_roundtrip(entropy);
    lemma_digits_roundtrip(level);
    lemma_digits_roundtrip(length);
    lemma_digits_no_sep(d1);
    lemma_digits_no_sep(d2);
    lemma_digits_no_sep(d3);
    lemma_digits_no_sep(d4);
    let s = spec_record(name, money, entropy, level, length);
    let r1 = d1 + seq![FIELD_SEP] + d2 + seq![FIELD_SEP] + d3 + seq![FIELD_SEP] + d4;
    let r2 = d2 + seq![FIELD_SEP] + d3 + seq![FIELD_SEP] + d4;
    let r3 = d3 + seq![FIELD_SEP] + d4;
    assert(s =~= name + seq![FIELD_SEP] + r1);
    lemma_take_field_concat(name, r1);
    assert(take_field(s) == Some((name, r1)));
    assert(r1 =~= d1 + seq![FIELD_SEP] + r2);
    lemma_take_field_concat(d1, r2);
    assert(r2 =~= d2 + seq![FIELD_SEP] + r3);
    lemma_take_field_concat(d2, r3);
    lemma_take_field_concat(d3, d4);
    lemma_find_sep_none(d4, 0);
}

/// The position of the first separator at or after `from`, scanning
/// forward.
pub fn find_sep_from(data: &Vec<u8>, from: usize) -> (idx: usize)
    requires
        from <= data@.len(),
    ensures
        idx == find_sep(data@, from as int),
        from <= idx <= data@.len(),
{
    let mut i: usize = from;
    while i < data.len()
        invariant
            from <= i <= data@.len(),
            find_sep(data@, from as int) == find_sep(data@, i as int),
        decreases data@.len() - i,
    {
        if data[i] == FIELD_SEP {
            return i;
        }
        i = i + 1;
    }
    i
}

/// Copies the bytes of `data` between `a` and `b`.
pub fn sub_vec(data: &Vec<u8>, a: usize, b: usize) -> (out: Vec<u8>)
    requires
        a <= b <= data@.len(),
    ensures
        out@ == data@.subrange(a as int, b as int),
{
    let mut out: Vec<u8> = Vec::new();
    let mut i: usize = a;
    while i < b
        invariant
            a <= i <= b <= data@.len(),
            out@ =~= data@.subrange(a as int, i as int),
        decreases b - i,
    {
        let x = data[i];
        out.push(x);
        proof {
            assert(out@ =~= data@.subrange(a as int, i + 1));
        }
        i = i + 1;
    }
    proof {
        assert(out@ =~= data@.subrange(a as int, b as int));
    }
    out
}

/// Writes the session record for the given fields: the name and the four
/// numbers in decimal, comma-separated.
pub fn record_bytes(name: &Vec<u8>, money: u64, entropy: u64, level: u64, length: u64) -> (out: Vec<u8>)
    ensures
        out@ == spec_record(name@, money as int, entropy as int, level as int, length as int),
{
    let mut out: Vec<u8> = Vec::new();
    out.extend_from_slice(name.as_slice());
    out.push(FIELD_SEP);
    let d1 = u64_to_dec(money);
    out.extend_from_slice(d1.as_slice());
    out.push(FIELD_SEP);
    let d2 = u64_to_dec(entropy);
    out.extend_from_slice(d2.as_slice());
    out.push(FIELD_SEP);
    let d3 = u64_to_dec(level);
    out.extend_from_slice(d3.as_slice());
    out.push(FIELD_SEP);
    let d4 = u64_to_dec(length);
    out.extend_from_slice(d4.as_slice());
    proof {
        assert(out@ =~= spec_record(
            name@, money as int, entropy as int, level as int, length as int));
    }
    out
}

/// Reads a session record back into its five fields. Fails with
/// `MissingField` when there are not exactly four separators, and with
/// `InvalidNumber` when a number field is empty, non-decimal or too
/// large.
pub fn parse_record(data: &Vec<u8>) -> (r: Result<(Vec<u8>, u64, u64, u64, u64), ParseError>)
    ensures
        match r {
            Ok((name, money, entropy, level, length)) => spec_parse_record(data@)
                == Some((name@, money as int, entropy as int, level as int, length as int)),
            Err(e) => {
                &&& spec_parse_record(data@) is None
                &&& (e == ParseError::MissingField <==> spec_split5(data@) is None)
                &&& (e == ParseError::InvalidNumber <==> spec_split5(data@) is Some)
            },
        },
{
    let c1 = find_sep_from(data, 0);
    if c1 == data.len() {
        return Err(ParseError::MissingField);
    }
    let name = sub_vec(data, 0, c1);
    let rest1 = sub_vec(data, c1 + 1, data.len());
    let c2 = find_sep_from(&rest1, 0);
    if c2 == rest1.len() {
        return Err(ParseError::MissingField);
    }
    let f2 = sub_vec(&rest1, 0, c2);
    let rest2 = sub_vec(&rest1, c2 + 1, rest1.len());
    let c3 = find_sep_from(&rest2, 0);
    if c3 == rest2.len() {
        return Err(ParseError::MissingField);
    }
    let f3 = sub_vec(&rest2, 0, c3);
    let rest3 = sub_vec(&rest2, c3 + 1, rest2.len());
    let c4 = find_sep_from(&rest3, 0);
    if c4 == rest3.len() {
        return Err(ParseError::MissingField);
    }
    let f4 = sub_vec(&rest3, 0, c4);
    let f5 = sub_vec(&rest3, c4 + 1, rest3.len());
    let c5 = find_sep_from(&f5, 0);
    if c5 != f5.len() {
        return Err(ParseError::MissingField);
    }
    let money = match parse_u64(&f2) {
        Ok(v) => v,
        Err(_) => {
            return Err(ParseError::InvalidNumber);
        },
    };
    let entropy = match parse_u64(&f3) {
        Ok(v) => v,
        Err(_) => {
            return Err(ParseError::InvalidNumber);
        },
    };
    let level = match parse_u64(&f4) {
        Ok(v) => v,
        Err(_) => {
            return Err(ParseError::InvalidNumber);
        },
    };
    let length = match parse_u64(&f5) {
        Ok(v) => v,
        Err(_) => {
            return Err(ParseError::InvalidNumber);
        },
    };
    Ok((name, money, entropy, level, length))
}

} // verus!
