//! Decimal rendering and parsing of integers.
//!
//! Identity subjects travel inside credentials as decimal strings, and
//! human-facing artifacts (flight numbers, operator messages) embed decimal
//! ids.  This module defines the canonical decimal form of an integer as a
//! specification, produces it in executable code, and parses it back,
//! proving that the two directions are mutually inverse.

use vstd::prelude::*;

verus! {

/// The canonical decimal digit sequence of a non-negative integer:
/// no sign, no leading zeros (`0` itself is the single digit `0`).
pub open spec fn dec_digits(n: nat) -> Seq<char>
    decreases n,
{
    if n < 10 {
        seq![((48 + n) as u8) as char]
    } else {
        dec_digits(n / 10).push(((48 + (n % 10)) as u8) as char)
    }
}

/// The canonical decimal form of an integer, with a leading `-` when negative.
pub open spec fn int_dec(n: int) -> Seq<char> {
    if n < 0 {
        seq!['-'] + dec_digits((-n) as nat)
    } else {
        dec_digits(n as nat)
    }
}

/// Whether `c` is a decimal digit.
pub open spec fn is_digit(c: char) -> bool {
    48 <= c as int <= 57
}

/// The numeric value of a sequence of decimal digits, most significant first.
pub open spec fn dec_val(s: Seq<char>) -> nat
    decreases s.len(),
{
    if s.len() == 0 {
        0
    } else {
        dec_val(s.drop_last()) * 10 + (s.last() as int - 48) as nat
    }
}

/// A digit sequence is canonical when it is non-empty, all digits, and free
/// of leading zeros.
pub open spec fn is_canonical_digits(s: Seq<char>) -> bool {
    &&& s.len() >= 1
    &&& forall|i: int| 0 <= i < s.len() ==> is_digit(#[trigger] s[i])
    &&& (s[0] == '0' ==> s.len() == 1)
}

/// `dec_digits(n)` is canonical, and starts with `0` only for `n == 0`.
pub proof fn lemma_dec_digits_canonical(n: nat)
    ensures
        is_canonical_digits(dec_digits(n)),
        n > 0 ==> dec_digits(n)[0] != '0',
    decreases n,
{
    if n < 10 {
        assert(dec_digits(n) =~= seq![((48 + n) as u8) as char]);
    } else {
        lemma_dec_digits_canonical(n / 10);
        let pre = dec_digits(n / 10);
        let s = dec_digits(n);
        assert(s =~= pre.push(((48 + (n % 10)) as u8) as char));
        assert(s[0] == pre[0]);
        assert(forall|i: int| 0 <= i < pre.len() ==> is_digit(#[trigger] s[i]));
        assert(is_digit(s[s.len() - 1]));
    }
}

/// Rendering and then evaluating a number gives the number back.
pub proof fn lemma_dec_val_of_digits(n: nat)
    ensures
        dec_val(dec_digits(n)) == n,
    decreases n,
{
    if n < 10 {
        let s = dec_digits(n);
        assert(s.drop_last() =~= Seq::<char>::empty());
        assert(dec_val(Seq::<char>::empty()) == 0);
        assert(s.last() as int == 48 + n);
    } else {
        lemma_dec_val_of_digits(n / 10);
        let s = dec_digits(n);
        assert(s.drop_last() =~= dec_digits(n / 10));
        assert(s.last() as int == 48 + n % 10);
        assert(dec_val(s) == (n / 10) * 10 + n % 10);
    }
}

/// Numbers below `10^k` render in at most `k` digits.
pub proof fn lemma_dec_digits_len(n: nat, k: nat)
    requires
        k >= 1,
        n < pow10(k),
    ensures
        dec_digits(n).len() <= k,
    decreases n,
{
    if n < 10 {
    } else {
        assert(pow10(k) == 10 * pow10((k - 1) as nat));
        assert(k >= 2) by {
            if k == 1 {
                assert(pow10(1nat) == 10);
            }
        }
        assert(n / 10 < pow10((k - 1) as nat)) by (nonlinear_arith)
            requires n < 10 * pow10((k - 1) as nat),
        ;
        lemma_dec_digits_len(n / 10, (k - 1) as nat);
    }
}

/// A canonical digit sequence is the rendering of its own value.
pub proof fn lemma_digits_of_dec_val(s: Seq<char>)
    requires
        is_canonical_digits(s),
    ensures
        dec_digits(dec_val(s)) == s,
        s[0] != '0' ==> dec_val(s) > 0,
    decreases s.len(),
{
    if s.len() == 1 {
        let d = (s[0] as int - 48) as nat;
        assert(dec_val(s) == d) by {
            assert(s.drop_last() =~= Seq::<char>::empty());
            assert(dec_val(Seq::<char>::empty()) == 0);
        }
        assert(dec_digits(d) =~= seq![((48 + d) as u8) as char]);
        assert(dec_digits(d) =~= s);
    } else {
        let pre = s.drop_last();
        assert(pre[0] == s[0]);
        assert(forall|i: int| 0 <= i < pre.len() ==> is_digit(#[trigger] pre[i]));
        assert(is_canonical_digits(pre));
        lemma_digits_of_dec_val(pre);
        let v = dec_val(pre);
        let d = (s.last() as int - 48) as nat;
        assert(dec_val(s) == v * 10 + d);
        assert(s[0] != '0');
        assert(v > 0);
        assert(v * 10 + d >= 10) by (nonlinear_arith)
            requires v >= 1, d >= 0,
        ;
        assert((v * 10 + d) / 10 == v && (v * 10 + d) % 10 == d) by (nonlinear_arith)
            requires v >= 0, 0 <= d < 10,
        ;
        assert(dec_digits(v * 10 + d) =~= dec_digits(v).push(((48 + d) as u8) as char));
        assert(((48 + d) as u8) as char == s.last()) by {
            assert(48 + (s.last() as int - 48) == s.last() as int);
        }
        assert(dec_digits(dec_val(s)) =~= pre.push(s.last()));
        assert(pre.push(s.last()) =~= s);
    }
}

/// Canonical decimal forms of distinct integers differ.
pub proof fn lemma_int_dec_injective(a: int, b: int)
    requires
        int_dec(a) == int_dec(b),
    ensures
        a == b,
{
    lemma_dec_digits_canonical(if a < 0 { (-a) as nat } else { a as nat });
    lemma_dec_digits_canonical(if b < 0 { (-b) as nat } else { b as nat });
    if a < 0 && b < 0 {
        assert(int_dec(a).skip(1) =~= dec_digits((-a) as nat));
        assert(int_dec(b).skip(1) =~= dec_digits((-b) as nat));
        lemma_dec_val_of_digits((-a) as nat);
        lemma_dec_val_of_digits((-b) as nat);
    } else if a >= 0 && b >= 0 {
        lemma_dec_val_of_digits(a as nat);
        lemma_dec_val_of_digits(b as nat);
    } else if a < 0 && b >= 0 {
        assert(int_dec(a)[0] == '-');
        assert(is_digit(int_dec(b)[0]));
        assert(false);
    } else {
        assert(int_dec(b)[0] == '-');
        assert(is_digit(int_dec(a)[0]));
        assert(false);
    }
}

/// The integer whose canonical decimal form is `s`, if there is one.
pub open spec fn spec_parse_i32(s: Seq<char>) -> Option<i32> {
    if exists|k: i32| s == int_dec(k as int) {
        Some(choose|k: i32| s == int_dec(k as int))
    } else {
        None
    }
}

/// The decimal digit character of `d` (for `0 <= d <= 9`).
pub open spec fn dchar(d: int) -> char {
    ((48 + d) as u8) as char
}

/// The two-digit zero-padded decimal form of `m` (for `0 <= m < 100`).
pub open spec fn pad2(m: int) -> Seq<char> {
    seq![dchar(m / 10), dchar(m % 10)]
}

/// The six-digit zero-padded decimal form of `m` (for `0 <= m < 1000000`).
pub open spec fn pad6(m: int) -> Seq<char> {
    seq![
        dchar(m / 100000),
        dchar((m / 10000) % 10),
        dchar((m / 1000) % 10),
        dchar((m / 100) % 10),
        dchar((m / 10) % 10),
        dchar(m % 10),
    ]
}

/// An amount of cents rendered as a decimal with two fractional digits.
pub open spec fn money_seq(cents: nat) -> Seq<char> {
    dec_digits(cents / 100) + seq!['.'] + pad2((cents % 100) as int)
}

/// Millionths of a unit rendered as a signed decimal with six fractional
/// digits.
pub open spec fn micro_seq(v: int) -> Seq<char> {
    if v < 0 {
        seq!['-'] + micro_mag((-v) as nat)
    } else {
        micro_mag(v as nat)
    }
}

/// The unsigned part of [`micro_seq`].
pub open spec fn micro_mag(v: nat) -> Seq<char> {
    dec_digits(v / 1000000) + seq!['.'] + pad6((v % 1000000) as int)
}

/// Renders `n` in decimal.
pub fn u64_to_dec(n: u64) -> (s: String)
    ensures
        s@ == dec_digits(n as nat),
    decreases n,
{
    let digits = "0123456789";
    proof {
        reveal_strlit("0123456789");
    }
    let d = (n % 10) as usize;
    let tail = digits.substring_ascii(d, d + 1);
    proof {
        assert(tail@ =~= seq![((48 + (n as nat) % 10) as u8) as char]);
    }
    if n < 10 {
        let s = tail.to_owned();
        proof {
            assert(s@ =~= dec_digits(n as nat));
        }
        s
    } else {
        let mut s = u64_to_dec(n / 10);
        s.append(tail);
        proof {
            assert(s@ =~= dec_digits(n as nat));
        }
        s
    }
}

/// Renders `n` in decimal, with a leading `-` when negative.
pub fn i64_to_dec(n: i64) -> (s: String)
    ensures
        s@ == int_dec(n as int),
{
    if n >= 0 {
        u64_to_dec(n as u64)
    } else {
        let magnitude = ((-(n as i128)) as u64);
        let mut s = "-".to_owned();
        let rest = u64_to_dec(magnitude);
        s.append(rest.as_str());
        proof {
            reveal_strlit("-");
            assert(s@ =~= int_dec(n as int));
        }
        s
    }
}

/// Appends one digit character (the digit being `m`) to `s`.
fn push_digit(s: &mut String, m: u64)
    requires
        m < 10,
    ensures
        final(s)@ == old(s)@ + seq![dchar(m as int)],
{
    let digits = "0123456789";
    proof {
        reveal_strlit("0123456789");
    }
    let d = m as usize;
    let part = digits.substring_ascii(d, d + 1);
    proof {
        assert(part@ =~= seq![dchar(m as int)]);
    }
    s.append(part);
}

/// Renders an amount of cents with two fractional digits, as the persisted
/// price column does.
pub fn cents_to_string(cents: u64) -> (s: String)
    ensures
        s@ == money_seq(cents as nat),
{
    let mut s = u64_to_dec(cents / 100);
    proof {
        reveal_strlit(".");
    }
    s.append(".");
    let frac = cents % 100;
    push_digit(&mut s, frac / 10);
    push_digit(&mut s, frac % 10);
    proof {
        assert(s@ =~= money_seq(cents as nat));
    }
    s
}

/// Renders millionths of a unit as a signed decimal with six fractional
/// digits.
pub fn micro_to_string(v: i64) -> (s: String)
    ensures
        s@ == micro_seq(v as int),
{
    proof {
        reveal_strlit("-");
        reveal_strlit(".");
    }
    let mag: u64 = if v >= 0 {
        v as u64
    } else {
        (-(v as i128)) as u64
    };
    let mut s = if v >= 0 {
        "".to_owned()
    } else {
        "-".to_owned()
    };
    proof {
        reveal_strlit("");
    }
    s.append(u64_to_dec(mag / 1000000).as_str());
    s.append(".");
    let frac = mag % 1000000;
    push_digit(&mut s, frac / 100000);
    push_digit(&mut s, (frac / 10000) % 10);
    push_digit(&mut s, (frac / 1000) % 10);
    push_digit(&mut s, (frac / 100) % 10);
    push_digit(&mut s, (frac / 10) % 10);
    push_digit(&mut s, frac % 10);
    proof {
        assert(s@ =~= micro_seq(v as int));
    }
    s
}

/// Builds the operator-safe message `prefix`, then the id in decimal, then
/// `suffix`.
pub fn id_message(prefix: &str, id: i64, suffix: &str) -> (s: String)
    ensures
        s@ == prefix@ + int_dec(id as int) + suffix@,
{
    let mut s = prefix.to_owned();
    let mid = i64_to_dec(id);
    s.append(mid.as_str());
    s.append(suffix);
    proof {
        assert(s@ =~= prefix@ + int_dec(id as int) + suffix@);
    }
    s
}

/// Parses a canonical decimal string as an `i32`.
///
/// Returns `Some(k)` exactly when `s` is `int_dec(k)` for some `i32` `k`:
/// an optional leading `-`, then digits with no leading zero, within range.
pub fn parse_i32_dec(s: &str) -> (r: Option<i32>)
    ensures
        r == spec_parse_i32(s@),
{
    proof {
        reveal_strlit("-");
    }
    let len = s.unicode_len();
    if len == 0 {
        proof {
            lemma_no_parse_not_canonical(s@);
        }
        return None;
    }
    let neg = s.get_char(0) == '-';
    let start: usize = if neg { 1 } else { 0 };
    if len == start {
        proof {
            lemma_no_parse_not_canonical(s@);
        }
        return None;
    }
    if len - start > 10 {
        proof {
            lemma_no_parse_too_long(s@, start as int);
        }
        return None;
    }
    if len - start > 1 && s.get_char(start) == '0' {
        proof {
            if neg {
                assert(s@.skip(1)[0] == s@[1]);
                assert(s@.skip(1).len() > 1);
            }
            lemma_no_parse_not_canonical(s@);
        }
        return None;
    }
    let mut acc: u64 = 0;
    let mut i: usize = start;
    proof {
        assert(s@.subrange(start as int, start as int) =~= Seq::<char>::empty());
        assert(dec_val(Seq::<char>::empty()) == 0);
    }
    while i < len
        invariant
            start <= i <= len,
            len == s@.len(),
            len - start <= 10,
            len > start,
            start == if neg { 1int } else { 0int },
            neg <==> s@[0] == '-',
            len - start > 1 ==> s@[start as int] != '0',
            acc == dec_val(s@.subrange(start as int, i as int)),
            acc < 0x4000000000,
            forall|j: int| start <= j < i ==> is_digit(#[trigger] s@[j]),
        decreases len - i,
    {
        let c = s.get_char(i);
        let v = c as u32;
        if v < 48 || v > 57 {
            proof {
                assert(!is_digit(s@[i as int]));
                if neg {
                    assert(s@.skip(1)[i - 1] == s@[i as int]);
                }
                lemma_no_parse_not_canonical(s@);
            }
            return None;
        }
        proof {
            let sub = s@.subrange(start as int, i + 1);
            assert(sub.drop_last() =~= s@.subrange(start as int, i as int));
            assert(sub.last() == s@[i as int]);
            assert(dec_val(sub) == acc * 10 + (c as int - 48));
            assert(acc * 10 + 57 < 0x40000000000) by (nonlinear_arith)
                requires acc < 0x4000000000,
            ;
            lemma_dec_val_bound(s@.subrange(start as int, i + 1));
        }
        acc = acc * 10 + (v - 48) as u64;
        i = i + 1;
    }
    let ghost digits_part = s@.subrange(start as int, len as int);
    proof {
        assert(digits_part =~= s@.subrange(start as int, i as int));
        assert(digits_part[0] == s@[start as int]);
        assert(is_canonical_digits(digits_part));
        lemma_digits_of_dec_val(digits_part);
        if neg {
            assert(s@.skip(1) =~= digits_part);
        } else {
            assert(s@ =~= digits_part);
        }
    }
    if neg {
        if acc == 0 || acc > 0x80000000 {
            proof {
                lemma_no_parse_neg(s@, acc as nat);
            }
            return None;
        }
        let k = (-(acc as i64)) as i32;
        proof {
            assert(s@ =~= seq!['-'] + digits_part);
            assert(s@ == int_dec(k as int));
            lemma_parse_some(s@, k);
        }
        Some(k)
    } else {
        if acc > 0x7fffffff {
            proof {
                lemma_no_parse_pos(s@, acc as nat);
            }
            return None;
        }
        let k = acc as i32;
        proof {
            assert(s@ =~= digits_part);
            assert(s@ == int_dec(k as int));
            lemma_parse_some(s@, k);
        }
        Some(k)
    }
}

/// The value of at most ten digits fits well under `2^38`.
proof fn lemma_dec_val_bound(s: Seq<char>)
    requires
        s.len() <= 10,
        forall|i: int| 0 <= i < s.len() ==> is_digit(#[trigger] s[i]),
    ensures
        dec_val(s) < 0x4000000000,
    decreases s.len(),
{
    lemma_dec_val_bound_rec(s);
    lemma_pow10_le(s.len() as nat, 10);
    assert(pow10(10) == 10000000000) by { reveal_with_fuel(pow10, 11); }
}

/// `pow10` is monotone.
proof fn lemma_pow10_le(a: nat, b: nat)
    requires
        a <= b,
    ensures
        pow10(a) <= pow10(b),
    decreases b,
{
    if a < b {
        lemma_pow10_le(a, (b - 1) as nat);
        assert(pow10((b - 1) as nat) >= 1) by {
            lemma_pow10_pos((b - 1) as nat);
        }
    }
}

/// `pow10` is positive.
proof fn lemma_pow10_pos(n: nat)
    ensures
        pow10(n) >= 1,
    decreases n,
{
    if n > 0 {
        lemma_pow10_pos((n - 1) as nat);
    }
}

/// `dec_val` of `n` digits is below `10^n`.
proof fn lemma_dec_val_bound_rec(s: Seq<char>)
    requires
        forall|i: int| 0 <= i < s.len() ==> is_digit(#[trigger] s[i]),
    ensures
        dec_val(s) < pow10(s.len() as nat),
    decreases s.len(),
{
    if s.len() == 0 {
    } else {
        let pre = s.drop_last();
        assert(forall|i: int| 0 <= i < pre.len() ==> is_digit(#[trigger] pre[i]));
        lemma_dec_val_bound_rec(pre);
        let p = pow10(pre.len() as nat);
        let v = dec_val(pre);
        let d = (s.last() as int - 48) as nat;
        assert(v * 10 + d < p * 10) by (nonlinear_arith)
            requires v < p, d < 10,
        ;
    }
}

/// Ten to the `n`.
pub open spec fn pow10(n: nat) -> nat
    decreases n,
{
    if n == 0 {
        1
    } else {
        10 * pow10((n - 1) as nat)
    }
}

/// Parsing the canonical decimal form of an `i32` gives the value back.
pub proof fn lemma_parse_roundtrip(k: i32)
    ensures
        spec_parse_i32(int_dec(k as int)) == Some(k),
{
    lemma_parse_some(int_dec(k as int), k);
}

/// When the parser accepted, the parsed value is the one `spec_parse_i32` names.
proof fn lemma_parse_some(s: Seq<char>, k: i32)
    requires
        s == int_dec(k as int),
    ensures
        spec_parse_i32(s) == Some(k),
{
    assert(exists|j: i32| s == int_dec(j as int));
    let j = choose|j: i32| s == int_dec(j as int);
    lemma_int_dec_injective(j as int, k as int);
}

/// A string that breaks the canonical shape is no integer's decimal form.
proof fn lemma_no_parse_not_canonical(s: Seq<char>)
    requires
        ({
            ||| s.len() == 0
            ||| (s[0] == '-' && s.len() == 1)
            ||| (s[0] == '-' && !is_canonical_digits(s.skip(1)))
            ||| (s[0] != '-' && !is_canonical_digits(s))
        }),
    ensures
        spec_parse_i32(s) is None,
{
    assert forall|k: i32| s != int_dec(k as int) by {
        lemma_dec_digits_canonical(if k < 0 { (-(k as int)) as nat } else { k as nat });
        if k < 0 {
            if s == int_dec(k as int) {
                assert(s.skip(1) =~= dec_digits((-(k as int)) as nat));
            }
        } else {
            if s == int_dec(k as int) {
                assert(s =~= dec_digits(k as nat));
                assert(is_digit(s[0]));
            }
        }
    }
}

/// A string whose digit part runs past ten digits parses to no `i32`:
/// every `i32` magnitude is below `10^10` and so renders in at most ten.
proof fn lemma_no_parse_too_long(s: Seq<char>, start: int)
    requires
        s.len() >= 1,
        start == if s[0] == '-' { 1int } else { 0int },
        s.len() - start > 10,
    ensures
        spec_parse_i32(s) is None,
{
    assert forall|k: i32| s != int_dec(k as int) by {
        if s == int_dec(k as int) {
            let m = if k < 0 { (-(k as int)) as nat } else { k as nat };
            assert(m < pow10(10)) by {
                assert(pow10(10) == 10000000000) by { reveal_with_fuel(pow10, 11); }
            }
            lemma_dec_digits_len(m, 10);
            lemma_dec_digits_canonical(m);
            if k < 0 {
                assert(s.skip(1) =~= dec_digits(m));
                assert(s.len() - 1 <= 10);
            } else {
                assert(s =~= dec_digits(m));
                assert(is_digit(s[0]));
                assert(s[0] != '-');
                assert(s.len() <= 10);
            }
        }
    }
}

/// A canonical digit string above `i32::MAX` parses to no `i32`.
proof fn lemma_no_parse_pos(s: Seq<char>, v: nat)
    requires
        is_canonical_digits(s),
        v == dec_val(s),
        v > 0x7fffffff,
    ensures
        spec_parse_i32(s) is None,
{
    assert forall|k: i32| s != int_dec(k as int) by {
        if s == int_dec(k as int) {
            if k < 0 {
                assert(s[0] == '-');
                assert(is_digit(s[0]));
            } else {
                assert(s == dec_digits(k as nat));
                lemma_dec_val_of_digits(k as nat);
            }
        }
    }
}

/// A `-`-signed canonical magnitude of zero, or above `2^31`, parses to no `i32`.
proof fn lemma_no_parse_neg(s: Seq<char>, v: nat)
    requires
        s.len() >= 1,
        s[0] == '-',
        is_canonical_digits(s.skip(1)),
        v == dec_val(s.skip(1)),
        v == 0 || v > 0x80000000,
    ensures
        spec_parse_i32(s) is None,
{
    assert forall|k: i32| s != int_dec(k as int) by {
        if s == int_dec(k as int) {
            if k >= 0 {
                lemma_dec_digits_canonical(k as nat);
                assert(s =~= dec_digits(k as nat));
                assert(is_digit(s[0]));
            } else {
                let m = (-(k as int)) as nat;
                assert(s.skip(1) =~= dec_digits(m));
                lemma_dec_val_of_digits(m);
                assert(v == m);
                assert(1 <= m <= 0x80000000);
            }
        }
    }
}

} // verus!
