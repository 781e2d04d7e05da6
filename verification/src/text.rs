//! Text utilities: equality, decimal parsing and number formatting.

use vstd::prelude::*;
use vstd::string::*;
use vstd::std_specs::iter::IteratorSpec;

verus! {

broadcast use vstd::string::group_string_axioms;

/// Compares two string slices character by character.
///
/// Trusted: calls `<str as PartialEq>::eq`, which std documents as equality of
/// the two strings' contents.
#[verifier::external_body]
pub fn str_eq(a: &str, b: &str) -> (r: bool)
    ensures
        r == (a@ == b@),
{
    a == b
}

pub open spec fn is_digit(c: char) -> bool {
    '0' <= c && c <= '9'
}

pub open spec fn digit_value(c: char) -> nat {
    ((c as int) - ('0' as int)) as nat
}

/// All characters of `s` are ASCII digits.
pub open spec fn all_digits(s: Seq<char>) -> bool {
    forall|i: int| 0 <= i < s.len() ==> is_digit(#[trigger] s[i])
}

/// The value of a string of decimal digits, most significant first.
pub open spec fn digits_value(s: Seq<char>) -> nat
    decreases s.len(),
{
    if s.len() == 0 {
        0
    } else {
        digits_value(s.drop_last()) * 10 + digit_value(s.last())
    }
}

/// The digits of an unsigned number text: one optional leading `+` is dropped.
pub open spec fn unsigned_body(s: Seq<char>) -> Seq<char> {
    if s.len() > 0 && s[0] == '+' {
        s.drop_first()
    } else {
        s
    }
}

/// What `str::parse` of an unsigned integer type whose largest value is `max`
/// gives: an optional `+`, then at least one digit and nothing else, with a
/// value of at most `max`.
pub open spec fn parse_unsigned_spec(s: Seq<char>, max: nat) -> Option<nat> {
    parse_digits_spec(unsigned_body(s), max)
}

/// A nonempty run of digits with a value of at most `max`, and its value.
pub open spec fn parse_digits_spec(d: Seq<char>, max: nat) -> Option<nat> {
    if d.len() > 0 && all_digits(d) && digits_value(d) <= max {
        Some(digits_value(d))
    } else {
        None
    }
}

/// What `str::parse::<i64>` and its narrower kin give, for a type whose
/// range is `-(max + 1) ..= max`.
pub open spec fn parse_signed_spec(s: Seq<char>, max: nat) -> Option<int> {
    if s.len() > 0 && s[0] == '-' {
        let d = s.drop_first();
        if d.len() > 0 && all_digits(d) && digits_value(d) <= max + 1 {
            Some(-(digits_value(d) as int))
        } else {
            None
        }
    } else {
        match parse_unsigned_spec(s, max) {
            Some(v) => Some(v as int),
            None => None,
        }
    }
}

proof fn lemma_digits_value_push(s: Seq<char>, c: char)
    ensures
        digits_value(s.push(c)) == digits_value(s) * 10 + digit_value(c),
{
    assert(s.push(c).drop_last() =~= s);
}

/// Appending digits never makes the value smaller.
proof fn lemma_digits_value_grows(s: Seq<char>, k: int)
    requires
        0 <= k <= s.len(),
        all_digits(s),
    ensures
        digits_value(s.take(k)) <= digits_value(s),
    decreases s.len() - k,
{
    if k < s.len() {
        lemma_digits_value_grows(s, k + 1);
        assert(s.take(k + 1).drop_last() =~= s.take(k));
        assert(is_digit(s[k]));
    } else {
        assert(s.take(k) =~= s);
    }
}

/// The first character of `s`, if any.
fn first_char(s: &str) -> (r: Option<char>)
    ensures
        s@.len() == 0 ==> r is None,
        s@.len() > 0 ==> r == Some(s@[0]),
{
    let mut chars = s.chars();
    chars.next()
}

/// Parses `s` (without its first character when `skip_first`) as a nonempty
/// run of decimal digits with a value of at most `max`.
fn parse_digit_run(s: &str, max: u64, skip_first: bool) -> (r: Option<u64>)
    requires
        max >= 9,
        skip_first ==> s@.len() > 0,
    ensures
        ({
            let spec_r = parse_digits_spec(if skip_first { s@.drop_first() } else { s@ }, max as nat);
            &&& r is None <==> spec_r is None
            &&& r matches Some(v) ==> spec_r == Some(v as nat)
        }),
{
    let ghost text = s@;
    let ghost body = if skip_first { text.drop_first() } else { text };
    let mut chars = s.chars();
    if skip_first {
        let _ = chars.next();
    }
    assert(chars.remaining() =~= body);
    let ghost mut i: int = 0;
    let mut acc: u64 = 0;
    let mut seen_digit = false;
    loop
        invariant
            text == s@,
            body == (if skip_first { text.drop_first() } else { text }),
            chars.obeys_prophetic_iter_laws(),
            0 <= i <= body.len(),
            chars.remaining() =~= body.skip(i),
            all_digits(body.take(i)),
            acc as nat == digits_value(body.take(i)),
            acc <= max,
            seen_digit == (i > 0),
            max >= 9,
        decreases body.len() - i,
    {
        match chars.next() {
            None => {
                proof {
                    assert(body.take(i) =~= body);
                }
                if seen_digit {
                    return Some(acc);
                } else {
                    return None;
                }
            },
            Some(c) => {
                assert(c == body[i]);
                if !('0' <= c && c <= '9') {
                    proof {
                        assert(!is_digit(body[i]));
                    }
                    return None;
                }
                let d: u64 = (c as u32 - '0' as u32) as u64;
                proof {
                    lemma_digits_value_push(body.take(i), c);
                    assert(body.take(i).push(c) =~= body.take(i + 1));
                }
                if acc > (max - d) / 10 {
                    proof {
                        assert(acc * 10 + d > max) by (nonlinear_arith)
                            requires acc > (max - d) / 10, d <= max;
                        if all_digits(body) {
                            lemma_digits_value_grows(body, i + 1);
                        }
                    }
                    return None;
                }
                proof {
                    assert(acc * 10 + d <= max) by (nonlinear_arith)
                        requires acc <= (max - d) / 10, d <= max;
                }
                acc = acc * 10 + d;
                proof {
                    i = i + 1;
                }
                seen_digit = true;
                assert(chars.remaining() =~= body.skip(i));
            },
        }
    }
}

/// Parses an unsigned number text of at most `max`, as `str::parse` does.
fn parse_unsigned(s: &str, max: u64) -> (r: Option<u64>)
    requires
        max >= 9,
    ensures
        r is None <==> parse_unsigned_spec(s@, max as nat) is None,
        r matches Some(v) ==> parse_unsigned_spec(s@, max as nat) == Some(v as nat),
{
    match first_char(s) {
        Some(c) => {
            if c == '+' {
                assert(unsigned_body(s@) == s@.drop_first());
                parse_digit_run(s, max, true)
            } else {
                parse_digit_run(s, max, false)
            }
        },
        None => parse_digit_run(s, max, false),
    }
}

/// `str::parse::<u64>`: an optional `+` and decimal digits, at most `u64::MAX`.
pub fn parse_u64(s: &str) -> (r: Option<u64>)
    ensures
        r is None <==> parse_unsigned_spec(s@, u64::MAX as nat) is None,
        r matches Some(v) ==> parse_unsigned_spec(s@, u64::MAX as nat) == Some(v as nat),
{
    parse_unsigned(s, u64::MAX)
}

/// `str::parse::<u32>`.
pub fn parse_u32(s: &str) -> (r: Option<u32>)
    ensures
        r is None <==> parse_unsigned_spec(s@, u32::MAX as nat) is None,
        r matches Some(v) ==> parse_unsigned_spec(s@, u32::MAX as nat) == Some(v as nat),
{
    match parse_unsigned(s, u32::MAX as u64) {
        Some(v) => Some(v as u32),
        None => None,
    }
}

/// `str::parse::<u16>`.
pub fn parse_u16(s: &str) -> (r: Option<u16>)
    ensures
        r is None <==> parse_unsigned_spec(s@, u16::MAX as nat) is None,
        r matches Some(v) ==> parse_unsigned_spec(s@, u16::MAX as nat) == Some(v as nat),
{
    match parse_unsigned(s, u16::MAX as u64) {
        Some(v) => Some(v as u16),
        None => None,
    }
}

/// `str::parse::<u8>`.
pub fn parse_u8(s: &str) -> (r: Option<u8>)
    ensures
        r is None <==> parse_unsigned_spec(s@, u8::MAX as nat) is None,
        r matches Some(v) ==> parse_unsigned_spec(s@, u8::MAX as nat) == Some(v as nat),
{
    match parse_unsigned(s, u8::MAX as u64) {
        Some(v) => Some(v as u8),
        None => None,
    }
}

/// `str::parse::<i64>`: an optional sign and decimal digits within range.
pub fn parse_i64(s: &str) -> (r: Option<i64>)
    ensures
        r is None <==> parse_signed_spec(s@, i64::MAX as nat) is None,
        r matches Some(v) ==> parse_signed_spec(s@, i64::MAX as nat) == Some(v as int),
{
    match first_char(s) {
        Some(c) => {
            if c == '-' {
                match parse_digit_run(s, 9223372036854775808u64, true) {
                    Some(m) => {
                        if m == 9223372036854775808u64 {
                            Some(i64::MIN)
                        } else {
                            Some(-(m as i64))
                        }
                    },
                    None => None,
                }
            } else {
                match parse_unsigned(s, i64::MAX as u64) {
                    Some(v) => Some(v as i64),
                    None => None,
                }
            }
        },
        None => None,
    }
}

/// `str::parse::<i32>`.
pub fn parse_i32(s: &str) -> (r: Option<i32>)
    ensures
        r is None <==> parse_signed_spec(s@, i32::MAX as nat) is None,
        r matches Some(v) ==> parse_signed_spec(s@, i32::MAX as nat) == Some(v as int),
{
    match first_char(s) {
        Some(c) => {
            if c == '-' {
                match parse_digit_run(s, 2147483648u64, true) {
                    Some(m) => Some(-(m as i64) as i32),
                    None => None,
                }
            } else {
                match parse_unsigned(s, i32::MAX as u64) {
                    Some(v) => Some(v as i32),
                    None => None,
                }
            }
        },
        None => None,
    }
}

/// The lowercase hexadecimal digit for `d < 16`.
pub open spec fn hex_digit(d: nat) -> char {
    if d < 10 {
        (('0' as nat) + d) as char
    } else {
        (('a' as nat) + d - 10) as char
    }
}

/// The shortest lowercase hexadecimal text of `v`.
pub open spec fn hex_text(v: nat) -> Seq<char>
    decreases v,
{
    if v < 16 {
        seq![hex_digit(v)]
    } else {
        hex_text(v / 16).push(hex_digit(v % 16))
    }
}

/// The shortest decimal text of `v`.
pub open spec fn decimal_text(v: nat) -> Seq<char>
    decreases v,
{
    if v < 10 {
        seq![hex_digit(v)]
    } else {
        decimal_text(v / 10).push(hex_digit(v % 10))
    }
}

/// `s` preceded by as many `'0'` as it takes to reach `width` characters.
pub open spec fn zero_padded(s: Seq<char>, width: nat) -> Seq<char> {
    if s.len() >= width {
        s
    } else {
        Seq::new((width - s.len()) as nat, |i: int| '0') + s
    }
}

/// The value of a lowercase hexadecimal digit.
pub open spec fn hex_digit_value(c: char) -> nat {
    if '0' <= c && c <= '9' {
        ((c as int) - ('0' as int)) as nat
    } else {
        ((c as int) - ('a' as int) + 10) as nat
    }
}

/// The value of a lowercase hexadecimal text, most significant first.
pub open spec fn hex_value(s: Seq<char>) -> nat
    decreases s.len(),
{
    if s.len() == 0 {
        0
    } else {
        hex_value(s.drop_last()) * 16 + hex_digit_value(s.last())
    }
}

/// `16` to the power `k`.
pub open spec fn pow16(k: nat) -> nat
    decreases k,
{
    if k == 0 { 1 } else { 16 * pow16((k - 1) as nat) }
}

/// `10` to the power `k`.
pub open spec fn pow10(k: nat) -> nat
    decreases k,
{
    if k == 0 { 1 } else { 10 * pow10((k - 1) as nat) }
}

/// A hexadecimal text reads back as its number, and a number below `16^k`
/// (`k >= 1`) takes at most `k` digits.
pub proof fn lemma_hex_text(v: nat, k: nat)
    ensures
        hex_value(hex_text(v)) == v,
        hex_text(v).len() >= 1,
        k >= 1 && v < pow16(k) ==> hex_text(v).len() <= k,
    decreases v,
{
    lemma_hex_digit_value(v % 16);
    if v >= 16 {
        lemma_hex_text(v / 16, (k - 1) as nat);
        assert(hex_text(v).drop_last() == hex_text(v / 16));
        assert(hex_text(v).last() == hex_digit(v % 16));
        assert(hex_value(hex_text(v)) == hex_value(hex_text(v / 16)) * 16 + hex_digit_value(hex_digit(v % 16)));
        assert((v / 16) * 16 + v % 16 == v);
        if k >= 1 && v < pow16(k) {
            if k == 1 {
                assert(pow16(1) == 16) by {
                    reveal_with_fuel(pow16, 2);
                }
            } else {
                assert(v / 16 < pow16((k - 1) as nat)) by (nonlinear_arith)
                    requires
                        v < pow16(k),
                        pow16(k) == 16 * pow16((k - 1) as nat),
                ;
            }
        }
    } else {
        assert(hex_text(v).drop_last() =~= Seq::<char>::empty());
        assert(hex_value(hex_text(v)) == hex_value(Seq::<char>::empty()) * 16 + hex_digit_value(hex_digit(v)));
        if k >= 1 {
            assert(pow16(k) >= 16) by {
                lemma_pow16_grows(k);
            }
        }
    }
}

proof fn lemma_hex_digit_value(d: nat)
    requires
        d < 16,
    ensures
        hex_digit_value(hex_digit(d)) == d,
        d < 10 ==> is_digit(hex_digit(d)) && digit_value(hex_digit(d)) == d,
{
    if d < 10 {
        assert((('0' as nat) + d) as char as int == ('0' as int) + d);
    } else {
        assert((('a' as nat) + d - 10) as char as int == ('a' as int) + d - 10);
    }
}

proof fn lemma_pow16_grows(k: nat)
    requires
        k >= 1,
    ensures
        pow16(k) >= 16,
    decreases k,
{
    reveal_with_fuel(pow16, 2);
    if k > 1 {
        lemma_pow16_grows((k - 1) as nat);
    }
}

/// A decimal text reads back as its number, and a number below `10^k`
/// (`k >= 1`) takes at most `k` digits.
pub proof fn lemma_decimal_text(v: nat)
    ensures
        digits_value(decimal_text(v)) == v,
        decimal_text(v).len() >= 1,
        all_digits(decimal_text(v)),
    decreases v,
{
    lemma_hex_digit_value(v % 10);
    if v >= 10 {
        lemma_decimal_text(v / 10);
        assert(decimal_text(v).drop_last() == decimal_text(v / 10));
        assert(decimal_text(v).last() == hex_digit(v % 10));
        assert(digits_value(decimal_text(v)) == digits_value(decimal_text(v / 10)) * 10 + digit_value(hex_digit(v % 10)));
        assert((v / 10) * 10 + v % 10 == v);
        assert forall|i: int| 0 <= i < decimal_text(v).len() implies is_digit(#[trigger] decimal_text(v)[i]) by {
            if i < decimal_text(v).len() - 1 {
                assert(decimal_text(v)[i] == decimal_text(v / 10)[i]);
            }
        }
    } else {
        assert(decimal_text(v).drop_last() =~= Seq::<char>::empty());
        assert(digits_value(decimal_text(v)) == digits_value(Seq::<char>::empty()) * 10 + digit_value(hex_digit(v)));
    }
}

/// Leading zeros do not change the value of a hexadecimal text.
pub proof fn lemma_hex_value_zeros(n: nat, s: Seq<char>)
    ensures
        hex_value(Seq::new(n, |i: int| '0') + s) == hex_value(s),
    decreases s.len(),
{
    let z = Seq::new(n, |i: int| '0');
    if s.len() == 0 {
        assert(z + s =~= z);
        lemma_hex_value_all_zeros(n);
    } else {
        lemma_hex_value_zeros(n, s.drop_last());
        assert((z + s).drop_last() =~= z + s.drop_last());
    }
}

proof fn lemma_hex_value_all_zeros(n: nat)
    ensures
        hex_value(Seq::new(n, |i: int| '0')) == 0,
    decreases n,
{
    if n > 0 {
        lemma_hex_value_all_zeros((n - 1) as nat);
        assert(Seq::new(n, |i: int| '0').drop_last() =~= Seq::new((n - 1) as nat, |i: int| '0'));
    }
}

/// A number below `16^width` padded to `width` hexadecimal digits has
/// exactly `width` characters and reads back as the number.
pub proof fn lemma_hex_padded(v: nat, width: nat)
    requires
        width >= 1,
        v < pow16(width),
    ensures
        zero_padded(hex_text(v), width).len() == width,
        hex_value(zero_padded(hex_text(v), width)) == v,
{
    lemma_hex_text(v, width);
    let t = hex_text(v);
    if t.len() < width {
        lemma_hex_value_zeros((width - t.len()) as nat, t);
    }
}

/// A one-character text for the digit `d < 16`.
pub fn digit_str(d: u64) -> (r: &'static str)
    requires
        d < 16,
    ensures
        r@ == seq![hex_digit(d as nat)],
{
    match d {
        0 => { proof { reveal_strlit("0"); } "0" },
        1 => { proof { reveal_strlit("1"); } "1" },
        2 => { proof { reveal_strlit("2"); } "2" },
        3 => { proof { reveal_strlit("3"); } "3" },
        4 => { proof { reveal_strlit("4"); } "4" },
        5 => { proof { reveal_strlit("5"); } "5" },
        6 => { proof { reveal_strlit("6"); } "6" },
        7 => { proof { reveal_strlit("7"); } "7" },
        8 => { proof { reveal_strlit("8"); } "8" },
        9 => { proof { reveal_strlit("9"); } "9" },
        10 => { proof { reveal_strlit("a"); } "a" },
        11 => { proof { reveal_strlit("b"); } "b" },
        12 => { proof { reveal_strlit("c"); } "c" },
        13 => { proof { reveal_strlit("d"); } "d" },
        14 => { proof { reveal_strlit("e"); } "e" },
        _ => { proof { reveal_strlit("f"); } "f" },
    }
}

/// The digits of `v` in base `base`, least significant first.
spec fn digits_rev(v: nat, base: nat) -> Seq<nat>
    decreases v,
{
    if base < 2 || v < base {
        seq![v]
    } else {
        proof {
            assert(v / base < v) by (nonlinear_arith)
                requires
                    base >= 2,
                    v >= base,
            ;
        }
        seq![v % base] + digits_rev(v / base, base)
    }
}

proof fn lemma_text_from_digits(v: nat, base: nat)
    requires
        base == 10 || base == 16,
    ensures
        ({
            let ds = digits_rev(v, base);
            &&& ds.len() >= 1
            &&& forall|i: int| 0 <= i < ds.len() ==> ds[i] < base
            &&& (if base == 10 { decimal_text(v) } else { hex_text(v) })
                =~= Seq::new(ds.len(), |i: int| hex_digit(ds[ds.len() - 1 - i]))
        }),
    decreases v,
{
    if v >= base {
        lemma_text_from_digits(v / base, base);
    }
}

/// Writes `v` in base 10 or 16 (lowercase), left-padded with `'0'` to at
/// least `width` characters.
fn format_radix(v: u64, base: u64, width: usize) -> (r: String)
    requires
        base == 10 || base == 16,
    ensures
        r@ == zero_padded(if base == 10 { decimal_text(v as nat) } else { hex_text(v as nat) }, width as nat),
{
    proof {
        lemma_text_from_digits(v as nat, base as nat);
    }
    let ghost ds = digits_rev(v as nat, base as nat);
    let ghost text = if base == 10 { decimal_text(v as nat) } else { hex_text(v as nat) };
    // collect the digits, least significant first
    let mut digits: Vec<u64> = Vec::new();
    let mut rest = v;
    while rest >= base
        invariant
            base == 10 || base == 16,
            digits@.map_values(|d: u64| d as nat) + digits_rev(rest as nat, base as nat) =~= ds,
        decreases rest,
    {
        let d = rest % base;
        let ghost before = digits@;
        assert(digits_rev(rest as nat, base as nat) == seq![(rest % base) as nat] + digits_rev((rest / base) as nat, base as nat));
        digits.push(d);
        assert(digits@.map_values(|d: u64| d as nat) =~= before.map_values(|d: u64| d as nat).push(d as nat));
        rest = rest / base;
    }
    let ghost before = digits@;
    assert(digits_rev(rest as nat, base as nat) == seq![rest as nat]);
    digits.push(rest);
    assert(digits@.map_values(|d: u64| d as nat) =~= before.map_values(|d: u64| d as nat).push(rest as nat));
    assert(digits@.map_values(|d: u64| d as nat) =~= ds);
    assert forall|i: int| 0 <= i < digits@.len() implies digits@[i] == ds[i] by {
        assert(digits@.map_values(|d: u64| d as nat)[i] == digits@[i] as nat);
    }
    assert(digits@.len() == ds.len());
    let mut out = String::new();
    let n = digits.len();
    if n < width {
        let mut k: usize = 0;
        while k < width - n
            invariant
                k <= width - n,
                n < width,
                out@ =~= Seq::new(k as nat, |i: int| '0'),
            decreases width - n - k,
        {
            proof { reveal_strlit("0"); }
            out.append("0");
            k = k + 1;
        }
    }
    let ghost pad = out@;
    let mut j: usize = n;
    while j > 0
        invariant
            j <= n,
            n == digits@.len(),
            n == ds.len(),
            forall|i: int| 0 <= i < digits@.len() ==> digits@[i] == ds[i],
            forall|i: int| 0 <= i < ds.len() ==> ds[i] < base,
            base == 10 || base == 16,
            out@ =~= pad + Seq::new((n - j) as nat, |i: int| hex_digit(ds[ds.len() - 1 - i])),
        decreases j,
    {
        j = j - 1;
        let d = digits[j];
        assert(digits@[j as int] == ds[j as int]);
        assert(ds[j as int] < base);
        out.append(digit_str(d));
    }
    assert(text =~= Seq::new(ds.len(), |i: int| hex_digit(ds[ds.len() - 1 - i])));
    out
}

/// The decimal text of `v`.
pub fn decimal_string(v: u64) -> (r: String)
    ensures
        r@ == decimal_text(v as nat),
{
    format_radix(v, 10, 0)
}

/// The lowercase hexadecimal text of `v`, left-padded with `'0'` to at least
/// `width` characters (`format!("{v:0>width$x}")`).
pub fn hex_string_padded(v: u64, width: usize) -> (r: String)
    ensures
        r@ == zero_padded(hex_text(v as nat), width as nat),
{
    format_radix(v, 16, width)
}

/// The decimal text of a signed value: a `-` before a negative one.
pub open spec fn signed_decimal_text(v: int) -> Seq<char> {
    if v < 0 {
        seq!['-'] + decimal_text((-v) as nat)
    } else {
        decimal_text(v as nat)
    }
}

/// The decimal text of `v` (`v.to_string()`).
pub fn signed_decimal_string(v: i64) -> (r: String)
    ensures
        r@ == signed_decimal_text(v as int),
{
    if v < 0 {
        let magnitude: u64 = if v == i64::MIN { 9223372036854775808u64 } else { (-v) as u64 };
        let mut out = String::new();
        proof { reveal_strlit("-"); }
        out.append("-");
        let digits = decimal_string(magnitude);
        out.append(digits.as_str());
        out
    } else {
        decimal_string(v as u64)
    }
}

} // verus!
