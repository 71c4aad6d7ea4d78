//! Decimal rendering and parsing of integers, following std's `Display` for
//! integers and `FromStr` for `i64`, `i32` and `bool`.

use vstd::prelude::*;

verus! {

/// The ASCII digit for `d` (`0 <= d < 10`).
pub open spec fn digit_char(d: int) -> char {
    if d == 0 { '0' }
    else if d == 1 { '1' }
    else if d == 2 { '2' }
    else if d == 3 { '3' }
    else if d == 4 { '4' }
    else if d == 5 { '5' }
    else if d == 6 { '6' }
    else if d == 7 { '7' }
    else if d == 8 { '8' }
    else { '9' }
}

/// Decimal digits of a natural number, most significant first, no padding.
pub open spec fn nat_decimal(n: nat) -> Seq<char>
    decreases n,
{
    if n < 10 {
        seq![digit_char(n as int)]
    } else {
        nat_decimal(n / 10).push(digit_char((n % 10) as int))
    }
}

/// Decimal text of an integer, with a leading `-` for negative values.
pub open spec fn int_decimal(n: int) -> Seq<char> {
    if n < 0 {
        seq!['-'] + nat_decimal((-n) as nat)
    } else {
        nat_decimal(n as nat)
    }
}

fn digit(d: u64) -> (c: char)
    requires
        d < 10,
    ensures
        c == digit_char(d as int),
{
    if d == 0 { '0' }
    else if d == 1 { '1' }
    else if d == 2 { '2' }
    else if d == 3 { '3' }
    else if d == 4 { '4' }
    else if d == 5 { '5' }
    else if d == 6 { '6' }
    else if d == 7 { '7' }
    else if d == 8 { '8' }
    else { '9' }
}

fn push_nat_decimal(out: &mut Vec<char>, n: u64)
    ensures
        final(out)@ == old(out)@ + nat_decimal(n as nat),
    decreases n,
{
    if n >= 10 {
        push_nat_decimal(out, n / 10);
    }
    out.push(digit(n % 10));
    assert(final(out)@ =~= old(out)@ + nat_decimal(n as nat));
}

/// Appends the decimal text of `n` to `out`.
pub fn push_i64_decimal(out: &mut Vec<char>, n: i64)
    ensures
        final(out)@ == old(out)@ + int_decimal(n as int),
{
    if n < 0 {
        out.push('-');
        let m: i128 = -(n as i128);
        push_nat_decimal(out, m as u64);
        assert(final(out)@ =~= old(out)@ + int_decimal(n as int));
    } else {
        push_nat_decimal(out, n as u64);
    }
}

/// Decimal text of `n` (what `n.to_string()` gives).
pub fn i64_to_string(n: i64) -> (s: String)
    ensures
        s@ == int_decimal(n as int),
{
    let mut v: Vec<char> = Vec::new();
    push_i64_decimal(&mut v, n);
    assert(v@ =~= int_decimal(n as int));
    crate::text::string_of(v.as_slice())
}

pub open spec fn is_digit(c: char) -> bool {
    '0' <= c <= '9'
}

pub open spec fn digit_value(c: char) -> int {
    (c as int) - ('0' as int)
}

/// Value of a string of decimal digits, most significant first.
pub open spec fn digits_value(s: Seq<char>) -> int
    decreases s.len(),
{
    if s.len() == 0 {
        0
    } else {
        digits_value(s.drop_last()) * 10 + digit_value(s.last())
    }
}

pub open spec fn all_digits(s: Seq<char>) -> bool {
    forall|i: int| 0 <= i < s.len() ==> is_digit(#[trigger] s[i])
}

/// The integer written in `s` as std's `FromStr` for signed integers reads it:
/// an optional `+` or `-`, then one or more ASCII digits, nothing else.
/// The range of the target type is checked separately.
pub open spec fn parsed_int(s: Seq<char>) -> Option<int> {
    if s.len() == 0 {
        None
    } else {
        let neg = s[0] == '-';
        let body = if s[0] == '-' || s[0] == '+' { s.drop_first() } else { s };
        if body.len() == 0 || !all_digits(body) {
            None
        } else if neg {
            Some(-digits_value(body))
        } else {
            Some(digits_value(body))
        }
    }
}

/// What `s.parse::<i64>().ok()` gives.
pub open spec fn parsed_i64(s: Seq<char>) -> Option<i64> {
    match parsed_int(s) {
        Some(v) => if i64::MIN <= v <= i64::MAX { Some(v as i64) } else { None },
        None => None,
    }
}

/// What `s.parse::<i32>().ok()` gives.
pub open spec fn parsed_i32(s: Seq<char>) -> Option<i32> {
    match parsed_int(s) {
        Some(v) => if i32::MIN <= v <= i32::MAX { Some(v as i32) } else { None },
        None => None,
    }
}

proof fn lemma_digits_value_nonneg(s: Seq<char>)
    requires
        all_digits(s),
    ensures
        digits_value(s) >= 0,
    decreases s.len(),
{
    if s.len() > 0 {
        lemma_digits_value_nonneg(s.drop_last());
    }
}

proof fn lemma_digit_char(d: int)
    requires
        0 <= d < 10,
    ensures
        is_digit(digit_char(d)),
        digit_value(digit_char(d)) == d,
{
}

proof fn lemma_nat_decimal_digits(n: nat)
    ensures
        nat_decimal(n).len() >= 1,
        all_digits(nat_decimal(n)),
        digits_value(nat_decimal(n)) == n,
    decreases n,
{
    let s = nat_decimal(n);
    if n < 10 {
        lemma_digit_char(n as int);
        assert(s.drop_last() =~= Seq::<char>::empty());
        assert(digits_value(s) == digits_value(s.drop_last()) * 10 + digit_value(s.last()));
        assert(digits_value(Seq::<char>::empty()) == 0);
    } else {
        let q = n / 10;
        let r = n % 10;
        lemma_nat_decimal_digits(q);
        lemma_digit_char(r as int);
        assert(s.drop_last() =~= nat_decimal(q));
        assert(s.last() == digit_char(r as int));
        assert forall|i: int| 0 <= i < s.len() implies is_digit(#[trigger] s[i]) by {
            if i < s.len() - 1 {
                assert(s[i] == nat_decimal(q)[i]);
            }
        }
        assert(q * 10 + r == n) by (nonlinear_arith)
            requires
                q == n / 10,
                r == n % 10,
        ;
        assert(digits_value(s) == digits_value(s.drop_last()) * 10 + digit_value(s.last()));
        assert(digits_value(s) == q * 10 + r);
    }
}

/// Reading back the decimal text of an `i64` gives the same `i64`: the
/// rendering of `Display` and the reading of `FromStr` are inverse.
pub proof fn lemma_decimal_round_trip(n: i64)
    ensures
        parsed_i64(int_decimal(n as int)) == Some(n),
{
    let s = int_decimal(n as int);
    if n >= 0 {
        let m = n as nat;
        lemma_nat_decimal_digits(m);
        let d = nat_decimal(m);
        assert(s == d);
        assert(is_digit(d[0]));
        assert(parsed_int(s) == Some(digits_value(d)));
    } else {
        let m = (-n) as nat;
        lemma_nat_decimal_digits(m);
        let d = nat_decimal(m);
        assert(s == seq!['-'] + d);
        assert(s[0] == '-');
        assert(s.drop_first() =~= d);
        assert(parsed_int(s) == Some(-digits_value(d)));
    }
}

const PARSE_CAP: i128 = 0x1_0000_0000_0000_0000;

/// The value of the digit string `v[from..]` if every character there is a
/// digit, capped: a result of `PARSE_CAP` stands for any value at least that.
fn digits_capped(v: &[char], from: usize) -> (r: Option<i128>)
    requires
        from <= v.len(),
    ensures
        r is None <==> !all_digits(v@.skip(from as int)),
        r matches Some(x) ==> {
            &&& 0 <= x <= PARSE_CAP
            &&& x < PARSE_CAP ==> x == digits_value(v@.skip(from as int))
            &&& x == PARSE_CAP ==> digits_value(v@.skip(from as int)) >= PARSE_CAP
        },
{
    let mut acc: i128 = 0;
    let mut i = from;
    while i < v.len()
        invariant
            from <= i <= v.len(),
            all_digits(v@.subrange(from as int, i as int)),
            0 <= acc <= PARSE_CAP,
            acc < PARSE_CAP ==> acc == digits_value(v@.subrange(from as int, i as int)),
            acc == PARSE_CAP ==> digits_value(v@.subrange(from as int, i as int)) >= PARSE_CAP,
        decreases v.len() - i,
    {
        let c = v[i];
        if !('0' <= c && c <= '9') {
            assert(v@.skip(from as int)[i - from] == c);
            return None;
        }
        let d = (c as u32 - '0' as u32) as i128;
        let ghost prev = v@.subrange(from as int, i as int);
        let ghost next = v@.subrange(from as int, i + 1);
        assert(next.drop_last() =~= prev);
        assert(next.last() == c);
        proof {
            lemma_digits_value_nonneg(prev);
        }
        if acc < PARSE_CAP {
            let n = acc * 10 + d;
            acc = if n >= PARSE_CAP { PARSE_CAP } else { n };
        }
        i = i + 1;
        assert(all_digits(next));
    }
    assert(v@.subrange(from as int, v.len() as int) =~= v@.skip(from as int));
    Some(acc)
}

/// The integer written in `s`, read like std's `FromStr` for signed integers,
/// or `None` when it is not well formed or its magnitude is at least 2^64.
fn parse_int_capped(s: &str) -> (r: Option<i128>)
    ensures
        match r {
            None => parsed_int(s@) is None,
            Some(x) => {
                &&& -PARSE_CAP <= x <= PARSE_CAP
                &&& parsed_int(s@) is Some
                &&& x == PARSE_CAP ==> parsed_int(s@)->0 >= PARSE_CAP
                &&& x == -PARSE_CAP ==> parsed_int(s@)->0 <= -PARSE_CAP
                &&& -PARSE_CAP < x < PARSE_CAP ==> parsed_int(s@)->0 == x
            },
        },
{
    let v = crate::text::chars_of(s);
    if v.len() == 0 {
        return None;
    }
    let neg = v[0] == '-';
    let start: usize = if v[0] == '-' || v[0] == '+' { 1 } else { 0 };
    let ghost body = if v@[0] == '-' || v@[0] == '+' { v@.drop_first() } else { v@ };
    assert(v@.skip(start as int) =~= body);
    if start == v.len() {
        return None;
    }
    match digits_capped(v.as_slice(), start) {
        None => None,
        Some(x) => {
            if neg { Some(-x) } else { Some(x) }
        },
    }
}

/// What `s.parse::<i64>().ok()` gives.
pub fn parse_i64(s: &str) -> (r: Option<i64>)
    ensures
        r == parsed_i64(s@),
{
    match parse_int_capped(s) {
        None => None,
        Some(x) => {
            if i64::MIN as i128 <= x && x <= i64::MAX as i128 {
                Some(x as i64)
            } else {
                None
            }
        },
    }
}

/// What `s.parse::<i32>().ok()` gives.
pub fn parse_i32(s: &str) -> (r: Option<i32>)
    ensures
        r == parsed_i32(s@),
{
    match parse_int_capped(s) {
        None => None,
        Some(x) => {
            if i32::MIN as i128 <= x && x <= i32::MAX as i128 {
                Some(x as i32)
            } else {
                None
            }
        },
    }
}

/// What `s.parse::<bool>().ok()` gives: only the exact words `true` and `false`.
pub open spec fn parsed_bool(s: Seq<char>) -> Option<bool> {
    if s == seq!['t', 'r', 'u', 'e'] {
        Some(true)
    } else if s == seq!['f', 'a', 'l', 's', 'e'] {
        Some(false)
    } else {
        None
    }
}

pub fn parse_bool(s: &str) -> (r: Option<bool>)
    ensures
        r == parsed_bool(s@),
{
    let v = crate::text::chars_of(s);
    let t = vec!['t', 'r', 'u', 'e'];
    let f = vec!['f', 'a', 'l', 's', 'e'];
    assert(t@ =~= seq!['t', 'r', 'u', 'e']);
    assert(f@ =~= seq!['f', 'a', 'l', 's', 'e']);
    if crate::text::chars_eq(v.as_slice(), t.as_slice()) {
        Some(true)
    } else if crate::text::chars_eq(v.as_slice(), f.as_slice()) {
        Some(false)
    } else {
        None
    }
}

} // verus!

verus! {

/// Rust's `/` on signed integers: the quotient rounded toward zero.
pub open spec fn trunc_div(a: int, b: int) -> int {
    if a >= 0 {
        a / b
    } else {
        -((-a) / b)
    }
}

/// `a / b` on `i64`, rounded toward zero.
pub fn div_trunc(a: i64, b: i64) -> (q: i64)
    requires
        b > 0,
    ensures
        q as int == trunc_div(a as int, b as int),
{
    if a >= 0 {
        a / b
    } else {
        let m: i128 = -(a as i128);
        let q: i128 = m / (b as i128);
        (-q) as i64
    }
}

} // verus!
