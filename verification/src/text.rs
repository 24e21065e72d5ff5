//! Decimal text: parsing integers the way `str::parse` does, and printing them.

use vstd::prelude::*;

verus! {

/// The value of an ASCII decimal digit.
pub open spec fn digit_value(c: char) -> int {
    (c as int) - ('0' as int)
}

pub open spec fn is_digit(c: char) -> bool {
    '0' <= c && c <= '9'
}

pub open spec fn all_digits(s: Seq<char>) -> bool {
    forall|i: int| 0 <= i < s.len() ==> is_digit(#[trigger] s[i])
}

/// The number written by a string of decimal digits (most significant first).
pub open spec fn digits_value(s: Seq<char>) -> nat
    decreases s.len(),
{
    if s.len() == 0 {
        0
    } else {
        (digits_value(s.drop_last()) * 10 + digit_value(s.last())) as nat
    }
}

/// A decimal number as `str::parse` reads it: an optional sign, then at least one digit.
/// The result is the sign (true for `-`) and the magnitude.
pub open spec fn decimal_parts(s: Seq<char>) -> Option<(bool, nat)> {
    if s.len() == 0 {
        None
    } else if s[0] == '+' || s[0] == '-' {
        let rest = s.drop_first();
        if rest.len() > 0 && all_digits(rest) {
            Some((s[0] == '-', digits_value(rest)))
        } else {
            None
        }
    } else if all_digits(s) {
        Some((false, digits_value(s)))
    } else {
        None
    }
}

/// The integer that a signed integer type reads from `s`, before its range is checked.
pub open spec fn signed_value(s: Seq<char>) -> Option<int> {
    match decimal_parts(s) {
        Some((neg, m)) => Some(if neg { -(m as int) } else { m as int }),
        None => None,
    }
}

/// The integer that an unsigned integer type reads from `s`: a `-` sign is refused.
pub open spec fn unsigned_value(s: Seq<char>) -> Option<int> {
    match decimal_parts(s) {
        Some((neg, m)) => if neg { None } else { Some(m as int) },
        None => None,
    }
}

/// What `s.parse::<i64>().ok()` gives.
pub open spec fn spec_parse_i64(s: Seq<char>) -> Option<i64> {
    match signed_value(s) {
        Some(v) => if i64::MIN <= v <= i64::MAX { Some(v as i64) } else { None },
        None => None,
    }
}

/// What `s.parse::<i32>().ok()` gives.
pub open spec fn spec_parse_i32(s: Seq<char>) -> Option<i32> {
    match signed_value(s) {
        Some(v) => if i32::MIN <= v <= i32::MAX { Some(v as i32) } else { None },
        None => None,
    }
}

/// What `s.parse::<u32>().ok()` gives.
pub open spec fn spec_parse_u32(s: Seq<char>) -> Option<u32> {
    match unsigned_value(s) {
        Some(v) => if 0 <= v <= u32::MAX { Some(v as u32) } else { None },
        None => None,
    }
}

/// What `s.parse::<usize>().ok()` gives.
pub open spec fn spec_parse_usize(s: Seq<char>) -> Option<usize> {
    match unsigned_value(s) {
        Some(v) => if 0 <= v <= usize::MAX { Some(v as usize) } else { None },
        None => None,
    }
}

pub open spec fn digit_char(d: nat) -> char
    recommends
        d < 10,
{
    (('0' as int) + d) as char
}

/// The shortest decimal spelling of a natural number.
pub open spec fn nat_digits(n: nat) -> Seq<char>
    decreases n,
{
    if n < 10 {
        seq![digit_char(n)]
    } else {
        nat_digits(n / 10).push(digit_char(n % 10))
    }
}

/// What `v.to_string()` gives for an integer `v`.
pub open spec fn int_text(v: int) -> Seq<char> {
    if v < 0 {
        seq!['-'] + nat_digits((-v) as nat)
    } else {
        nat_digits(v as nat)
    }
}

pub proof fn lemma_nat_digits(n: nat)
    ensures
        all_digits(nat_digits(n)),
        nat_digits(n).len() > 0,
        digits_value(nat_digits(n)) == n,
        nat_digits(n)[0] != '-' && nat_digits(n)[0] != '+',
    decreases n,
{
    lemma_digit_char(n % 10);
    if n >= 10 {
        lemma_nat_digits(n / 10);
        let s = nat_digits(n / 10);
        let c = digit_char(n % 10);
        assert(s.push(c).drop_last() =~= s);
        assert(s.push(c).last() == c);
        assert(digits_value(s.push(c)) == (digits_value(s) * 10 + digit_value(c)) as nat);
        assert((n / 10) * 10 + n % 10 == n);
    } else {
        lemma_digit_char(n);
        let c = digit_char(n);
        assert(seq![c].drop_last() =~= Seq::<char>::empty());
        assert(digits_value(Seq::<char>::empty()) == 0);
        assert(digits_value(seq![c]) == (digits_value(seq![c].drop_last()) * 10 + digit_value(seq![c].last())) as nat);
        assert(nat_digits(n) == seq![c]);
    }
}

pub proof fn lemma_digit_char(d: nat)
    requires
        d < 10,
    ensures
        digit_value(digit_char(d)) == d,
        is_digit(digit_char(d)),
{
    assert(digit_char(d) as int == '0' as int + d);
}

/// Parsing the text of an integer gives the integer back.
pub proof fn law_int_text_parses(v: int)
    ensures
        signed_value(int_text(v)) == Some(v),
{
    if v < 0 {
        let m = (-v) as nat;
        lemma_nat_digits(m);
        assert((seq!['-'] + nat_digits(m)).drop_first() =~= nat_digits(m));
    } else {
        lemma_nat_digits(v as nat);
    }
}

/// Appends a character: `String::push`.
#[verifier::external_body]
pub(crate) fn push_char(s: &mut String, c: char)
    ensures
        final(s)@ == old(s)@.push(c),
{
    s.push(c);
}

/// Appends a string: `String::push_str`.
#[verifier::external_body]
pub(crate) fn push_str(s: &mut String, t: &str)
    ensures
        final(s)@ == old(s)@ + t@,
{
    s.push_str(t);
}

/// The characters of a string: `str::chars`, gathered.
#[verifier::external_body]
pub(crate) fn chars_of(s: &str) -> (r: Vec<char>)
    ensures
        r@ == s@,
{
    s.chars().collect()
}

/// Reads the sign and magnitude of a decimal number; `None` where the text is no number
/// or the magnitude does not fit in a `u64`.
pub fn parse_decimal(s: &str) -> (r: Option<(bool, u64)>)
    ensures
        match decimal_parts(s@) {
            Some((neg, m)) => if m <= u64::MAX {
                r == Some((neg, m as u64))
            } else {
                r is None
            },
            None => r is None,
        },
{
    let cs = chars_of(s);
    assert(cs@.skip(0) =~= s@);
    parse_decimal_chars(&cs, 0)
}

/// `parse_decimal` on the characters of `cs` from index `from` on.
pub fn parse_decimal_chars(cs: &Vec<char>, from: usize) -> (r: Option<(bool, u64)>)
    requires
        from <= cs@.len(),
    ensures
        match decimal_parts(cs@.skip(from as int)) {
            Some((neg, m)) => if m <= u64::MAX {
                r == Some((neg, m as u64))
            } else {
                r is None
            },
            None => r is None,
        },
{
    let ghost s = cs@.skip(from as int);
    let n = cs.len();
    if n == from {
        return None;
    }
    let first = cs[from];
    let signed = first == '+' || first == '-';
    let start: usize = if signed { from + 1 } else { from };
    if signed && n == from + 1 {
        return None;
    }
    let ghost digits = cs@.subrange(start as int, n as int);
    assert(s.drop_first() =~= cs@.subrange(from + 1, n as int));
    assert(!signed ==> cs@.subrange(from as int, n as int) =~= s);
    let mut acc: u64 = 0;
    let mut overflow = false;
    let mut i: usize = start;
    while i < n
        invariant
            from < n,
            start <= i <= n,
            n == cs@.len(),
            s == cs@.skip(from as int),
            s[0] == first,
            digits == cs@.subrange(start as int, n as int),
            signed == (s[0] == '+' || s[0] == '-'),
            start == (if signed { from + 1 } else { from as int }),
            signed ==> s.drop_first() == digits,
            !signed ==> s == digits,
            all_digits(cs@.subrange(start as int, i as int)),
            !overflow ==> acc == digits_value(cs@.subrange(start as int, i as int)),
            overflow ==> digits_value(cs@.subrange(start as int, i as int)) > u64::MAX,
        decreases n - i,
    {
        let c = cs[i];
        if !('0' <= c && c <= '9') {
            assert(digits[i - start] == c);
            return None;
        }
        let d = (c as u32 - '0' as u32) as u64;
        let ghost prev = cs@.subrange(start as int, i as int);
        assert(cs@.subrange(start as int, i + 1) =~= prev.push(c));
        assert(prev.push(c).drop_last() =~= prev);
        if !overflow {
            if acc > (u64::MAX - d) / 10 {
                overflow = true;
            } else {
                acc = acc * 10 + d;
            }
        }
        i = i + 1;
    }
    assert(cs@.subrange(start as int, n as int) =~= digits);
    if overflow {
        None
    } else {
        Some((first == '-', acc))
    }
}

/// `s.parse::<u32>().ok()` for the characters of `cs` from index `from` on.
pub fn parse_u32_chars(cs: &Vec<char>, from: usize) -> (r: Option<u32>)
    requires
        from <= cs@.len(),
    ensures
        r == spec_parse_u32(cs@.skip(from as int)),
{
    match parse_decimal_chars(cs, from) {
        Some((neg, m)) => if !neg && m <= 4294967295u64 {
            Some(m as u32)
        } else {
            None
        },
        None => None,
    }
}

/// `s.parse::<i64>().ok()`
pub fn parse_i64(s: &str) -> (r: Option<i64>)
    ensures
        r == spec_parse_i64(s@),
{
    match parse_decimal(s) {
        Some((neg, m)) => {
            if neg {
                if m <= 9223372036854775808u64 {
                    if m == 9223372036854775808u64 {
                        Some(i64::MIN)
                    } else {
                        Some(-(m as i64))
                    }
                } else {
                    None
                }
            } else if m <= 9223372036854775807u64 {
                Some(m as i64)
            } else {
                None
            }
        },
        None => None,
    }
}

/// `s.parse::<i32>().ok()`
pub fn parse_i32(s: &str) -> (r: Option<i32>)
    ensures
        r == spec_parse_i32(s@),
{
    match parse_i64(s) {
        Some(v) => if -2147483648 <= v && v <= 2147483647 {
            Some(v as i32)
        } else {
            None
        },
        None => {
            assert(signed_value(s@) is Some ==> !(i64::MIN <= signed_value(s@)->0 <= i64::MAX));
            None
        },
    }
}

/// `s.parse::<u32>().ok()`
pub fn parse_u32(s: &str) -> (r: Option<u32>)
    ensures
        r == spec_parse_u32(s@),
{
    match parse_decimal(s) {
        Some((neg, m)) => if !neg && m <= 4294967295u64 {
            Some(m as u32)
        } else {
            None
        },
        None => None,
    }
}

/// `s.parse::<usize>().ok()`
pub fn parse_usize(s: &str) -> (r: Option<usize>)
    ensures
        r == spec_parse_usize(s@),
{
    match parse_decimal(s) {
        Some((neg, m)) => if !neg && m <= usize::MAX as u64 {
            Some(m as usize)
        } else {
            None
        },
        None => None,
    }
}

/// `v.to_string()` for a natural number held in a `u64`.
pub fn u64_text(v: u64) -> (r: String)
    ensures
        r@ == nat_digits(v as nat),
{
    let mut rev: Vec<char> = Vec::new();
    let mut n = v;
    // `rev` holds the low digits of `v`, least significant first.
    while n >= 10
        invariant
            nat_digits(v as nat) == nat_digits(n as nat) + rev@.reverse(),
        decreases n,
    {
        let d = n % 10;
        let c = char_of_digit(d);
        let ghost old_rev = rev@;
        rev.push(c);
        assert(nat_digits(n as nat) == nat_digits((n / 10) as nat).push(c));
        assert(rev@.reverse() =~= seq![c] + old_rev.reverse());
        assert(nat_digits((n / 10) as nat).push(c) + old_rev.reverse() =~= nat_digits(
            (n / 10) as nat,
        ) + (seq![c] + old_rev.reverse()));
        n = n / 10;
    }
    let c = char_of_digit(n);
    let ghost old_rev = rev@;
    rev.push(c);
    assert(rev@.reverse() =~= seq![c] + old_rev.reverse());
    assert(nat_digits(n as nat) =~= seq![c]);
    assert(nat_digits(v as nat) == rev@.reverse());
    let mut out = String::new();
    let len = rev.len();
    let mut i: usize = 0;
    while i < len
        invariant
            len == rev@.len(),
            i <= len,
            out@ =~= rev@.reverse().subrange(0, i as int),
        decreases len - i,
    {
        push_char(&mut out, rev[len - 1 - i]);
        assert(rev@.reverse().subrange(0, i + 1) =~= rev@.reverse().subrange(0, i as int).push(
            rev@[len - 1 - i],
        ));
        i = i + 1;
    }
    assert(rev@.reverse().subrange(0, len as int) =~= rev@.reverse());
    out
}

fn char_of_digit(d: u64) -> (c: char)
    requires
        d < 10,
    ensures
        c == digit_char(d as nat),
{
    if d == 0 { '0' }
    else if d == 1 { '1' }
    else if d == 2 { '2' }
    else if d == 3 { '3' }
    else if d == 4 { '4' }
    else if d == 5 { '5' }
    else if d == 6 { '6' }
    else if d == 7 { '7' }
    else if d == 8 { '8' }
    else { '9' }
}

/// `v.to_string()` for an `i64`.
pub fn i64_text(v: i64) -> (r: String)
    ensures
        r@ == int_text(v as int),
{
    if v < 0 {
        let m: u64 = if v == i64::MIN {
            9223372036854775808u64
        } else {
            (-v) as u64
        };
        let digits = u64_text(m);
        let mut out = String::new();
        push_char(&mut out, '-');
        push_str(&mut out, digits.as_str());
        assert(out@ =~= seq!['-'] + nat_digits(m as nat));
        out
    } else {
        u64_text(v as u64)
    }
}

} // verus!
