//! Decimal rendering and parsing of integers, with the rules that tmux
//! output and command arguments use.

use vstd::prelude::*;

verus! {

/// Whether a character is an ASCII decimal digit.
pub open spec fn is_digit(c: char) -> bool {
    '0' <= c && c <= '9'
}

/// The value of an ASCII decimal digit.
pub open spec fn digit_value(c: char) -> nat {
    (c as int - '0' as int) as nat
}

/// The ASCII character of a digit value below ten.
pub open spec fn digit_char(d: nat) -> char {
    (d + '0' as nat) as char
}

/// Every character is a decimal digit.
pub open spec fn all_digits(s: Seq<char>) -> bool {
    forall|i: int| 0 <= i < s.len() ==> is_digit(#[trigger] s[i])
}

/// The value of a run of decimal digits, most significant first.
pub open spec fn digits_value(s: Seq<char>) -> nat
    decreases s.len(),
{
    if s.len() == 0 {
        0
    } else {
        digits_value(s.drop_last()) * 10 + digit_value(s.last())
    }
}

/// The shortest decimal representation of a natural number.
pub open spec fn decimal(n: nat) -> Seq<char>
    decreases n,
{
    if n < 10 {
        seq![digit_char(n)]
    } else {
        decimal(n / 10).push(digit_char(n % 10))
    }
}

/// The decimal representation of an integer, with a leading `-` when negative.
pub open spec fn signed_decimal(i: int) -> Seq<char> {
    if i < 0 {
        seq!['-'] + decimal((-i) as nat)
    } else {
        decimal(i as nat)
    }
}

/// The digits that an unsigned integer parse reads: an optional leading `+` is skipped.
pub open spec fn unsigned_body(s: Seq<char>) -> Seq<char> {
    if s.len() > 1 && s[0] == '+' {
        s.drop_first()
    } else {
        s
    }
}

/// How an integer parse can fail, in the order in which a left-to-right scan finds it.
#[derive(PartialEq, Eq, Structural, Clone, Copy, Debug)]
pub enum IntErrorKind {
    /// The text was empty.
    Empty,
    /// A character that is not a digit (or a lone sign) was found.
    InvalidDigit,
    /// The value exceeded the largest value of the target type.
    PosOverflow,
    /// The value fell below the smallest value of the target type.
    NegOverflow,
}

/// The outcome of scanning `digits` left to right, accumulating a magnitude that may not
/// exceed `limit`: the first non-digit or the first prefix whose value exceeds the limit fails.
pub open spec fn scan_digits(digits: Seq<char>, limit: nat, overflow: IntErrorKind) -> Result<nat, IntErrorKind>
    decreases digits.len(),
{
    if digits.len() == 0 {
        Ok(0)
    } else {
        match scan_digits(digits.drop_last(), limit, overflow) {
            Err(e) => Err(e),
            Ok(v) => if !is_digit(digits.last()) {
                Err(IntErrorKind::InvalidDigit)
            } else if v * 10 + digit_value(digits.last()) > limit {
                Err(overflow)
            } else {
                Ok(v * 10 + digit_value(digits.last()))
            },
        }
    }
}

/// Parsing of an unsigned integer no larger than `max`: an optional `+`, then digits.
pub open spec fn parse_unsigned(s: Seq<char>, max: nat) -> Result<nat, IntErrorKind> {
    if s.len() == 0 {
        Err(IntErrorKind::Empty)
    } else if s.len() == 1 && (s[0] == '+' || s[0] == '-') {
        Err(IntErrorKind::InvalidDigit)
    } else {
        scan_digits(unsigned_body(s), max, IntErrorKind::PosOverflow)
    }
}

/// Parsing of a signed integer in `[-neg_limit, max]`: an optional `+` or `-`, then digits.
pub open spec fn parse_signed(s: Seq<char>, neg_limit: nat, max: nat) -> Result<int, IntErrorKind> {
    if s.len() == 0 {
        Err(IntErrorKind::Empty)
    } else if s.len() == 1 && (s[0] == '+' || s[0] == '-') {
        Err(IntErrorKind::InvalidDigit)
    } else if s[0] == '-' {
        match scan_digits(s.drop_first(), neg_limit, IntErrorKind::NegOverflow) {
            Ok(v) => Ok(-v),
            Err(e) => Err(e),
        }
    } else {
        match scan_digits(unsigned_body(s), max, IntErrorKind::PosOverflow) {
            Ok(v) => Ok(v as int),
            Err(e) => Err(e),
        }
    }
}

/// The description that the standard library gives each integer parse failure.
pub open spec fn int_error_text(kind: IntErrorKind) -> Seq<char> {
    match kind {
        IntErrorKind::Empty => "cannot parse integer from empty string"@,
        IntErrorKind::InvalidDigit => "invalid digit found in string"@,
        IntErrorKind::PosOverflow => "number too large to fit in target type"@,
        IntErrorKind::NegOverflow => "number too small to fit in target type"@,
    }
}

/// A successful scan reads only digits and yields their value.
pub proof fn lemma_scan_ok(digits: Seq<char>, limit: nat, overflow: IntErrorKind)
    ensures
        scan_digits(digits, limit, overflow) is Ok ==> all_digits(digits)
            && scan_digits(digits, limit, overflow) == Ok::<nat, IntErrorKind>(digits_value(digits))
            && digits_value(digits) <= limit,
        all_digits(digits) && digits_value(digits) <= limit ==> scan_digits(digits, limit, overflow)
            == Ok::<nat, IntErrorKind>(digits_value(digits)),
    decreases digits.len(),
{
    if digits.len() > 0 {
        lemma_scan_ok(digits.drop_last(), limit, overflow);
        assert forall|i: int| 0 <= i < digits.len() - 1 implies #[trigger] digits.drop_last()[i]
            == digits[i] by {}
        if all_digits(digits) {
            assert(all_digits(digits.drop_last())) by {
                assert forall|i: int| 0 <= i < digits.drop_last().len() implies is_digit(
                    #[trigger] digits.drop_last()[i],
                ) by {
                    assert(digits.drop_last()[i] == digits[i]);
                }
            }
            assert(is_digit(digits[digits.len() - 1]));
            if digits_value(digits) <= limit {
                assert(digits_value(digits.drop_last()) <= digits_value(digits));
            }
        }
        if scan_digits(digits, limit, overflow) is Ok {
            assert forall|i: int| 0 <= i < digits.len() implies is_digit(#[trigger] digits[i]) by {
                if i < digits.len() - 1 {
                    assert(digits[i] == digits.drop_last()[i]);
                }
            }
        }
    }
}

/// A successful unsigned parse stays within its maximum.
pub proof fn lemma_parse_unsigned_bound(s: Seq<char>, max: nat)
    ensures
        parse_unsigned(s, max) matches Ok(v) ==> v <= max,
{
    lemma_scan_ok(unsigned_body(s), max, IntErrorKind::PosOverflow);
}

/// The decimal representation consists of digits whose value is the number itself.
pub proof fn lemma_decimal_digits(n: nat)
    ensures
        all_digits(decimal(n)),
        digits_value(decimal(n)) == n,
        decimal(n).len() >= 1,
        decimal(n)[0] != '+' && decimal(n)[0] != '-',
    decreases n,
{
    if n >= 10 {
        lemma_decimal_digits(n / 10);
        let d = decimal(n);
        assert(d.drop_last() =~= decimal(n / 10));
        assert forall|i: int| 0 <= i < d.len() implies is_digit(#[trigger] d[i]) by {
            if i < d.len() - 1 {
                assert(d[i] == decimal(n / 10)[i]);
            }
        }
        assert(d[0] == decimal(n / 10)[0]);
        assert(d.last() == digit_char(n % 10));
        assert(digit_value(digit_char(n % 10)) == n % 10);
        assert(n == (n / 10) * 10 + n % 10);
        assert(digits_value(d) == digits_value(d.drop_last()) * 10 + digit_value(d.last()));
        assert(digits_value(d) == n);
    } else {
        assert(decimal(n).drop_last() =~= Seq::<char>::empty());
        assert(digit_value(digit_char(n)) == n);
        assert(digits_value(decimal(n)) == digits_value(Seq::<char>::empty()) * 10 + digit_value(digit_char(n)));
    }
}

/// Rendering a number in decimal and parsing it back gives the number again.
pub proof fn lemma_unsigned_round_trip(n: nat, max: nat)
    requires
        n <= max,
    ensures
        parse_unsigned(decimal(n), max) == Ok::<nat, IntErrorKind>(n),
{
    lemma_decimal_digits(n);
    lemma_scan_ok(decimal(n), max, IntErrorKind::PosOverflow);
}

/// Rendering a signed number in decimal and parsing it back gives the number again.
pub proof fn law_signed_round_trip(i: int, neg_limit: nat, max: nat)
    requires
        -neg_limit <= i <= max,
    ensures
        parse_signed(signed_decimal(i), neg_limit, max) == Ok::<int, IntErrorKind>(i),
{
    if i < 0 {
        let m = (-i) as nat;
        lemma_decimal_digits(m);
        lemma_scan_ok(decimal(m), neg_limit, IntErrorKind::NegOverflow);
        let s = signed_decimal(i);
        assert(s.drop_first() =~= decimal(m));
    } else {
        lemma_decimal_digits(i as nat);
        lemma_scan_ok(decimal(i as nat), max, IntErrorKind::PosOverflow);
    }
}

/// The decimal digits of `n`.
pub fn decimal_chars(n: u64) -> (v: Vec<char>)
    ensures
        v@ == decimal(n as nat),
    decreases n,
{
    let d = n % 10;
    let c = ((d as u32) + 48u32) as u8 as char;
    if n < 10 {
        let mut v: Vec<char> = Vec::new();
        v.push(c);
        v
    } else {
        let mut v = decimal_chars(n / 10);
        v.push(c);
        v
    }
}

/// The decimal digits of `i`, preceded by `-` when it is negative.
pub fn signed_decimal_chars(i: i64) -> (v: Vec<char>)
    ensures
        v@ == signed_decimal(i as int),
{
    if i < 0 {
        let magnitude: u64 = (0i128 - (i as i128)) as u64;
        let digits = decimal_chars(magnitude);
        let mut v: Vec<char> = Vec::new();
        v.push('-');
        let mut k: usize = 0;
        while k < digits.len()
            invariant
                k <= digits.len(),
                v@ == seq!['-'] + digits@.take(k as int),
            decreases digits.len() - k,
        {
            v.push(digits[k]);
            assert(digits@.take(k + 1) == digits@.take(k as int).push(digits@[k as int]));
            k = k + 1;
        }
        assert(digits@.take(digits.len() as int) == digits@);
        v
    } else {
        decimal_chars(i as u64)
    }
}

/// Scans digits left to right against a limit, as the standard library does.
fn scan_digits_exec(digits: &[char], start: usize, limit: u64, overflow: IntErrorKind) -> (r: Result<u64, IntErrorKind>)
    requires
        start <= digits@.len(),
    ensures
        match r {
            Ok(v) => scan_digits(digits@.subrange(start as int, digits@.len() as int), limit as nat, overflow) == Ok::<nat, IntErrorKind>(v as nat),
            Err(e) => scan_digits(digits@.subrange(start as int, digits@.len() as int), limit as nat, overflow) == Err::<nat, IntErrorKind>(e),
        },
{
    let mut value: u64 = 0;
    let mut k: usize = start;
    while k < digits.len()
        invariant
            start <= k <= digits@.len(),
            value <= limit,
            scan_digits(digits@.subrange(start as int, k as int), limit as nat, overflow) == Ok::<nat, IntErrorKind>(value as nat),
        decreases digits.len() - k,
    {
        let c = digits[k];
        let ghost prefix = digits@.subrange(start as int, k + 1);
        assert(prefix.drop_last() =~= digits@.subrange(start as int, k as int));
        assert(prefix.last() == c);
        if !('0' <= c && c <= '9') {
            assert(digits@.subrange(start as int, digits@.len() as int).take((k - start) + 1) =~= prefix);
            assert(scan_digits(prefix, limit as nat, overflow) is Err);
            proof { lemma_scan_prefix_err(digits@.subrange(start as int, digits@.len() as int), (k - start) as nat + 1, limit as nat, overflow); }
            return Err(IntErrorKind::InvalidDigit);
        }
        let d: u64 = ((c as u32) - 48u32) as u64;
        if d > limit || value > (limit - d) / 10 {
            assert(value * 10 + d > limit) by (nonlinear_arith)
                requires d > limit || value > (limit - d) / 10, d <= limit ==> (limit - d) / 10 * 10 + 10 > limit - d;
            assert(digits@.subrange(start as int, digits@.len() as int).take((k - start) + 1) =~= prefix);
            assert(scan_digits(prefix, limit as nat, overflow) is Err);
            proof { lemma_scan_prefix_err(digits@.subrange(start as int, digits@.len() as int), (k - start) as nat + 1, limit as nat, overflow); }
            return Err(overflow);
        }
        assert(value * 10 + d <= limit) by (nonlinear_arith)
            requires value <= (limit - d) / 10, d <= limit;
        value = value * 10 + d;
        k = k + 1;
    }
    Ok(value)
}

/// When a prefix of the digits already fails, the whole scan fails the same way.
proof fn lemma_scan_prefix_err(digits: Seq<char>, n: nat, limit: nat, overflow: IntErrorKind)
    requires
        n <= digits.len(),
        scan_digits(digits.take(n as int), limit, overflow) is Err,
    ensures
        scan_digits(digits, limit, overflow) == scan_digits(digits.take(n as int), limit, overflow),
    decreases digits.len() - n,
{
    if n < digits.len() {
        assert(digits.take(n as int + 1).drop_last() =~= digits.take(n as int));
        lemma_scan_prefix_err(digits, n + 1, limit, overflow);
    } else {
        assert(digits.take(n as int) =~= digits);
    }
}

/// Parses an unsigned integer no larger than `max`.
pub fn parse_unsigned_chars(s: &[char], max: u64) -> (r: Result<u64, IntErrorKind>)
    ensures
        match r {
            Ok(v) => parse_unsigned(s@, max as nat) == Ok::<nat, IntErrorKind>(v as nat),
            Err(e) => parse_unsigned(s@, max as nat) == Err::<nat, IntErrorKind>(e),
        },
{
    if s.len() == 0 {
        return Err(IntErrorKind::Empty);
    }
    if s.len() == 1 && (s[0] == '+' || s[0] == '-') {
        return Err(IntErrorKind::InvalidDigit);
    }
    let start: usize = if s[0] == '+' { 1 } else { 0 };
    assert(unsigned_body(s@) =~= s@.subrange(start as int, s@.len() as int));
    scan_digits_exec(s, start, max, IntErrorKind::PosOverflow)
}

/// Parses a signed integer in `[-neg_limit, max]`.
pub fn parse_signed_chars(s: &[char], neg_limit: u64, max: u64) -> (r: Result<i128, IntErrorKind>)
    ensures
        match r {
            Ok(v) => parse_signed(s@, neg_limit as nat, max as nat) == Ok::<int, IntErrorKind>(v as int)
                && -(neg_limit as int) <= v <= max,
            Err(e) => parse_signed(s@, neg_limit as nat, max as nat) == Err::<int, IntErrorKind>(e),
        },
{
    if s.len() == 0 {
        return Err(IntErrorKind::Empty);
    }
    if s.len() == 1 && (s[0] == '+' || s[0] == '-') {
        return Err(IntErrorKind::InvalidDigit);
    }
    if s[0] == '-' {
        assert(s@.drop_first() =~= s@.subrange(1, s@.len() as int));
        match scan_digits_exec(s, 1, neg_limit, IntErrorKind::NegOverflow) {
            Ok(v) => Ok(0i128 - (v as i128)),
            Err(e) => Err(e),
        }
    } else {
        let start: usize = if s[0] == '+' { 1 } else { 0 };
        assert(unsigned_body(s@) =~= s@.subrange(start as int, s@.len() as int));
        match scan_digits_exec(s, start, max, IntErrorKind::PosOverflow) {
            Ok(v) => Ok(v as i128),
            Err(e) => Err(e),
        }
    }
}

/// The standard library's description of an integer parse failure.
pub fn int_error_message(kind: IntErrorKind) -> (r: &'static str)
    ensures
        r@ == int_error_text(kind),
{
    match kind {
        IntErrorKind::Empty => "cannot parse integer from empty string",
        IntErrorKind::InvalidDigit => "invalid digit found in string",
        IntErrorKind::PosOverflow => "number too large to fit in target type",
        IntErrorKind::NegOverflow => "number too small to fit in target type",
    }
}

} // verus!
