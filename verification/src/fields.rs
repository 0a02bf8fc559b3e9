//! Rendering and parsing of order field values.
//!
//! Orders and trigger conditions are exchanged as sequences of string
//! fields.  This module renders integers, fixed-point decimal amounts and
//! flags into their field form and parses them back, with the sentinel
//! convention of [`crate::common`] kept distinguishable from every
//! legitimate value.

use vstd::prelude::*;
use vstd::string::StrSliceExecFns;
use vstd::string::StringExecFns;
use crate::common::UNSET_DOUBLE;

verus! {

/// Why a field failed to parse: it does not match the expected grammar, or
/// the value it denotes does not fit the field's machine type.
#[derive(Clone, Copy, Debug, PartialEq, Eq, Structural)]
pub enum ParseError {
    Malformed,
    OutOfRange,
}

/// The character for one decimal digit value.
pub open spec fn digit_char(d: int) -> char {
    if d == 0 { '0' }
    else if d == 1 { '1' }
    else if d == 2 { '2' }
    else if d == 3 { '3' }
    else if d == 4 { '4' }
    else if d == 5 { '5' }
    else if d == 6 { '6' }
    else if d == 7 { '7' }
    else if d == 8 { '8' }
    else { '9' }
}

/// Whether `c` is a decimal digit.
pub open spec fn is_digit(c: char) -> bool {
    c == '0' || c == '1' || c == '2' || c == '3' || c == '4'
    || c == '5' || c == '6' || c == '7' || c == '8' || c == '9'
}

/// The value of one decimal digit character.
pub open spec fn digit_val(c: char) -> int {
    if c == '0' { 0 }
    else if c == '1' { 1 }
    else if c == '2' { 2 }
    else if c == '3' { 3 }
    else if c == '4' { 4 }
    else if c == '5' { 5 }
    else if c == '6' { 6 }
    else if c == '7' { 7 }
    else if c == '8' { 8 }
    else { 9 }
}

/// The decimal representation of a natural number, most significant digit
/// first, without leading zeros (`0` is rendered as the single digit `0`).
pub open spec fn dec_rep(n: nat) -> Seq<char>
    decreases n,
{
    if n < 10 {
        seq![digit_char(n as int)]
    } else {
        dec_rep(n / 10) + seq![digit_char((n % 10) as int)]
    }
}

/// The decimal representation of an integer, with a leading `-` when
/// negative.
pub open spec fn int_rep(v: int) -> Seq<char> {
    if v >= 0 {
        dec_rep(v as nat)
    } else {
        seq!['-'] + dec_rep((-v) as nat)
    }
}

/// The magnitude of an integer.
pub open spec fn abs_of(v: int) -> nat {
    if v >= 0 { v as nat } else { (-v) as nat }
}

/// Exactly four fractional digits, most significant first, for a value
/// `0 <= f < 10000` of ten-thousandths.
pub open spec fn frac_rep(f: int) -> Seq<char> {
    seq![
        digit_char(f / 1000 % 10),
        digit_char(f / 100 % 10),
        digit_char(f / 10 % 10),
        digit_char(f % 10),
    ]
}

/// The decimal form of a fixed-point amount of ten-thousandths: sign,
/// integer part, a point, and exactly four fractional digits
/// (`505000` renders as `50.5000`).
pub open spec fn fixed_rep(v: int) -> Seq<char> {
    let sign: Seq<char> = if v < 0 { seq!['-'] } else { Seq::empty() };
    sign + dec_rep(abs_of(v) / 10000) + seq!['.'] + frac_rep((abs_of(v) % 10000) as int)
}

/// The marker rendered for an unset decimal field, distinguishable from the
/// rendering of every legitimate amount, zero included.
pub open spec fn unset_marker() -> Seq<char> {
    "UNSET"@
}

/// The rendering of an optional decimal field: the sentinel becomes the
/// marker, every other value its fixed-point decimal form.
pub open spec fn opt_double_rep(v: int) -> Seq<char> {
    if v == UNSET_DOUBLE as int {
        unset_marker()
    } else {
        fixed_rep(v)
    }
}

/// The field form of a flag.
pub open spec fn bool_rep(b: bool) -> Seq<char> {
    if b { "1"@ } else { "0"@ }
}

/// The field form of a condition's conjunction flag: `a` chains the next
/// condition with AND, `o` with OR.
pub open spec fn conjunction_rep(b: bool) -> Seq<char> {
    if b { "a"@ } else { "o"@ }
}

fn digit_str(d: u64) -> (s: &'static str)
    requires
        d < 10,
    ensures
        s@ == seq![digit_char(d as int)],
{
    if d == 0 {
        proof { reveal_strlit("0"); }
        "0"
    } else if d == 1 {
        proof { reveal_strlit("1"); }
        "1"
    } else if d == 2 {
        proof { reveal_strlit("2"); }
        "2"
    } else if d == 3 {
        proof { reveal_strlit("3"); }
        "3"
    } else if d == 4 {
        proof { reveal_strlit("4"); }
        "4"
    } else if d == 5 {
        proof { reveal_strlit("5"); }
        "5"
    } else if d == 6 {
        proof { reveal_strlit("6"); }
        "6"
    } else if d == 7 {
        proof { reveal_strlit("7"); }
        "7"
    } else if d == 8 {
        proof { reveal_strlit("8"); }
        "8"
    } else {
        proof { reveal_strlit("9"); }
        "9"
    }
}

/// Renders a natural number as decimal digits.
pub fn render_u64(n: u64) -> (s: String)
    ensures
        s@ == dec_rep(n as nat),
    decreases n,
{
    if n < 10 {
        String::from_str(digit_str(n))
    } else {
        let mut s = render_u64(n / 10);
        s.append(digit_str(n % 10));
        s
    }
}

fn neg_mag(v: i64) -> (m: u64)
    requires
        v < 0,
    ensures
        m as int == -(v as int),
{
    if v == i64::MIN {
        9223372036854775808u64
    } else {
        (-v) as u64
    }
}

/// Renders a signed integer as decimal digits with an optional leading `-`.
pub fn render_i64(v: i64) -> (s: String)
    ensures
        s@ == int_rep(v as int),
{
    if v >= 0 {
        render_u64(v as u64)
    } else {
        let mag = neg_mag(v);
        proof { reveal_strlit("-"); }
        let mut s = String::from_str("-");
        let digits = render_u64(mag);
        s.append(digits.as_str());
        s
    }
}

/// Renders a 32-bit integer as decimal digits with an optional leading `-`.
pub fn render_i32(v: i32) -> (s: String)
    ensures
        s@ == int_rep(v as int),
{
    render_i64(v as i64)
}

/// Renders a fixed-point amount of ten-thousandths in decimal form.
pub fn render_fixed(v: i64) -> (s: String)
    ensures
        s@ == fixed_rep(v as int),
{
    let mag: u64 = if v >= 0 { v as u64 } else { neg_mag(v) };
    let q = mag / 10000;
    let f = mag % 10000;
    let mut s = if v < 0 {
        proof { reveal_strlit("-"); }
        String::from_str("-")
    } else {
        String::new()
    };
    let digits = render_u64(q);
    s.append(digits.as_str());
    proof { reveal_strlit("."); }
    s.append(".");
    s.append(digit_str(f / 1000 % 10));
    s.append(digit_str(f / 100 % 10));
    s.append(digit_str(f / 10 % 10));
    s.append(digit_str(f % 10));
    s
}

/// Renders an optional decimal field: the sentinel becomes the unset
/// marker, every other value its fixed-point decimal form.
pub fn render_opt_double(v: i64) -> (s: String)
    ensures
        s@ == opt_double_rep(v as int),
{
    if v == UNSET_DOUBLE {
        String::from_str("UNSET")
    } else {
        render_fixed(v)
    }
}

/// Renders a flag field.
pub fn render_bool(b: bool) -> (s: String)
    ensures
        s@ == bool_rep(b),
{
    if b {
        String::from_str("1")
    } else {
        String::from_str("0")
    }
}

/// Renders a conjunction flag field.
pub fn render_conjunction(b: bool) -> (s: String)
    ensures
        s@ == conjunction_rep(b),
{
    if b {
        String::from_str("a")
    } else {
        String::from_str("o")
    }
}

/// Whether every character of `s` is a decimal digit.
pub open spec fn all_digits(s: Seq<char>) -> bool {
    forall|i: int| 0 <= i < s.len() ==> is_digit(#[trigger] s[i])
}

/// The value of a digit sequence read most significant digit first.
pub open spec fn digits_val(s: Seq<char>) -> int
    decreases s.len(),
{
    if s.len() == 0 {
        0
    } else {
        digits_val(s.drop_last()) * 10 + digit_val(s.last())
    }
}

/// Ten to the given power.
pub open spec fn pow10(n: nat) -> int
    decreases n,
{
    if n == 0 { 1 } else { 10 * pow10((n - 1) as nat) }
}

/// The value an integer field denotes: an optional leading `-`, then at
/// least one digit.
pub open spec fn parse_int_spec(s: Seq<char>) -> Option<int> {
    if s.len() > 0 && s[0] == '-' {
        let d = s.skip(1);
        if d.len() > 0 && all_digits(d) {
            Option::Some(-digits_val(d))
        } else {
            Option::None
        }
    } else if s.len() > 0 && all_digits(s) {
        Option::Some(digits_val(s))
    } else {
        Option::None
    }
}

/// The index of the first `.` in `b`, or `b.len()` when there is none.
pub open spec fn first_dot(b: Seq<char>) -> int
    decreases b.len(),
{
    if b.len() == 0 {
        0
    } else if b[0] == '.' {
        0
    } else {
        1 + first_dot(b.skip(1))
    }
}

/// The weight of the last fractional digit when `l` digits follow the
/// point.
pub open spec fn frac_scale(l: int) -> int {
    if l == 1 { 1000 } else if l == 2 { 100 } else if l == 3 { 10 } else { 1 }
}

/// The unsigned reading of a decimal field body: at least one integer
/// digit, then optionally a point and one to four fractional digits; the
/// result counts ten-thousandths.
pub open spec fn parse_fixed_spec_body(b: Seq<char>) -> Option<int> {
    let p = first_dot(b);
    if p == b.len() {
        if b.len() >= 1 && all_digits(b) {
            Option::Some(digits_val(b) * 10000)
        } else {
            Option::None
        }
    } else {
        let ip = b.take(p);
        let fp = b.skip(p + 1);
        if ip.len() >= 1 && all_digits(ip) && 1 <= fp.len() <= 4 && all_digits(fp) {
            Option::Some(digits_val(ip) * 10000 + digits_val(fp) * frac_scale(fp.len() as int))
        } else {
            Option::None
        }
    }
}

/// The fixed-point amount of ten-thousandths a decimal field denotes: an
/// optional leading `-`, then a decimal field body.
pub open spec fn parse_fixed_spec(s: Seq<char>) -> Option<int> {
    let neg = s.len() > 0 && s[0] == '-';
    let b = if neg { s.skip(1) } else { s };
    match parse_fixed_spec_body(b) {
        Option::Some(m) => Option::Some(if neg { -m } else { m }),
        Option::None => Option::None,
    }
}

/// The flag a field denotes.
pub open spec fn parse_bool_spec(s: Seq<char>) -> Option<bool> {
    if s == "1"@ {
        Option::Some(true)
    } else if s == "0"@ {
        Option::Some(false)
    } else {
        Option::None
    }
}

/// The conjunction flag a field denotes.
pub open spec fn parse_conjunction_spec(s: Seq<char>) -> Option<bool> {
    if s == "a"@ {
        Option::Some(true)
    } else if s == "o"@ {
        Option::Some(false)
    } else {
        Option::None
    }
}

/// The outcome of parsing a signed 64-bit integer field.
pub open spec fn parse_i64_res(s: Seq<char>) -> Result<i64, ParseError> {
    match parse_int_spec(s) {
        Option::None => Result::Err(ParseError::Malformed),
        Option::Some(v) => if i64::MIN <= v <= i64::MAX {
            Result::Ok(v as i64)
        } else {
            Result::Err(ParseError::OutOfRange)
        },
    }
}

/// The outcome of parsing a signed 32-bit integer field.
pub open spec fn parse_i32_res(s: Seq<char>) -> Result<i32, ParseError> {
    match parse_int_spec(s) {
        Option::None => Result::Err(ParseError::Malformed),
        Option::Some(v) => if i32::MIN <= v <= i32::MAX {
            Result::Ok(v as i32)
        } else {
            Result::Err(ParseError::OutOfRange)
        },
    }
}

/// The outcome of parsing a fixed-point decimal field.
pub open spec fn parse_fixed_res(s: Seq<char>) -> Result<i64, ParseError> {
    match parse_fixed_spec(s) {
        Option::None => Result::Err(ParseError::Malformed),
        Option::Some(v) => if i64::MIN <= v <= i64::MAX {
            Result::Ok(v as i64)
        } else {
            Result::Err(ParseError::OutOfRange)
        },
    }
}

/// The outcome of parsing a flag field.
pub open spec fn parse_bool_res(s: Seq<char>) -> Result<bool, ParseError> {
    match parse_bool_spec(s) {
        Option::None => Result::Err(ParseError::Malformed),
        Option::Some(v) => Result::Ok(v),
    }
}

/// The outcome of parsing a conjunction-flag field.
pub open spec fn parse_conjunction_res(s: Seq<char>) -> Result<bool, ParseError> {
    match parse_conjunction_spec(s) {
        Option::None => Result::Err(ParseError::Malformed),
        Option::Some(v) => Result::Ok(v),
    }
}

/// The word naming a comparison direction.
pub open spec fn direction_rep(is_more: bool) -> Seq<char> {
    if is_more { "above"@ } else { "below"@ }
}

/// Names a comparison direction.
pub fn direction_name(is_more: bool) -> (s: &'static str)
    ensures
        s@ == direction_rep(is_more),
{
    if is_more { "above" } else { "below" }
}

/// Compares two strings character by character.
pub fn str_eq(a: &str, b: &str) -> (r: bool)
    ensures
        r == (a@ == b@),
{
    let n = a.unicode_len();
    if n != b.unicode_len() {
        return false;
    }
    let mut i: usize = 0;
    while i < n
        invariant
            0 <= i <= n,
            n == a@.len(),
            n == b@.len(),
            forall|j: int| 0 <= j < i ==> a@[j] == b@[j],
        decreases n - i,
    {
        if a.get_char(i) != b.get_char(i) {
            return false;
        }
        i += 1;
    }
    proof {
        assert(a@ =~= b@);
    }
    true
}

fn digit_of(c: char) -> (r: Option<u64>)
    ensures
        r is Some <==> is_digit(c),
        r is Some ==> r->0 == digit_val(c) && r->0 < 10,
{
    if c == '0' { Some(0) }
    else if c == '1' { Some(1) }
    else if c == '2' { Some(2) }
    else if c == '3' { Some(3) }
    else if c == '4' { Some(4) }
    else if c == '5' { Some(5) }
    else if c == '6' { Some(6) }
    else if c == '7' { Some(7) }
    else if c == '8' { Some(8) }
    else if c == '9' { Some(9) }
    else { None }
}

proof fn lemma_all_digits_sub(s: Seq<char>, t: Seq<char>, off: int)
    requires
        all_digits(s),
        0 <= off,
        off + t.len() <= s.len(),
        forall|j: int| 0 <= j < t.len() ==> (#[trigger] t[j]) == s[j + off],
    ensures
        all_digits(t),
{
    assert forall|j: int| 0 <= j < t.len() implies is_digit(#[trigger] t[j]) by {
        assert(t[j] == s[j + off]);
    }
}

/// A digit sequence denotes a value of at least zero.
pub proof fn lemma_digits_val_nonneg(s: Seq<char>)
    requires
        all_digits(s),
    ensures
        digits_val(s) >= 0,
    decreases s.len(),
{
    if s.len() > 0 {
        lemma_all_digits_sub(s, s.drop_last(), 0);
        lemma_digits_val_nonneg(s.drop_last());
    }
}

/// A digit sequence of length `n` denotes a value below ten to the `n`.
pub proof fn lemma_digits_val_upper(s: Seq<char>)
    requires
        all_digits(s),
    ensures
        digits_val(s) < pow10(s.len()),
    decreases s.len(),
{
    if s.len() > 0 {
        lemma_all_digits_sub(s, s.drop_last(), 0);
        lemma_digits_val_upper(s.drop_last());
        lemma_digits_val_nonneg(s.drop_last());
    }
}

/// Reading one more digit multiplies the prefix value by ten and adds the
/// digit.
pub proof fn lemma_digits_val_step(s: Seq<char>, i: int)
    requires
        0 <= i < s.len(),
    ensures
        digits_val(s.take(i + 1)) == digits_val(s.take(i)) * 10 + digit_val(s[i]),
{
    assert(s.take(i + 1).drop_last() =~= s.take(i));
    assert(s.take(i + 1).last() == s[i]);
}

/// The value of a digit sequence is at least the value of any prefix.
pub proof fn lemma_digits_val_prefix(s: Seq<char>, i: int)
    requires
        all_digits(s),
        0 <= i <= s.len(),
    ensures
        digits_val(s.take(i)) <= digits_val(s),
    decreases s.len() - i,
{
    if i == s.len() {
        assert(s.take(i) =~= s);
    } else {
        lemma_digits_val_step(s, i);
        lemma_all_digits_sub(s, s.take(i), 0);
        lemma_digits_val_nonneg(s.take(i));
        lemma_digits_val_prefix(s, i + 1);
    }
}

/// Each digit value renders as a digit character denoting it back.
pub proof fn lemma_digit_char_val(d: int)
    requires
        0 <= d < 10,
    ensures
        is_digit(digit_char(d)),
        digit_val(digit_char(d)) == d,
{
}

/// The decimal representation of a natural number is a nonempty digit
/// sequence denoting the number itself.
pub proof fn lemma_dec_rep_correct(n: nat)
    ensures
        all_digits(dec_rep(n)),
        digits_val(dec_rep(n)) == n,
        dec_rep(n).len() >= 1,
    decreases n,
{
    if n < 10 {
        lemma_digit_char_val(n as int);
        assert(dec_rep(n).drop_last() =~= Seq::<char>::empty());
        assert(dec_rep(n).last() == digit_char(n as int));
        assert(digits_val(Seq::<char>::empty()) == 0);
        assert(digits_val(dec_rep(n)) == digits_val(dec_rep(n).drop_last()) * 10 + digit_val(dec_rep(n).last()));
    } else {
        lemma_dec_rep_correct(n / 10);
        let pre = dec_rep(n / 10);
        let c = digit_char((n % 10) as int);
        lemma_digit_char_val((n % 10) as int);
        assert((pre + seq![c]).drop_last() =~= pre);
        assert((pre + seq![c]).last() == c);
        assert forall|i: int| 0 <= i < dec_rep(n).len() implies is_digit(#[trigger] dec_rep(n)[i]) by {
            if i < pre.len() {
                assert(dec_rep(n)[i] == pre[i]);
            } else {
                assert(dec_rep(n)[i] == c);
            }
        }
    }
}

fn parse_digits_u64(s: &str, from: usize, to: usize, cap: u64) -> (r: Result<u64, ParseError>)
    requires
        from <= to,
        to <= s@.len(),
    ensures
        ({
            let seg = s@.subrange(from as int, to as int);
            if !(seg.len() >= 1 && all_digits(seg)) {
                r == Err::<u64, ParseError>(ParseError::Malformed)
            } else if digits_val(seg) > cap {
                r == Err::<u64, ParseError>(ParseError::OutOfRange)
            } else {
                r == Ok::<u64, ParseError>(digits_val(seg) as u64)
            }
        }),
{
    let ghost seg = s@.subrange(from as int, to as int);
    if from == to {
        return Err(ParseError::Malformed);
    }
    // first pass: every character must be a digit
    let mut i = from;
    while i < to
        invariant
            from <= i <= to,
            to <= s@.len(),
            seg == s@.subrange(from as int, to as int),
            forall|j: int| 0 <= j < i - from ==> is_digit(#[trigger] seg[j]),
        decreases to - i,
    {
        if digit_of(s.get_char(i)).is_none() {
            proof {
                assert(seg[i - from] == s@[i as int]);
            }
            return Err(ParseError::Malformed);
        }
        proof {
            assert(seg[i - from] == s@[i as int]);
        }
        i += 1;
    }
    proof {
        assert(all_digits(seg));
    }
    // second pass: accumulate, rejecting values above the cap
    let mut acc: u64 = 0;
    let mut k = from;
    while k < to
        invariant
            from <= k <= to,
            to <= s@.len(),
            seg == s@.subrange(from as int, to as int),
            all_digits(seg),
            acc as int == digits_val(seg.take(k - from)),
            acc <= cap,
        decreases to - k,
    {
        let c = s.get_char(k);
        proof {
            assert(seg[k - from] == s@[k as int]);
        }
        let d = match digit_of(c) {
            Some(d) => d,
            None => {
                proof {
                    assert(false);
                }
                0
            },
        };
        proof {
            lemma_digits_val_step(seg, k - from);
        }
        if acc > cap / 10 || d > cap - acc * 10 {
            proof {
                lemma_digits_val_prefix(seg, k - from + 1);
            }
            return Err(ParseError::OutOfRange);
        }
        acc = acc * 10 + d;
        k += 1;
    }
    proof {
        assert(seg.take(to - from) =~= seg);
    }
    Ok(acc)
}

/// Parses a signed 64-bit integer field.
pub fn parse_i64(s: &str) -> (r: Result<i64, ParseError>)
    ensures
        r == parse_i64_res(s@),
        match parse_int_spec(s@) {
            Option::None => r == Err::<i64, ParseError>(ParseError::Malformed),
            Option::Some(v) => if i64::MIN <= v <= i64::MAX {
                r == Ok::<i64, ParseError>(v as i64)
            } else {
                r == Err::<i64, ParseError>(ParseError::OutOfRange)
            },
        },
{
    let n = s.unicode_len();
    if n == 0 {
        return Err(ParseError::Malformed);
    }
    let neg = s.get_char(0) == '-';
    let start: usize = if neg { 1 } else { 0 };
    let ghost digs: Seq<char> = if neg { s@.skip(1) } else { s@ };
    proof {
        assert(digs =~= s@.subrange(start as int, n as int));
    }
    let cap: u64 = if neg { 9223372036854775808u64 } else { 9223372036854775807u64 };
    match parse_digits_u64(s, start, n, cap) {
        Err(e) => Err(e),
        Ok(m) => {
            proof {
                lemma_digits_val_nonneg(digs);
                assert(m as int == digits_val(digs));
                assert(m <= cap);
            }
            if neg {
                if m == 9223372036854775808u64 {
                    Ok(i64::MIN)
                } else {
                    Ok(-(m as i64))
                }
            } else {
                Ok(m as i64)
            }
        },
    }
}

/// Parses a signed 32-bit integer field.
pub fn parse_i32(s: &str) -> (r: Result<i32, ParseError>)
    ensures
        r == parse_i32_res(s@),
        match parse_int_spec(s@) {
            Option::None => r == Err::<i32, ParseError>(ParseError::Malformed),
            Option::Some(v) => if i32::MIN <= v <= i32::MAX {
                r == Ok::<i32, ParseError>(v as i32)
            } else {
                r == Err::<i32, ParseError>(ParseError::OutOfRange)
            },
        },
{
    match parse_i64(s) {
        Err(e) => Err(e),
        Ok(v) => {
            if -2147483648i64 <= v && v <= 2147483647i64 {
                Ok(v as i32)
            } else {
                Err(ParseError::OutOfRange)
            }
        },
    }
}

proof fn lemma_first_dot_at(b: Seq<char>, p: int)
    requires
        0 <= p <= b.len(),
        forall|j: int| 0 <= j < p ==> (#[trigger] b[j]) != '.',
        p < b.len() ==> b[p] == '.',
    ensures
        first_dot(b) == p,
    decreases b.len(),
{
    if b.len() == 0 {
    } else if b[0] == '.' {
        assert(p == 0);
    } else {
        let t = b.skip(1);
        assert forall|j: int| 0 <= j < p - 1 implies (#[trigger] t[j]) != '.' by {
            assert(t[j] == b[j + 1]);
        }
        if p - 1 < t.len() {
            assert(t[p - 1] == b[p]);
        }
        lemma_first_dot_at(t, p - 1);
    }
}

/// Parses a fixed-point decimal field into ten-thousandths.
pub fn parse_fixed(s: &str) -> (r: Result<i64, ParseError>)
    ensures
        r == parse_fixed_res(s@),
        match parse_fixed_spec(s@) {
            Option::None => r == Err::<i64, ParseError>(ParseError::Malformed),
            Option::Some(v) => if i64::MIN <= v <= i64::MAX {
                r == Ok::<i64, ParseError>(v as i64)
            } else {
                r == Err::<i64, ParseError>(ParseError::OutOfRange)
            },
        },
{
    let n = s.unicode_len();
    let neg = if n > 0 { s.get_char(0) == '-' } else { false };
    let start: usize = if neg { 1 } else { 0 };
    let ghost b: Seq<char> = if neg { s@.skip(1) } else { s@ };
    proof {
        assert(b =~= s@.subrange(start as int, n as int));
    }
    // find the first point
    let mut p = start;
    while p < n
        invariant
            start <= p <= n,
            n == s@.len(),
            start <= n,
            b == s@.subrange(start as int, n as int),
            forall|j: int| 0 <= j < p - start ==> (#[trigger] b[j]) != '.',
        ensures
            start <= p <= n,
            forall|j: int| 0 <= j < p - start ==> (#[trigger] b[j]) != '.',
            p < n ==> b[p - start] == '.',
        decreases n - p,
    {
        if s.get_char(p) == '.' {
            proof {
                assert(b[p - start] == s@[p as int]);
            }
            break;
        }
        proof {
            assert(b[p - start] == s@[p as int]);
        }
        p += 1;
    }
    proof {
        lemma_first_dot_at(b, p - start);
    }
    let cap: u64 = if neg { 9223372036854775808u64 } else { 9223372036854775807u64 };
    if p == n {
        // no fractional part
        match parse_digits_u64(s, start, n, cap / 10000) {
            Err(e) => {
                proof {
                    if b.len() >= 1 && all_digits(b) {
                        // only the cap can have failed, so the amount is out of range
                        assert(e == ParseError::OutOfRange);
                        assert(digits_val(b) >= cap / 10000 + 1);
                        assert((cap / 10000 + 1) * 10000 > cap);
                        lemma_mul_le_mono(cap / 10000 + 1, digits_val(b), 10000);
                    }
                }
                Err(e)
            },
            Ok(m) => {
                proof {
                    lemma_digits_val_nonneg(b);
                    lemma_mul_le_mono(digits_val(b), cap as int / 10000, 10000);
                }
                finish_fixed(neg, m * 10000)
            },
        }
    } else {
        // fractional digits: between one and four of them
        let flen = n - (p + 1);
        if flen < 1 || flen > 4 {
            return Err(ParseError::Malformed);
        }
        let ghost fp = b.skip(p - start + 1);
        proof {
            assert(fp =~= s@.subrange(p + 1, n as int));
        }
        let scale: u64 = if flen == 1 { 1000 } else if flen == 2 { 100 } else if flen == 3 { 10 } else { 1 };
        let f = match parse_digits_u64(s, p + 1, n, 9999) {
            Err(_) => {
                proof {
                    if fp.len() >= 1 && all_digits(fp) {
                        lemma_digits_val_upper(fp);
                        lemma_pow10_small();
                    }
                }
                return Err(ParseError::Malformed);
            },
            Ok(f) => f,
        };
        let ghost ip = b.take(p - start);
        proof {
            assert(ip =~= s@.subrange(start as int, p as int));
            lemma_digits_val_upper(fp);
            lemma_digits_val_nonneg(fp);
            lemma_pow10_small();
        }
        match parse_digits_u64(s, start, p, cap / 10000) {
            Err(e) => {
                proof {
                    if ip.len() >= 1 && all_digits(ip) {
                        assert(e == ParseError::OutOfRange);
                        assert(digits_val(ip) >= cap / 10000 + 1);
                        assert((cap / 10000 + 1) * 10000 > cap);
                        lemma_mul_le_mono(cap / 10000 + 1, digits_val(ip), 10000);
                    }
                }
                Err(e)
            },
            Ok(a) => {
                proof {
                    lemma_digits_val_nonneg(ip);
                    lemma_mul_le_mono(digits_val(ip), cap as int / 10000, 10000);
                }
                let mag = a * 10000 + f * scale;
                if mag > cap {
                    Err(ParseError::OutOfRange)
                } else {
                    finish_fixed(neg, mag)
                }
            },
        }
    }
}

proof fn lemma_pow10_small()
    ensures
        pow10(0) == 1,
        pow10(1) == 10,
        pow10(2) == 100,
        pow10(3) == 1000,
        pow10(4) == 10000,
{
    assert(pow10(0) == 1);
    assert(pow10(1) == 10);
    assert(pow10(2) == 100);
    assert(pow10(3) == 1000);
    assert(pow10(4) == 10000);
}

proof fn lemma_mul_le_mono(x: int, y: int, k: int)
    requires
        x <= y,
        k >= 0,
    ensures
        x * k <= y * k,
{
    assert((y - x) * k >= 0) by (nonlinear_arith)
        requires
            y - x >= 0,
            k >= 0,
    ;
    assert(y * k - x * k == (y - x) * k) by (nonlinear_arith);
}

fn finish_fixed(neg: bool, mag: u64) -> (r: Result<i64, ParseError>)
    requires
        neg ==> mag <= 9223372036854775808u64,
        !neg ==> mag <= 9223372036854775807u64,
    ensures
        neg ==> r == Ok::<i64, ParseError>(((-(mag as int)) as i64)),
        !neg ==> r == Ok::<i64, ParseError>(mag as i64),
{
    if neg {
        if mag == 9223372036854775808u64 {
            Ok(i64::MIN)
        } else {
            Ok(-(mag as i64))
        }
    } else {
        Ok(mag as i64)
    }
}

/// Parses a flag field.
pub fn parse_bool_field(s: &str) -> (r: Result<bool, ParseError>)
    ensures
        r == parse_bool_res(s@),
        match parse_bool_spec(s@) {
            Option::None => r == Err::<bool, ParseError>(ParseError::Malformed),
            Option::Some(v) => r == Ok::<bool, ParseError>(v),
        },
{
    if str_eq(s, "1") {
        Ok(true)
    } else if str_eq(s, "0") {
        Ok(false)
    } else {
        Err(ParseError::Malformed)
    }
}

/// Parses a conjunction-flag field: `a` chains with AND, `o` with OR.
pub fn parse_conjunction(s: &str) -> (r: Result<bool, ParseError>)
    ensures
        r == parse_conjunction_res(s@),
        match parse_conjunction_spec(s@) {
            Option::None => r == Err::<bool, ParseError>(ParseError::Malformed),
            Option::Some(v) => r == Ok::<bool, ParseError>(v),
        },
{
    if str_eq(s, "a") {
        Ok(true)
    } else if str_eq(s, "o") {
        Ok(false)
    } else {
        Err(ParseError::Malformed)
    }
}

/// Rendering an integer and parsing the field back yields the integer.
pub proof fn lemma_int_round_trip(v: int)
    requires
        i64::MIN <= v <= i64::MAX,
    ensures
        parse_int_spec(int_rep(v)) == Option::Some(v),
{
    if v >= 0 {
        lemma_dec_rep_correct(v as nat);
        assert(int_rep(v)[0] != '-');
    } else {
        lemma_dec_rep_correct((-v) as nat);
        let s = int_rep(v);
        assert(s[0] == '-');
        assert(s.skip(1) =~= dec_rep((-v) as nat));
    }
}

/// Each digit of the four-digit fractional form is a digit, and the form
/// denotes the fractional value back.
pub proof fn lemma_frac_rep_val(f: int)
    requires
        0 <= f < 10000,
    ensures
        all_digits(frac_rep(f)),
        digits_val(frac_rep(f)) == f,
{
    let s = frac_rep(f);
    lemma_digit_char_val(f / 1000 % 10);
    lemma_digit_char_val(f / 100 % 10);
    lemma_digit_char_val(f / 10 % 10);
    lemma_digit_char_val(f % 10);
    assert forall|i: int| 0 <= i < s.len() implies is_digit(#[trigger] s[i]) by {
        if i == 0 {
        } else if i == 1 {
        } else if i == 2 {
        } else {
            assert(i == 3);
        }
    }
    let s3 = s.drop_last();
    let s2 = s3.drop_last();
    let s1 = s2.drop_last();
    let s0 = s1.drop_last();
    assert(s3 =~= seq![digit_char(f / 1000 % 10), digit_char(f / 100 % 10), digit_char(f / 10 % 10)]);
    assert(s2 =~= seq![digit_char(f / 1000 % 10), digit_char(f / 100 % 10)]);
    assert(s1 =~= seq![digit_char(f / 1000 % 10)]);
    assert(s0 =~= Seq::<char>::empty());
    assert(s.last() == digit_char(f % 10));
    assert(s3.last() == digit_char(f / 10 % 10));
    assert(s2.last() == digit_char(f / 100 % 10));
    assert(s1.last() == digit_char(f / 1000 % 10));
    assert(digits_val(s0) == 0);
    assert(digits_val(s1) == digits_val(s0) * 10 + digit_val(s1.last()));
    assert(digits_val(s1) == f / 1000 % 10);
    assert(digits_val(s2) == digits_val(s1) * 10 + digit_val(s2.last()));
    assert(digits_val(s2) == f / 1000 % 10 * 10 + f / 100 % 10);
    assert(digits_val(s3) == digits_val(s2) * 10 + digit_val(s3.last()));
    assert(digits_val(s) == digits_val(s3) * 10 + digit_val(s.last()));
    assert(digits_val(s) == ((f / 1000 % 10 * 10 + f / 100 % 10) * 10 + f / 10 % 10) * 10 + f % 10);
    assert(f / 1000 % 10 == f / 1000);
    assert(((f / 1000 * 10 + f / 100 % 10) * 10 + f / 10 % 10) * 10 + f % 10 == f) by {
        assert(f == f / 10 * 10 + f % 10);
        assert(f / 10 == f / 10 / 10 * 10 + f / 10 % 10);
        assert(f / 10 / 10 == f / 100);
        assert(f / 100 == f / 100 / 10 * 10 + f / 100 % 10);
        assert(f / 100 / 10 == f / 1000);
    }
}

/// Rendering a fixed-point amount and parsing the field back yields the
/// amount.
pub proof fn lemma_fixed_round_trip(v: int)
    requires
        i64::MIN <= v <= i64::MAX,
    ensures
        parse_fixed_spec(fixed_rep(v)) == Option::Some(v),
{
    let m = abs_of(v);
    let a = m / 10000;
    let f = (m % 10000) as int;
    lemma_dec_rep_correct(a);
    lemma_frac_rep_val(f);
    let s = fixed_rep(v);
    let d = dec_rep(a);
    let fr = frac_rep(f);
    if v < 0 {
        assert(s[0] == '-');
        let b = s.skip(1);
        assert(b =~= d + seq!['.'] + fr);
        lemma_fixed_body(b, d, fr);
        assert(digits_val(d) * 10000 + digits_val(fr) * frac_scale(4) == a * 10000 + f);
        assert(a * 10000 + f == m) by {
            assert(m == m / 10000 * 10000 + m % 10000);
        }
        assert(parse_fixed_spec(s) == Option::Some(-1 * (a * 10000 + f)));
        assert(-1 * (a * 10000 + f) == v);
    } else {
        assert(s =~= d + seq!['.'] + fr);
        assert(s[0] == d[0]);
        assert(is_digit(d[0]));
        assert(s[0] != '-');
        lemma_fixed_body(s, d, fr);
        assert(a * 10000 + f == m) by {
            assert(m == m / 10000 * 10000 + m % 10000);
        }
        assert(parse_fixed_spec(s) == Option::Some(1 * (a * 10000 + f)));
    }
}

proof fn lemma_fixed_body(b: Seq<char>, d: Seq<char>, fr: Seq<char>)
    requires
        b =~= d + seq!['.'] + fr,
        all_digits(d),
        d.len() >= 1,
        all_digits(fr),
        fr.len() == 4,
    ensures
        first_dot(b) == d.len(),
        b.take(d.len() as int) =~= d,
        b.skip(d.len() as int + 1) =~= fr,
        parse_fixed_spec_body(b) == Option::Some(digits_val(d) * 10000 + digits_val(fr)),
{
    assert forall|j: int| 0 <= j < d.len() implies (#[trigger] b[j]) != '.' by {
        assert(b[j] == d[j]);
        assert(is_digit(d[j]));
    }
    assert(b[d.len() as int] == '.');
    lemma_first_dot_at(b, d.len() as int);
    assert(b.take(d.len() as int) =~= d);
    assert(b.skip(d.len() as int + 1) =~= fr);
    assert(frac_scale(4) == 1);
}

/// Rendering a flag and parsing the field back yields the flag.
pub proof fn lemma_bool_round_trip(b: bool)
    ensures
        parse_bool_res(bool_rep(b)) == Result::<bool, ParseError>::Ok(b),
{
    reveal_strlit("0");
    reveal_strlit("1");
    if !b {
        assert("0"@ != "1"@) by {
            assert("0"@[0] == '0');
            assert("1"@[0] == '1');
        }
    }
}

/// Rendering a conjunction flag and parsing the field back yields the
/// flag.
pub proof fn lemma_conjunction_round_trip(b: bool)
    ensures
        parse_conjunction_res(conjunction_rep(b)) == Result::<bool, ParseError>::Ok(b),
{
    reveal_strlit("a");
    reveal_strlit("o");
    if !b {
        assert("o"@ != "a"@) by {
            assert("o"@[0] == 'o');
            assert("a"@[0] == 'a');
        }
    }
}

/// An unset decimal field never renders like an explicit zero amount: the
/// marker and the decimal form of `0` differ.
pub proof fn lemma_sentinel_render_distinct()
    ensures
        opt_double_rep(UNSET_DOUBLE as int) != opt_double_rep(0),
{
    reveal_strlit("UNSET");
    let zero = opt_double_rep(0);
    assert(zero == fixed_rep(0));
    assert(zero[0] == '0');
    assert(unset_marker()[0] == 'U');
    assert(opt_double_rep(UNSET_DOUBLE as int)[0] == 'U');
}

} // verus!
