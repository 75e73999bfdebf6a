//! Decoding of peer counts and other numeric fields from upstream payloads.
//!
//! The execution client reports numbers as hex strings with a `0x` prefix
//! (`"0x1a"` is 26); the consensus client reports decimal strings (`"87"` is
//! 87). Both are decoded here by a verified parser whose behaviour matches
//! the standard library's unsigned integer parsing: an optional leading `+`,
//! then one or more digits of the radix; anything else, or a value that does
//! not fit in a `u64`, is a protocol error.

use vstd::prelude::*;

use crate::errors::UpstreamError;

verus! {

/// The numeric value of `c` as a digit, or 36 when `c` is no digit at all.
/// Letters of either case carry their usual hex (and higher-radix) values.
pub open spec fn digit_value(c: char) -> int {
    let u = c as int;
    if '0' as int <= u && u <= '9' as int {
        u - '0' as int
    } else if 'a' as int <= u && u <= 'z' as int {
        u - 'a' as int + 10
    } else if 'A' as int <= u && u <= 'Z' as int {
        u - 'A' as int + 10
    } else {
        36
    }
}

/// Whether `c` is a valid digit under `radix`.
pub open spec fn is_radix_digit(c: char, radix: int) -> bool {
    digit_value(c) < radix
}

pub open spec fn all_radix_digits(s: Seq<char>, radix: int) -> bool {
    forall|i: int| 0 <= i < s.len() ==> is_radix_digit(#[trigger] s[i], radix)
}

/// The number that the digit string `s` denotes under `radix`, most
/// significant digit first. Meaningful only when `all_radix_digits` holds.
pub open spec fn digits_value(s: Seq<char>, radix: int) -> int
    decreases s.len(),
{
    if s.len() == 0 {
        0
    } else {
        digits_value(s.drop_last(), radix) * radix + digit_value(s.last())
    }
}

/// The value of `s` parsed as an unsigned integer under `radix`: an optional
/// leading `+`, then one or more digits. `None` when `s` has any other shape.
pub open spec fn spec_parse_u64(s: Seq<char>, radix: int) -> Option<int> {
    let digits = if s.len() > 0 && s[0] == '+' {
        s.drop_first()
    } else {
        s
    };
    if digits.len() > 0 && all_radix_digits(digits, radix) {
        Some(digits_value(digits, radix))
    } else {
        None
    }
}

/// What parsing `s` under `radix` must return: the denoted value when it
/// exists and fits in a `u64`, a protocol error otherwise.
pub open spec fn spec_parse_u64_result(s: Seq<char>, radix: int) -> Result<u64, UpstreamError> {
    match spec_parse_u64(s, radix) {
        Some(v) => if v <= u64::MAX {
            Ok(v as u64)
        } else {
            Err(UpstreamError::Protocol)
        },
        None => Err(UpstreamError::Protocol),
    }
}

/// `s` with every occurrence of `"0x"` removed, scanning left to right
/// without overlap, as `str::replace("0x", "")` does.
pub open spec fn remove_hex_prefixes(s: Seq<char>) -> Seq<char>
    decreases s.len(),
{
    if s.len() >= 2 && s[0] == '0' && s[1] == 'x' {
        remove_hex_prefixes(s.skip(2))
    } else if s.len() == 0 {
        s
    } else {
        seq![s[0]] + remove_hex_prefixes(s.skip(1))
    }
}

proof fn lemma_digits_value_nonneg(s: Seq<char>, radix: int)
    requires
        radix >= 1,
    ensures
        digits_value(s, radix) >= 0,
    decreases s.len(),
{
    if s.len() > 0 {
        lemma_digits_value_nonneg(s.drop_last(), radix);
        assert(digits_value(s.drop_last(), radix) * radix >= 0) by (nonlinear_arith)
            requires
                digits_value(s.drop_last(), radix) >= 0,
                radix >= 1,
        ;
    }
}

/// Appending the digit at position `j` multiplies the prefix value by the
/// radix and adds that digit.
proof fn lemma_digits_value_take_succ(s: Seq<char>, radix: int, j: int)
    requires
        0 <= j < s.len(),
    ensures
        digits_value(s.take(j + 1), radix) == digits_value(s.take(j), radix) * radix
            + digit_value(s[j]),
{
    assert(s.take(j + 1).drop_last() =~= s.take(j));
    assert(s.take(j + 1).last() == s[j]);
}

/// A digit string is worth at least any of its prefixes.
proof fn lemma_digits_value_extend(s: Seq<char>, radix: int, j: int)
    requires
        radix >= 1,
        0 <= j <= s.len(),
    ensures
        digits_value(s, radix) >= digits_value(s.take(j), radix),
    decreases s.len() - j,
{
    if j == s.len() {
        assert(s.take(j) =~= s);
    } else {
        lemma_digits_value_take_succ(s, radix, j);
        lemma_digits_value_nonneg(s.take(j), radix);
        assert(digits_value(s.take(j), radix) * radix >= digits_value(s.take(j), radix))
            by (nonlinear_arith)
            requires
                digits_value(s.take(j), radix) >= 0,
                radix >= 1,
        ;
        lemma_digits_value_extend(s, radix, j + 1);
    }
}

/// The numeric value of `c` as a digit, 36 when `c` is none.
fn digit_val(c: char) -> (d: u64)
    ensures
        d as int == digit_value(c),
{
    let u: u32 = c as u32;
    if 48 <= u && u <= 57 {
        (u - 48) as u64
    } else if 97 <= u && u <= 122 {
        (u - 97 + 10) as u64
    } else if 65 <= u && u <= 90 {
        (u - 65 + 10) as u64
    } else {
        36
    }
}

/// Parses the characters of `v` as an unsigned integer under `radix`.
fn parse_u64_chars(v: &Vec<char>, radix: u64) -> (r: Result<u64, UpstreamError>)
    requires
        2 <= radix <= 36,
    ensures
        r == spec_parse_u64_result(v@, radix as int),
{
    let n: usize = v.len();
    let mut i: usize = 0;
    if n > 0 && v[0] == '+' {
        i = 1;
        proof {
            assert(v@.drop_first() =~= v@.skip(1));
        }
    } else {
        proof {
            assert(v@.skip(0) =~= v@);
        }
    }
    let ghost start: int = i as int;
    let ghost digits: Seq<char> = v@.skip(start);
    if i == n {
        return Err(UpstreamError::Protocol);
    }
    let mut acc: u64 = 0;
    let mut k: usize = i;
    while k < n
        invariant
            0 <= start <= k <= n,
            n == v@.len(),
            2 <= radix <= 36,
            digits == v@.skip(start),
            start < n,
            (if v@.len() > 0 && v@[0] == '+' {
                v@.drop_first()
            } else {
                v@
            }) == digits,
            all_radix_digits(digits.take(k - start), radix as int),
            acc as int == digits_value(digits.take(k - start), radix as int),
        decreases n - k,
    {
        let c: char = v[k];
        proof {
            assert(v@.skip(start)[k - start] == v@[k as int]);
            assert(digits[k - start] == c);
        }
        let d: u64 = digit_val(c);
        if d >= radix {
            proof {
                assert(!is_radix_digit(digits[k - start], radix as int));
            }
            return Err(UpstreamError::Protocol);
        }
        let shifted: u64 = match acc.checked_mul(radix) {
            Some(m) => m,
            None => {
                proof {
                    lemma_parse_overflow(digits, radix as int, k - start, d as int);
                }
                return Err(UpstreamError::Protocol);
            },
        };
        let next: u64 = match shifted.checked_add(d) {
            Some(a) => a,
            None => {
                proof {
                    lemma_parse_overflow(digits, radix as int, k - start, d as int);
                }
                return Err(UpstreamError::Protocol);
            },
        };
        proof {
            lemma_digits_value_take_succ(digits, radix as int, k - start);
        }
        acc = next;
        k = k + 1;
    }
    proof {
        assert(digits.take(n - start) =~= digits);
    }
    Ok(acc)
}

/// When the accumulated prefix value times the radix (plus the next digit)
/// no longer fits in a `u64`, the whole digit string cannot denote a value
/// that fits either.
proof fn lemma_parse_overflow(digits: Seq<char>, radix: int, j: int, d: int)
    requires
        2 <= radix <= 36,
        0 <= j < digits.len(),
        d == digit_value(digits[j]),
        0 <= d < radix,
        digits_value(digits.take(j), radix) * radix + d > u64::MAX,
    ensures
        all_radix_digits(digits, radix) ==> digits_value(digits, radix) > u64::MAX,
{
    if all_radix_digits(digits, radix) {
        lemma_digits_value_take_succ(digits, radix, j);
        lemma_digits_value_extend(digits, radix, j + 1);
    }
}

/// The characters of `s`, in order.
fn chars_of(s: &str) -> (v: Vec<char>)
    ensures
        v@ == s@,
{
    let n: usize = s.unicode_len();
    let mut v: Vec<char> = Vec::new();
    let mut i: usize = 0;
    while i < n
        invariant
            i <= n,
            n == s@.len(),
            v@ == s@.take(i as int),
        decreases n - i,
    {
        let c: char = s.get_char(i);
        v.push(c);
        proof {
            assert(v@ =~= s@.take(i + 1));
        }
        i = i + 1;
    }
    proof {
        assert(v@ =~= s@);
    }
    v
}

/// The characters of `s` with every `"0x"` occurrence removed.
fn strip_hex_prefixes(s: &str) -> (v: Vec<char>)
    ensures
        v@ == remove_hex_prefixes(s@),
{
    let n: usize = s.unicode_len();
    let mut v: Vec<char> = Vec::new();
    let mut i: usize = 0;
    proof {
        assert(s@.skip(0) =~= s@);
        assert(v@ + remove_hex_prefixes(s@) =~= remove_hex_prefixes(s@));
    }
    while i < n
        invariant
            i <= n,
            n == s@.len(),
            remove_hex_prefixes(s@) == v@ + remove_hex_prefixes(s@.skip(i as int)),
        decreases n - i,
    {
        let c: char = s.get_char(i);
        if c == '0' && i + 1 < n && s.get_char(i + 1) == 'x' {
            proof {
                let rest = s@.skip(i as int);
                assert(rest.len() >= 2);
                assert(rest[0] == '0');
                assert(rest[1] == 'x');
                assert(rest.skip(2) =~= s@.skip(i + 2));
            }
            i = i + 2;
        } else {
            let ghost vpre: Seq<char> = v@;
            v.push(c);
            proof {
                let rest = s@.skip(i as int);
                assert(rest[0] == c);
                assert(rest.skip(1) =~= s@.skip(i + 1));
                assert(remove_hex_prefixes(rest) =~= seq![c] + remove_hex_prefixes(
                    s@.skip(i + 1),
                ));
                assert(v@ =~= vpre + seq![c]);
                assert(v@ + remove_hex_prefixes(s@.skip(i + 1)) =~= vpre + remove_hex_prefixes(
                    rest,
                ));
            }
            i = i + 1;
        }
    }
    proof {
        assert(s@.skip(n as int) =~= Seq::<char>::empty());
        assert(v@ + remove_hex_prefixes(s@.skip(n as int)) =~= v@);
    }
    v
}

/// The decimal digit character for `d`. Meaningful for `0 <= d <= 9`.
pub open spec fn decimal_digit_char(d: int) -> char {
    if d == 0 {
        '0'
    } else if d == 1 {
        '1'
    } else if d == 2 {
        '2'
    } else if d == 3 {
        '3'
    } else if d == 4 {
        '4'
    } else if d == 5 {
        '5'
    } else if d == 6 {
        '6'
    } else if d == 7 {
        '7'
    } else if d == 8 {
        '8'
    } else {
        '9'
    }
}

/// The decimal spelling of `n`, most significant digit first.
pub open spec fn spec_decimal(n: int) -> Seq<char>
    recommends
        n >= 0,
    decreases n,
{
    if n < 10 {
        seq![decimal_digit_char(n)]
    } else {
        spec_decimal(n / 10) + seq![decimal_digit_char(n % 10)]
    }
}

fn decimal_digit_str(d: u64) -> (s: &'static str)
    requires
        d <= 9,
    ensures
        s@ == seq![decimal_digit_char(d as int)],
{
    proof {
        reveal_strlit("0");
        reveal_strlit("1");
        reveal_strlit("2");
        reveal_strlit("3");
        reveal_strlit("4");
        reveal_strlit("5");
        reveal_strlit("6");
        reveal_strlit("7");
        reveal_strlit("8");
        reveal_strlit("9");
        assert("0"@ =~= seq!['0']);
        assert("1"@ =~= seq!['1']);
        assert("2"@ =~= seq!['2']);
        assert("3"@ =~= seq!['3']);
        assert("4"@ =~= seq!['4']);
        assert("5"@ =~= seq!['5']);
        assert("6"@ =~= seq!['6']);
        assert("7"@ =~= seq!['7']);
        assert("8"@ =~= seq!['8']);
        assert("9"@ =~= seq!['9']);
    }
    match d {
        0 => "0",
        1 => "1",
        2 => "2",
        3 => "3",
        4 => "4",
        5 => "5",
        6 => "6",
        7 => "7",
        8 => "8",
        _ => "9",
    }
}

/// Appends the decimal spelling of `n` to `out`.
fn push_decimal(n: u64, out: &mut String)
    ensures
        final (out)@ == old(out)@ + spec_decimal(n as int),
    decreases n,
{
    if n >= 10 {
        push_decimal(n / 10, out);
        let ghost mid: Seq<char> = out@;
        out.append(decimal_digit_str(n % 10));
        proof {
            assert(out@ =~= old(out)@ + spec_decimal(n as int));
        }
    } else {
        out.append(decimal_digit_str(n));
    }
}

/// The decimal spelling of `n`, for log lines that name an offending
/// value.
pub fn u64_to_decimal_string(n: u64) -> (s: String)
    ensures
        s@ == spec_decimal(n as int),
{
    let mut s: String = String::new();
    push_decimal(n, &mut s);
    proof {
        assert(Seq::<char>::empty() + spec_decimal(n as int) =~= spec_decimal(n as int));
    }
    s
}

proof fn lemma_decimal_digits(n: int)
    requires
        n >= 0,
    ensures
        spec_decimal(n).len() >= 1,
        all_radix_digits(spec_decimal(n), 10),
        digits_value(spec_decimal(n), 10) == n,
    decreases n,
{
    if n < 10 {
        reveal_with_fuel(digits_value, 2);
        assert(seq![decimal_digit_char(n)].drop_last() =~= Seq::<char>::empty());
        assert(seq![decimal_digit_char(n)].last() == decimal_digit_char(n));
        assert(digit_value(decimal_digit_char(n)) == n);
    } else {
        lemma_decimal_digits(n / 10);
        let s = spec_decimal(n);
        let m = n % 10;
        assert(s.drop_last() =~= spec_decimal(n / 10));
        assert(s.last() == decimal_digit_char(m));
        assert(0 <= m <= 9);
        assert(digit_value(decimal_digit_char(m)) == m);
        vstd::arithmetic::div_mod::lemma_fundamental_div_mod(n, 10);
        assert(digits_value(s, 10) == digits_value(spec_decimal(n / 10), 10) * 10 + digit_value(
            decimal_digit_char(m),
        ));
    }
}

/// The decimal spelling round-trips: parsing it back under radix 10 gives
/// the number itself.
pub proof fn lemma_decimal_roundtrip(n: u64)
    ensures
        spec_parse_u64(spec_decimal(n as int), 10) == Some(n as int),
{
    lemma_decimal_digits(n as int);
    let s = spec_decimal(n as int);
    assert(is_radix_digit(s[0], 10));
    assert(s[0] != '+');
}

/// Parses a decimal string such as the consensus client's `"87"`: an
/// optional leading `+`, then one or more decimal digits.
pub fn parse_u64_decimal(s: &str) -> (r: Result<u64, UpstreamError>)
    ensures
        r == spec_parse_u64_result(s@, 10),
{
    let v: Vec<char> = chars_of(s);
    parse_u64_chars(&v, 10)
}

/// Parses the execution client's hex peer count such as `"0x1a"`: every
/// `"0x"` occurrence is removed, and the rest is read as hex digits.
pub fn parse_u64_hex_prefixed(s: &str) -> (r: Result<u64, UpstreamError>)
    ensures
        r == spec_parse_u64_result(remove_hex_prefixes(s@), 16),
{
    let v: Vec<char> = strip_hex_prefixes(s);
    parse_u64_chars(&v, 16)
}

} // verus!
