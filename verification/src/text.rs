//! Text built by the library: decimal numbers, trimmed paths, joined pieces.

use vstd::prelude::*;

verus! {

/// `strftime` pattern of the dates in log file names.
pub const DATE_PATTERN: &'static str = "%Y-%m-%d";

/// `strftime` pattern of the timestamps in log records.
pub const TIMESTAMP_PATTERN: &'static str = "%Y-%m-%d %H:%M:%S%.3f";

/// A decimal digit character.
pub open spec fn is_digit(c: char) -> bool {
    '0' <= c && c <= '9'
}

/// A lower-case hexadecimal digit character.
pub open spec fn is_lower_hex(c: char) -> bool {
    is_digit(c) || ('a' <= c && c <= 'f')
}

/// Text made of decimal digits only.
pub open spec fn all_digits(s: Seq<char>) -> bool {
    forall|i: int| 0 <= i < s.len() ==> is_digit(#[trigger] s[i])
}

/// Exactly two decimal digits.
pub open spec fn two_digits(s: Seq<char>) -> bool {
    s.len() == 2 && all_digits(s)
}

/// A year as chrono writes it: four digits, or a sign followed by at least
/// four digits for years outside 0..=9999.
pub open spec fn is_year_text(y: Seq<char>) -> bool {
    ||| y.len() == 4 && all_digits(y)
    ||| y.len() >= 5 && (y[0] == '+' || y[0] == '-') && all_digits(y.drop_first())
}

/// A date as `%Y-%m-%d` writes it: year, `-`, two-digit month, `-`,
/// two-digit day.
pub open spec fn is_date_text(s: Seq<char>) -> bool {
    let n = s.len() as int;
    &&& n >= 10
    &&& is_year_text(s.subrange(0, n - 6))
    &&& s[n - 6] == '-'
    &&& two_digits(s.subrange(n - 5, n - 3))
    &&& s[n - 3] == '-'
    &&& two_digits(s.subrange(n - 2, n))
}

/// A time of day as `%H:%M:%S` writes it.
pub open spec fn is_clock_text(s: Seq<char>) -> bool {
    &&& s.len() == 8
    &&& two_digits(s.subrange(0, 2))
    &&& s[2] == ':'
    &&& two_digits(s.subrange(3, 5))
    &&& s[5] == ':'
    &&& two_digits(s.subrange(6, 8))
}

/// A timestamp as `%Y-%m-%d %H:%M:%S%.3f` writes it: date, space, time of
/// day, `.`, three digits of milliseconds.
pub open spec fn is_timestamp_text(s: Seq<char>) -> bool {
    let n = s.len() as int;
    &&& n >= 23
    &&& is_date_text(s.subrange(0, n - 13))
    &&& s[n - 13] == ' '
    &&& is_clock_text(s.subrange(n - 12, n - 4))
    &&& s[n - 4] == '.'
    &&& all_digits(s.subrange(n - 3, n))
}

/// The fraction of a second in RFC 3339 text: nothing, or `.` followed by
/// three, six or nine digits.
pub open spec fn is_fraction_text(f: Seq<char>) -> bool {
    ||| f.len() == 0
    ||| (f.len() == 4 || f.len() == 7 || f.len() == 10) && f[0] == '.' && all_digits(f.drop_first())
}

/// `s` is RFC 3339 text of an instant in UTC whose fraction of a second
/// takes `f` characters.
pub open spec fn is_utc_rfc3339_with_fraction(s: Seq<char>, f: int) -> bool {
    let b = s.len() - 6;
    &&& 0 <= f
    &&& b - f - 9 >= 10
    &&& s.subrange(b, s.len() as int) == "+00:00"@
    &&& is_fraction_text(s.subrange(b - f, b))
    &&& is_clock_text(s.subrange(b - f - 8, b - f))
    &&& s[b - f - 9] == 'T'
    &&& is_date_text(s.subrange(0, b - f - 9))
}

/// RFC 3339 text of an instant in UTC: date, `T`, time of day, an optional
/// fraction of a second, and the offset `+00:00`.
pub open spec fn is_utc_rfc3339_text(s: Seq<char>) -> bool {
    exists|f: int| #[trigger] is_utc_rfc3339_with_fraction(s, f)
}

/// The hyphenated text of a version 4 UUID: 36 characters, lower-case hex
/// digits in groups of 8, 4, 4, 4 and 12 separated by `-`, with the version
/// digit `4` at position 14 and a variant digit `8`, `9`, `a` or `b` at
/// position 19.
pub open spec fn is_uuid_v4_text(s: Seq<char>) -> bool {
    &&& s.len() == 36
    &&& forall|i: int|
        0 <= i < 36 ==> if i == 8 || i == 13 || i == 18 || i == 23 {
            #[trigger] s[i] == '-'
        } else {
            is_lower_hex(s[i])
        }
    &&& s[14] == '4'
    &&& (s[19] == '8' || s[19] == '9' || s[19] == 'a' || s[19] == 'b')
}

/// Text made of ASCII characters only.
pub open spec fn is_ascii_text(s: Seq<char>) -> bool {
    forall|i: int| 0 <= i < s.len() ==> (#[trigger] s[i] as u32) < 128
}

/// An ASCII character in lower case: `A`..`Z` become `a`..`z`.
pub open spec fn ascii_lower_char(c: char) -> char {
    if 'A' <= c && c <= 'Z' {
        ((c as u32) + 32) as char
    } else {
        c
    }
}

/// ASCII text in lower case.
pub open spec fn ascii_lowercase(s: Seq<char>) -> Seq<char> {
    s.map_values(|c: char| ascii_lower_char(c))
}

/// The character of a decimal digit.
pub open spec fn digit_char(d: nat) -> char
    recommends
        d < 10,
{
    if d == 0 { '0' }
    else if d == 1 { '1' }
    else if d == 2 { '2' }
    else if d == 3 { '3' }
    else if d == 4 { '4' }
    else if d == 5 { '5' }
    else if d == 6 { '6' }
    else if d == 7 { '7' }
    else if d == 8 { '8' }
    else { '9' }
}

/// The decimal notation of a natural number, without sign or leading zeros.
pub open spec fn decimal(n: nat) -> Seq<char>
    decreases n,
{
    if n < 10 {
        seq![digit_char(n)]
    } else {
        decimal(n / 10).push(digit_char(n % 10))
    }
}

/// `s` with every trailing occurrence of `c` removed.
pub open spec fn trim_end_char(s: Seq<char>, c: char) -> Seq<char>
    decreases s.len(),
{
    if s.len() > 0 && s.last() == c {
        trim_end_char(s.drop_last(), c)
    } else {
        s
    }
}

fn digit_str(d: u64) -> (r: &'static str)
    requires
        d < 10,
    ensures
        r@ == seq![digit_char(d as nat)],
{
    if d == 0 {
        proof { reveal_strlit("0"); }
        "0"
    } else if d == 1 {
        proof { reveal_strlit("1"); }
        "1"
    } else if d == 2 {
        proof { reveal_strlit("2"); }
        "2"
    } else if d == 3 {
        proof { reveal_strlit("3"); }
        "3"
    } else if d == 4 {
        proof { reveal_strlit("4"); }
        "4"
    } else if d == 5 {
        proof { reveal_strlit("5"); }
        "5"
    } else if d == 6 {
        proof { reveal_strlit("6"); }
        "6"
    } else if d == 7 {
        proof { reveal_strlit("7"); }
        "7"
    } else if d == 8 {
        proof { reveal_strlit("8"); }
        "8"
    } else {
        proof { reveal_strlit("9"); }
        "9"
    }
}

/// The decimal notation of `n`, as `u64::to_string` writes it.
pub fn decimal_string(n: u64) -> (r: String)
    ensures
        r@ == decimal(n as nat),
    decreases n,
{
    if n < 10 {
        String::from_str(digit_str(n))
    } else {
        let mut s = decimal_string(n / 10);
        s.append(digit_str(n % 10));
        s
    }
}

/// `a` followed by `b`.
pub fn join2(a: &str, b: &str) -> (r: String)
    ensures
        r@ == a@ + b@,
{
    let mut s = String::from_str(a);
    s.append(b);
    s
}

/// `a`, `b` and `c` one after the other.
pub fn join3(a: &str, b: &str, c: &str) -> (r: String)
    ensures
        r@ == a@ + b@ + c@,
{
    let mut s = String::from_str(a);
    s.append(b);
    s.append(c);
    s
}

/// `s` with all trailing `c` removed, as `str::trim_end_matches(c)` gives it.
pub fn trim_end_matches_char(s: &str, c: char) -> (r: String)
    ensures
        r@ == trim_end_char(s@, c),
{
    let n = s.unicode_len();
    let mut k: usize = n;
    proof {
        assert(s@.subrange(0, n as int) =~= s@);
    }
    while k > 0 && s.get_char(k - 1) == c
        invariant
            n == s@.len(),
            k <= n,
            trim_end_char(s@.subrange(0, k as int), c) == trim_end_char(s@, c),
        decreases k,
    {
        proof {
            let t = s@.subrange(0, k as int);
            assert(t.drop_last() =~= s@.subrange(0, k - 1));
        }
        k = k - 1;
    }
    String::from_str(s.substring_char(0, k))
}

} // verus!
