use crate::text::chars_of;
use crate::views::{seconds_view, text_view};
use vstd::prelude::*;

verus! {

/// Why a text is no duration.
#[derive(Clone, Copy, Debug, PartialEq, Eq, Structural)]
pub enum DurationError {
    /// The text is empty.
    Empty,
    /// What stands before the unit is no decimal number of sixty-four bits.
    InvalidNumber,
    /// The last character is none of `s`, `m`, `h` and `d`.
    InvalidUnit,
    /// The number of seconds does not fit in sixty-four bits.
    Overflow,
}

/// Whether a character is a decimal digit.
pub open spec fn is_digit(c: char) -> bool {
    '0' <= c && c <= '9'
}

/// Whether every character of a text is a decimal digit.
pub open spec fn all_digits(s: Seq<char>) -> bool {
    forall|i: int| 0 <= i < s.len() ==> is_digit(#[trigger] s[i])
}

/// The number that a text of decimal digits writes.
pub open spec fn digits_value(s: Seq<char>) -> int
    decreases s.len(),
{
    if s.len() == 0 {
        0
    } else {
        digits_value(s.drop_last()) * 10 + (s.last() as int - '0' as int)
    }
}

/// The number that a text writes in decimal, with an optional sign before at
/// least one digit; `None` where it is no such text or the number does not fit
/// in sixty-four bits.
pub open spec fn decimal_i64(s: Seq<char>) -> Option<int> {
    let signed = s.len() > 0 && (s[0] == '-' || s[0] == '+');
    let body = if signed {
        s.skip(1)
    } else {
        s
    };
    let value = if s.len() > 0 && s[0] == '-' {
        -digits_value(body)
    } else {
        digits_value(body)
    };
    if body.len() == 0 || !all_digits(body) || value < i64::MIN || value > i64::MAX {
        None
    } else {
        Some(value)
    }
}

/// The seconds in one unit of time.
pub open spec fn unit_seconds(c: char) -> Option<int> {
    if c == 's' {
        Some(1)
    } else if c == 'm' {
        Some(60)
    } else if c == 'h' {
        Some(3600)
    } else if c == 'd' {
        Some(86400)
    } else {
        None
    }
}

/// The seconds that a duration text stands for: a decimal number followed by
/// one unit character.
pub open spec fn duration_seconds(s: Seq<char>) -> Result<int, DurationError> {
    if s.len() == 0 {
        Err(DurationError::Empty)
    } else {
        match decimal_i64(s.drop_last()) {
            None => Err(DurationError::InvalidNumber),
            Some(v) => match unit_seconds(s.last()) {
                None => Err(DurationError::InvalidUnit),
                Some(u) => if i64::MIN <= v * u <= i64::MAX {
                    Ok(v * u)
                } else {
                    Err(DurationError::Overflow)
                },
            },
        }
    }
}

/// The seconds that an operation returned, as a mathematical integer, or
/// its failure.
pub open spec fn seconds_result_view(r: Result<i64, DurationError>) -> Result<int, DurationError> {
    match r {
        Ok(v) => Ok(v as int),
        Err(e) => Err(e),
    }
}

proof fn digits_value_grows(s: Seq<char>, n: int)
    requires
        all_digits(s),
        0 <= n <= s.len(),
    ensures
        0 <= digits_value(s.take(n)) <= digits_value(s),
    decreases s.len() - n,
{
    if n == s.len() {
        assert(s.take(n) =~= s);
        digits_value_nonnegative(s);
    } else {
        digits_value_grows(s, n + 1);
        assert(s.take(n + 1).drop_last() =~= s.take(n));
        digits_value_nonnegative(s.take(n));
        assert(is_digit(s[n]));
        assert(s.take(n + 1).last() == s[n]);
    }
}

proof fn digits_value_nonnegative(s: Seq<char>)
    requires
        all_digits(s),
    ensures
        0 <= digits_value(s),
    decreases s.len(),
{
    if s.len() > 0 {
        assert(is_digit(s[s.len() - 1]));
        digits_value_nonnegative(s.drop_last());
    }
}

/// Reads the digits of `s` from `start` on as a number, negated where `negative`.
fn read_digits(s: &Vec<char>, start: usize, end: usize, negative: bool) -> (r: Option<i64>)
    requires
        start <= end <= s.len(),
    ensures
        ({
            let body = s@.subrange(start as int, end as int);
            let value = if negative {
                -digits_value(body)
            } else {
                digits_value(body)
            };
            match r {
                Some(v) => body.len() > 0 && all_digits(body) && v == value,
                None => body.len() == 0 || !all_digits(body) || value < i64::MIN || value
                    > i64::MAX,
            }
        }),
{
    let ghost body = s@.subrange(start as int, end as int);
    if start == end {
        return None;
    }
    let limit: i128 = 0x8000_0000_0000_0000;
    let mut acc: i128 = 0;
    let mut i: usize = start;
    while i < end
        invariant
            start <= i <= end <= s.len(),
            body == s@.subrange(start as int, end as int),
            all_digits(body.take(i - start)),
            acc == digits_value(body.take(i - start)),
            0 <= acc <= limit,
            limit == 0x8000_0000_0000_0000,
        decreases end - i,
    {
        let c = s[i];
        if !('0' <= c && c <= '9') {
            assert(body[i - start] == c);
            return None;
        }
        let digit: i128 = (c as u8 - 48u8) as i128;
        let next: i128 = acc * 10 + digit;
        proof {
            let longer = body.take(i - start + 1);
            assert(longer.drop_last() =~= body.take(i - start));
            assert(longer.last() == c);
            assert(all_digits(longer)) by {
                assert forall|j: int| 0 <= j < longer.len() implies is_digit(
                    #[trigger] longer[j],
                ) by {
                    if j < i - start {
                        assert(body.take(i - start)[j] == longer[j]);
                    }
                }
            }
            assert(next == digits_value(longer));
        }
        if next > limit {
            proof {
                if all_digits(body) {
                    digits_value_grows(body, i - start + 1);
                }
            }
            return None;
        }
        acc = next;
        i = i + 1;
    }
    proof {
        assert(body.take(end - start) =~= body);
    }
    if negative {
        Some((-acc) as i64)
    } else if acc == limit {
        None
    } else {
        Some(acc as i64)
    }
}

/// Reads a decimal number of sixty-four bits from the first `end` characters.
fn read_i64(s: &Vec<char>, end: usize) -> (r: Option<i64>)
    requires
        end <= s.len(),
    ensures
        seconds_view(r) == decimal_i64(s@.take(end as int)),
{
    let ghost head = s@.take(end as int);
    if end == 0 {
        return None;
    }
    let first = s[0];
    let negative = first == '-';
    let start: usize = if first == '-' || first == '+' {
        1
    } else {
        0
    };
    proof {
        assert(head[0] == first);
        if start == 1 {
            assert(head.skip(1) =~= s@.subrange(1, end as int));
        } else {
            assert(head =~= s@.subrange(0, end as int));
        }
    }
    read_digits(s, start, end, negative)
}

/// Reads a duration such as `15m` or `7d` as a number of seconds.
pub fn parse_duration(duration_str: &str) -> (r: Result<i64, DurationError>)
    ensures
        seconds_result_view(r) == duration_seconds(duration_str@),
{
    let s = chars_of(duration_str);
    let len = s.len();
    if len == 0 {
        return Err(DurationError::Empty);
    }
    proof {
        assert(s@.drop_last() =~= s@.take(len - 1));
    }
    let value = match read_i64(&s, len - 1) {
        Some(v) => v,
        None => { return Err(DurationError::InvalidNumber); },
    };
    let unit = s[len - 1];
    let factor: i64 = if unit == 's' {
        1
    } else if unit == 'm' {
        60
    } else if unit == 'h' {
        3600
    } else if unit == 'd' {
        86400
    } else {
        return Err(DurationError::InvalidUnit);
    };
    assert(-0x8000_0000_0000_0000 * 86400 <= value * factor <= 0x8000_0000_0000_0000 * 86400)
        by (nonlinear_arith)
        requires
            -0x8000_0000_0000_0000 <= value <= 0x8000_0000_0000_0000,
            1 <= factor <= 86400,
    ;
    let wide: i128 = (value as i128) * (factor as i128);
    if wide < -0x8000_0000_0000_0000 || wide > 0x7fff_ffff_ffff_ffff {
        Err(DurationError::Overflow)
    } else {
        Ok(wide as i64)
    }
}


/// The lifetime of a cookie where its setting is no duration: fifteen minutes.
pub const DEFAULT_MAX_AGE_SECS: i64 = 900;

/// The lifetime of a cookie in seconds: what its setting says, or fifteen
/// minutes where the setting is no duration.
pub fn max_age_seconds(setting: &str) -> (r: i64)
    ensures
        r == (match duration_seconds(setting@) {
            Ok(v) => v,
            Err(_) => DEFAULT_MAX_AGE_SECS as int,
        }),
{
    match parse_duration(setting) {
        Ok(v) => v,
        Err(_) => DEFAULT_MAX_AGE_SECS,
    }
}

/// The token that an authorization header carries: what follows `Bearer `.
pub open spec fn bearer_of(header: Seq<char>) -> Option<Seq<char>> {
    if header.len() >= 7 && header.subrange(0, 7) == "Bearer "@ {
        Some(header.skip(7))
    } else {
        None
    }
}

/// The token that an authorization header carries, where it is a bearer's.
pub fn bearer_token(header: &str) -> (r: Option<String>)
    ensures
        text_view(r) == bearer_of(header@),
{
    let chars = chars_of(header);
    let prefix = chars_of("Bearer ");
    proof {
        reveal_strlit("Bearer ");
    }
    if chars.len() < 7 {
        return None;
    }
    let mut i: usize = 0;
    while i < 7
        invariant
            i <= 7,
            prefix@.len() == 7,
            prefix@ == "Bearer "@,
            chars@ == header@,
            chars@.len() >= 7,
            forall|j: int| 0 <= j < i ==> chars@[j] == prefix@[j],
        decreases 7 - i,
    {
        if chars[i] != prefix[i] {
            assert(chars@.subrange(0, 7)[i as int] == chars@[i as int]);
            return None;
        }
        i = i + 1;
    }
    assert(chars@.subrange(0, 7) =~= prefix@);
    let mut rest: Vec<char> = Vec::new();
    let mut k: usize = 7;
    while k < chars.len()
        invariant
            7 <= k <= chars.len(),
            rest@ == chars@.subrange(7, k as int),
        decreases chars.len() - k,
    {
        rest.push(chars[k]);
        k = k + 1;
        assert(rest@ =~= chars@.subrange(7, k as int));
    }
    assert(rest@ =~= chars@.skip(7));
    Some(crate::text::string_of(&rest))
}


/// Reads a decimal number of sixty-four bits, with an optional sign.
pub fn parse_i64(text: &str) -> (r: Option<i64>)
    ensures
        seconds_view(r) == decimal_i64(text@),
{
    let s = chars_of(text);
    assert(s@.take(s.len() as int) =~= s@);
    read_i64(&s, s.len())
}

/// The port that a text names: a decimal number without a minus sign that
/// fits in sixteen bits.
pub open spec fn port_of(text: Seq<char>) -> Option<u16> {
    match decimal_i64(text) {
        Some(v) => if text[0] != '-' && v <= u16::MAX {
            Some(v as u16)
        } else {
            None
        },
        None => None,
    }
}

/// Reads the number of a port.
pub fn parse_port(text: &str) -> (r: Option<u16>)
    ensures
        r == port_of(text@),
{
    let s = chars_of(text);
    assert(s@.take(s.len() as int) =~= s@);
    match read_i64(&s, s.len()) {
        Some(v) => if s[0] != '-' && v <= 65535 {
            proof {
                digits_are_not_negative(s@);
            }
            Some(v as u16)
        } else {
            None
        },
        None => None,
    }
}

proof fn digits_are_not_negative(s: Seq<char>)
    requires
        decimal_i64(s) is Some,
        s[0] != '-',
    ensures
        decimal_i64(s)->0 >= 0,
{
    if s[0] == '+' {
        digits_value_nonnegative(s.skip(1));
    } else {
        digits_value_nonnegative(s);
    }
}

} // verus!
