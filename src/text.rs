//! Plain text building blocks: decimal numbers written and read, joined
//! lists, shares with one decimal and the hours-and-minutes form of a
//! duration.
use vstd::prelude::*;

verus! {

/// The decimal digit `d` as text.
pub open spec fn digit_text(d: nat) -> Seq<char> {
    if d == 0 {
        "0"@
    } else if d == 1 {
        "1"@
    } else if d == 2 {
        "2"@
    } else if d == 3 {
        "3"@
    } else if d == 4 {
        "4"@
    } else if d == 5 {
        "5"@
    } else if d == 6 {
        "6"@
    } else if d == 7 {
        "7"@
    } else if d == 8 {
        "8"@
    } else {
        "9"@
    }
}

/// `n` in decimal, without leading zeros.
pub open spec fn decimal(n: nat) -> Seq<char>
    decreases n,
{
    if n < 10 {
        digit_text(n)
    } else {
        decimal(n / 10) + digit_text(n % 10)
    }
}

/// `parts` with `sep` between each two neighbours.
pub open spec fn join(parts: Seq<Seq<char>>, sep: Seq<char>) -> Seq<char>
    decreases parts.len(),
{
    if parts.len() == 0 {
        Seq::empty()
    } else if parts.len() == 1 {
        parts[0]
    } else {
        join(parts.drop_last(), sep) + sep + parts.last()
    }
}

/// Whole hours and rounded minutes of `total / scale` minutes: minutes are
/// rounded half up, and a remainder of at least 59.5 minutes carries into the
/// hours.
pub open spec fn hours_and_minutes(total: nat, scale: nat) -> (nat, nat)
    recommends
        scale > 0,
{
    let hour = 60 * scale;
    let h = total / hour;
    let rem = total % hour;
    if 2 * rem >= 119 * scale {
        (h + 1, 0)
    } else {
        (h, (2 * rem + scale) / (2 * scale))
    }
}

/// A duration of `total / scale` minutes written as `<h>h<mm>m`.
pub open spec fn minutes_text(total: nat, scale: nat) -> Seq<char>
    recommends
        scale > 0,
{
    let (h, m) = hours_and_minutes(total, scale);
    decimal(h) + "h"@ + digit_text(m / 10) + digit_text(m % 10) + "m"@
}

/// What `str::trim` leaves of a text.
pub uninterp spec fn trimmed(s: Seq<char>) -> Seq<char>;

/// Relies on `str::trim`: the text without leading and trailing whitespace,
/// a function of the text alone.
#[verifier::external_body]
pub(crate) fn trim_str(s: &str) -> (r: &str)
    ensures
        r@ == trimmed(s@),
{
    s.trim()
}

pub open spec fn is_digit(c: char) -> bool {
    '0' <= c && c <= '9'
}

/// The value of a text of decimal digits.
pub open spec fn digits_value(s: Seq<char>) -> nat
    decreases s.len(),
{
    if s.len() == 0 {
        0
    } else {
        digits_value(s.drop_last()) * 10 + (s.last() as nat - '0' as nat) as nat
    }
}

pub open spec fn is_decimal(s: Seq<char>) -> bool {
    s.len() > 0 && forall|i: int| 0 <= i < s.len() ==> is_digit(#[trigger] s[i])
}

proof fn lemma_digits_value_grows(s: Seq<char>, i: int, j: int)
    requires
        0 <= i <= j <= s.len(),
    ensures
        digits_value(s.take(i)) <= digits_value(s.take(j)),
    decreases j - i,
{
    if i < j {
        lemma_digits_value_grows(s, i, j - 1);
        assert(s.take(j).drop_last() =~= s.take(j - 1));
    }
}

/// Reads a text of decimal digits, with no sign, as a `u64`.
pub fn parse_decimal(s: &str) -> (r: Option<u64>)
    ensures
        r is Some <==> is_decimal(s@) && digits_value(s@) <= u64::MAX,
        r matches Some(v) ==> v == digits_value(s@),
{
    let n = s.unicode_len();
    if n == 0 {
        return None;
    }
    let mut v: u64 = 0;
    let mut i: usize = 0;
    while i < n
        invariant
            n == s@.len(),
            i <= n,
            v == digits_value(s@.take(i as int)),
            forall|k: int| 0 <= k < i ==> is_digit(#[trigger] s@[k]),
        decreases n - i,
    {
        let c = s.get_char(i);
        assert(s@.take(i + 1).drop_last() =~= s@.take(i as int));
        if c < '0' || c > '9' {
            return None;
        }
        let d = (c as u32 - '0' as u32) as u64;
        if v > (u64::MAX - d) / 10 {
            proof {
                lemma_digits_value_grows(s@, i + 1, n as int);
                assert(s@.take(n as int) =~= s@);
            }
            return None;
        }
        v = v * 10 + d;
        i = i + 1;
    }
    assert(s@.take(n as int) =~= s@);
    Some(v)
}

/// The counter that a text holds, surrounding whitespace aside, if it holds
/// one that fits in a `u64`.
pub open spec fn counter_value(s: Seq<char>) -> Option<nat> {
    if is_decimal(trimmed(s)) && digits_value(trimmed(s)) <= u64::MAX {
        Some(digits_value(trimmed(s)))
    } else {
        None
    }
}

/// Reads a counter written in decimal, ignoring surrounding whitespace.
pub fn parse_counter(s: &str) -> (r: Option<u64>)
    ensures
        r is Some <==> is_decimal(trimmed(s@)) && digits_value(trimmed(s@)) <= u64::MAX,
        r matches Some(v) ==> v == digits_value(trimmed(s@)),
        r matches Some(v) ==> counter_value(s@) == Some(v as nat),
        r is None ==> counter_value(s@) is None,
{
    parse_decimal(trim_str(s))
}

/// `100 * p / q` rounded to the nearest whole number, ties to even.
pub open spec fn percent(p: nat, q: nat) -> nat
    recommends
        q > 0,
{
    let x = 100 * p;
    let fl = x / q;
    let r = x % q;
    if 2 * r > q {
        fl + 1
    } else if 2 * r < q {
        fl
    } else {
        fl + fl % 2
    }
}

/// `p` as a whole percentage of `q`, rounded to the nearest, ties to even.
pub fn percent_of(p: u64, q: u64) -> (r: u128)
    requires
        0 < q,
    ensures
        r == percent(p as nat, q as nat),
{
    let x: u128 = 100 * (p as u128);
    let fl: u128 = x / (q as u128);
    let rem: u128 = x % (q as u128);
    proof {
        assert((x as int) / (q as int) <= x) by (nonlinear_arith)
            requires q > 0, x >= 0;
    }
    if 2 * rem > q as u128 {
        fl + 1
    } else if 2 * rem < q as u128 {
        fl
    } else {
        fl + fl % 2
    }
}

/// Hundredths rounded half up to tenths.
pub open spec fn tenths(hundredths: nat) -> nat {
    (hundredths + 5) / 10
}

/// A number of tenths written with one decimal.
pub open spec fn one_decimal(tenths: nat) -> Seq<char> {
    decimal(tenths / 10) + "."@ + digit_text(tenths % 10)
}

/// A share in hundredths of a percent written with one decimal, after an
/// icon: `<icon> <whole>.<tenth>%`.
pub open spec fn percent_text_of(icon: Seq<char>, hundredths: nat) -> Seq<char> {
    icon + " "@ + one_decimal(tenths(hundredths)) + "%"@
}

/// Whether two texts are equal.
pub fn same_text(a: &str, b: &str) -> (r: bool)
    ensures
        r == (a@ == b@),
{
    String::from_str(a) == String::from_str(b)
}

/// The decimal digit `d` as a string.
pub fn digit_str(d: u64) -> (r: &'static str)
    requires
        d < 10,
    ensures
        r@ == digit_text(d as nat),
{
    match d {
        0 => "0",
        1 => "1",
        2 => "2",
        3 => "3",
        4 => "4",
        5 => "5",
        6 => "6",
        7 => "7",
        8 => "8",
        _ => "9",
    }
}

/// `n` written in decimal.
pub fn decimal_string(n: u128) -> (r: String)
    ensures
        r@ == decimal(n as nat),
    decreases n,
{
    if n < 10 {
        String::from_str(digit_str(n as u64))
    } else {
        let mut s = decimal_string(n / 10);
        s.append(digit_str((n % 10) as u64));
        s
    }
}

/// Writes a share given in hundredths of a percent with one decimal, after
/// an icon, such as `<icon> 12.3%` for 1234.
pub fn percent_text(icon: &str, hundredths: u64) -> (r: String)
    ensures
        r@ == percent_text_of(icon@, hundredths as nat),
{
    let t: u64 = hundredths / 10 + if hundredths % 10 >= 5 {
        1
    } else {
        0
    };
    assert(t == tenths(hundredths as nat));
    let mut s = String::from_str(icon);
    s.append(" ");
    append_one_decimal(&mut s, t);
    s.append("%");
    s
}

/// Appends a number of tenths written with one decimal.
pub fn append_one_decimal(out: &mut String, tenths: u64)
    ensures
        final(out)@ == old(out)@ + one_decimal(tenths as nat),
{
    let whole = decimal_string((tenths / 10) as u128);
    out.append(whole.as_str());
    out.append(".");
    out.append(digit_str(tenths % 10));
}

/// Writes a duration of `total / scale` minutes as hours and minutes, such as
/// `5h02m` for 302.2 minutes (`total = 3022`, `scale = 10`).
pub fn minutes_to_string(total: u64, scale: u64) -> (r: String)
    requires
        scale > 0,
    ensures
        r@ == minutes_text(total as nat, scale as nat),
{
    let hour: u128 = 60 * (scale as u128);
    let h: u128 = (total as u128) / hour;
    let rem: u128 = (total as u128) % hour;
    let scale_wide: u128 = scale as u128;
    let (hrs, mins): (u64, u64) = if 2 * rem >= 119 * scale_wide {
        proof {
            assert(h <= total / 60) by (nonlinear_arith)
                requires h == (total as u128) / hour, hour >= 60;
        }
        ((h + 1) as u64, 0)
    } else {
        proof {
            assert(h <= total) by (nonlinear_arith)
                requires h == (total as u128) / hour, hour >= 1;
            assert((2 * rem + scale_wide) / (2 * scale_wide) < 60) by (nonlinear_arith)
                requires 2 * rem < 119 * scale_wide, scale_wide > 0;
        }
        (h as u64, ((2 * rem + scale_wide) / (2 * scale_wide)) as u64)
    };
    assert(hours_and_minutes(total as nat, scale as nat) == (hrs as nat, mins as nat));
    let mut s = decimal_string(hrs as u128);
    s.append("h");
    s.append(digit_str(mins / 10));
    s.append(digit_str(mins % 10));
    s.append("m");
    s
}

} // verus!
