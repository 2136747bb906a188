//! Checks on the numbers that arrive as text on a command line.

use vstd::prelude::*;
use vstd::string::StringExecFns;
use crate::score::{all_digits, digit_of, digits_value, is_digit};
use crate::text::{
    from_chars, is_alphabetic, is_text, rows, split_chars, split_on, to_chars, to_uppercase,
    trim_chars, trimmed, unicode_alphabetic, unicode_uppercase,
};

verus! {

/// The number that `s` writes, if it is at most `max`: decimal digits, at
/// least one, after an optional plus sign. Any other text writes no number.
pub open spec fn unsigned_of(s: Seq<char>, max: nat) -> Option<nat> {
    let digits = if s.len() > 0 && s[0] == '+' {
        s.drop_first()
    } else {
        s
    };
    if digits.len() > 0 && all_digits(digits) && digits_value(digits) <= max {
        Some(digits_value(digits))
    } else {
        None
    }
}

pub open spec fn not_a_number_fault(s: Seq<char>) -> Seq<char> {
    "'"@ + s + "' is not a valid number"@
}

/// The value of digits is at least the value of any prefix of them.
pub proof fn lemma_digits_value_grows(s: Seq<char>, k: int)
    requires
        0 <= k <= s.len(),
    ensures
        digits_value(s.take(k)) <= digits_value(s),
    decreases s.len() - k,
{
    if k < s.len() {
        assert(s.take(k + 1).drop_last() =~= s.take(k));
        lemma_digits_value_grows(s, k + 1);
    } else {
        assert(s.take(k) =~= s);
    }
}

/// Reads an unsigned decimal number that is at most `max`.
pub fn parse_unsigned(s: &str, max: u64) -> (r: Option<u64>)
    ensures
        match r {
            Some(v) => unsigned_of(s@, max as nat) == Some(v as nat),
            None => unsigned_of(s@, max as nat) is None,
        },
{
    let chars = to_chars(s);
    let start: usize = if chars.len() > 0 && chars[0] == '+' {
        1
    } else {
        0
    };
    let ghost digits = chars@.subrange(start as int, chars.len() as int);
    assert(start == 1 ==> digits =~= s@.drop_first());
    assert(start == 0 ==> digits =~= s@);
    let ghost expected = if s@.len() > 0 && s@[0] == '+' {
        s@.drop_first()
    } else {
        s@
    };
    assert(digits == expected);
    if chars.len() == start {
        return None;
    }
    let mut acc: u64 = 0;
    let mut i: usize = start;
    assert(digits.take(0) =~= Seq::<char>::empty());
    while i < chars.len()
        invariant
            start <= i <= chars.len(),
            digits == chars@.subrange(start as int, chars.len() as int),
            digits == expected,
            expected == (if s@.len() > 0 && s@[0] == '+' {
                s@.drop_first()
            } else {
                s@
            }),
            digits.len() > 0,
            all_digits(digits.take(i - start)),
            acc == digits_value(digits.take(i - start)),
            acc <= max,
        decreases chars.len() - i,
    {
        let ghost k = i - start;
        let n: u32 = chars[i] as u32;
        assert(digits[k] == chars@[i as int]);
        assert(digits.take(k + 1).drop_last() =~= digits.take(k));
        if n < 48 || n > 57 {
            assert(!is_digit(digits[k]));
            return None;
        }
        let d: u64 = (n - 48) as u64;
        if d > max || acc > (max - d) / 10 {
            proof {
                assert(digits_value(digits.take(k + 1)) == acc * 10 + d);
                assert(acc * 10 + d > max);
                lemma_digits_value_grows(digits, k + 1);
            }
            return None;
        }
        acc = acc * 10 + d;
        i += 1;
        assert forall|j: int| 0 <= j < digits.take(k + 1).len() implies is_digit(
            #[trigger] digits.take(k + 1)[j],
        ) by {
            if j < k {
                assert(digits.take(k + 1)[j] == digits.take(k)[j]);
            }
        }
    }
    assert(digits.take(chars.len() - start) =~= digits);
    Some(acc)
}

fn not_a_number(s: &str) -> (m: String)
    ensures
        m@ == not_a_number_fault(s@),
{
    let mut m = String::from_str("'");
    m.append(s);
    m.append("' is not a valid number");
    m
}

/// The outcome of a check that wants a number from 1 to `max`.
pub open spec fn positive_of(s: Seq<char>, max: nat, too_small: Seq<char>) -> Result<
    nat,
    Seq<char>,
> {
    match unsigned_of(s, max) {
        None => Err(not_a_number_fault(s)),
        Some(v) => if v >= 1 {
            Ok(v)
        } else {
            Err(too_small)
        },
    }
}

/// Accepts a number of tokens: at least 1, in 32 bits.
pub fn validate_positive_u32(s: &str) -> (r: Result<u32, String>)
    ensures
        match r {
            Ok(v) => positive_of(s@, u32::MAX as nat, "Value must be >= 1"@) == Ok::<
                nat,
                Seq<char>,
            >(v as nat),
            Err(m) => positive_of(s@, u32::MAX as nat, "Value must be >= 1"@) == Err::<
                nat,
                Seq<char>,
            >(m@),
        },
{
    match parse_unsigned(s, u32::MAX as u64) {
        None => Err(not_a_number(s)),
        Some(v) => if v >= 1 {
            Ok(v as u32)
        } else {
            Err(String::from_str("Value must be >= 1"))
        },
    }
}

/// Accepts a number of seconds: at least 1, in 64 bits.
pub fn validate_positive_u64(s: &str) -> (r: Result<u64, String>)
    ensures
        match r {
            Ok(v) => positive_of(s@, u64::MAX as nat, "Value must be >= 1"@) == Ok::<
                nat,
                Seq<char>,
            >(v as nat),
            Err(m) => positive_of(s@, u64::MAX as nat, "Value must be >= 1"@) == Err::<
                nat,
                Seq<char>,
            >(m@),
        },
{
    match parse_unsigned(s, u64::MAX) {
        None => Err(not_a_number(s)),
        Some(v) => if v >= 1 {
            Ok(v)
        } else {
            Err(String::from_str("Value must be >= 1"))
        },
    }
}

/// Accepts the size of a context window: at least 1.
pub fn validate_context_limit(s: &str) -> (r: Result<usize, String>)
    ensures
        match r {
            Ok(v) => positive_of(s@, usize::MAX as nat, "Context limit must be >= 1"@) == Ok::<
                nat,
                Seq<char>,
            >(v as nat),
            Err(m) => positive_of(s@, usize::MAX as nat, "Context limit must be >= 1"@) == Err::<
                nat,
                Seq<char>,
            >(m@),
        },
{
    match parse_unsigned(s, usize::MAX as u64) {
        None => Err(not_a_number(s)),
        Some(v) => if v >= 1 {
            Ok(v as usize)
        } else {
            Err(String::from_str("Context limit must be >= 1"))
        },
    }
}

/// Accepts a count: above 0.
pub fn validate_positive_usize(s: &str) -> (r: Result<usize, String>)
    ensures
        match r {
            Ok(v) => positive_of(s@, usize::MAX as nat, "Value must be > 0"@) == Ok::<
                nat,
                Seq<char>,
            >(v as nat),
            Err(m) => positive_of(s@, usize::MAX as nat, "Value must be > 0"@) == Err::<
                nat,
                Seq<char>,
            >(m@),
        },
{
    match parse_unsigned(s, usize::MAX as u64) {
        None => Err(not_a_number(s)),
        Some(v) => if v > 0 {
            Ok(v as usize)
        } else {
            Err(String::from_str("Value must be > 0"))
        },
    }
}

/// The first eighteen digits after the decimal point, with zeros where
/// there are fewer.
pub open spec fn eighteen_places(fraction: Seq<char>) -> Seq<char> {
    Seq::new(18, |i: int| if i < fraction.len() { fraction[i] } else { '0' })
}

/// A decimal number as it is written: its sign, the value of the digits
/// before the point, and the value of the first eighteen digits after it.
pub struct Written {
    pub negative: bool,
    pub whole: nat,
    pub fraction: nat,
}

/// The number that `s` writes: an optional sign, then digits with at most
/// one decimal point among them or at either end, and at least one digit.
/// Any other text writes no number.
pub open spec fn written_number(s: Seq<char>) -> Option<Written> {
    let signed = s.len() > 0 && (s[0] == '+' || s[0] == '-');
    let body = if signed {
        s.drop_first()
    } else {
        s
    };
    let parts = split_on(body, '.');
    if parts.len() > 2 {
        None
    } else {
        let whole = parts[0];
        let fraction = if parts.len() == 2 {
            parts[1]
        } else {
            Seq::empty()
        };
        if all_digits(whole) && all_digits(fraction) && whole.len() + fraction.len() > 0 {
            Some(
                Written {
                    negative: signed && s[0] == '-',
                    whole: digits_value(whole),
                    fraction: digits_value(eighteen_places(fraction)),
                },
            )
        } else {
            None
        }
    }
}

/// The number of bytes that a unit stands for; the unit is in upper case.
pub open spec fn unit_bytes(unit: Seq<char>) -> Option<nat> {
    if unit == "B"@ {
        Some(1)
    } else if unit == "KB"@ || unit == "K"@ || unit == "KIB"@ {
        Some(1024)
    } else if unit == "MB"@ || unit == "M"@ || unit == "MIB"@ {
        Some(1_048_576)
    } else if unit == "GB"@ || unit == "G"@ || unit == "GIB"@ {
        Some(1_073_741_824)
    } else if unit == "TB"@ || unit == "T"@ || unit == "TIB"@ {
        Some(1_099_511_627_776)
    } else {
        None
    }
}

/// The position of the first character of `s` that Unicode counts as
/// alphabetic, or the length of `s` where there is none.
pub open spec fn first_letter(s: Seq<char>) -> nat
    decreases s.len(),
{
    if s.len() == 0 || unicode_alphabetic(s[0]) {
        0
    } else {
        1 + first_letter(s.drop_first())
    }
}

/// The whole bytes in `whole` and `fraction` quintillionths of the unit
/// `unit`, as a machine number: the largest machine number where the count
/// is above it.
pub open spec fn scaled(whole: nat, fraction: nat, unit: nat) -> usize {
    let bytes = whole * unit + (fraction * unit) / 1_000_000_000_000_000_000;
    if bytes > usize::MAX {
        usize::MAX
    } else {
        bytes as usize
    }
}

pub open spec fn size_format_fault(s: Seq<char>) -> Seq<char> {
    "Invalid size format: '"@ + s + "'. Use formats like '100MB', '1.5GB', or plain bytes"@
}

pub open spec fn size_number_fault(number: Seq<char>) -> Seq<char> {
    "Invalid number: '"@ + number + "'"@
}

pub open spec fn size_unit_fault(unit: Seq<char>) -> Seq<char> {
    "Unknown unit: '"@ + unit + "'. Supported: B, KB, MB, GB, TB (or K, M, G, T)"@
}

/// The size in bytes that a number and a unit write; the unit is in upper
/// case. The number may have blanks around it. The size is the number of
/// whole bytes, and it must be above 0.
pub open spec fn parts_size(number: Seq<char>, unit: Seq<char>) -> Result<usize, Seq<char>> {
    match written_number(trimmed(number)) {
        None => Err(size_number_fault(number)),
        Some(n) => if n.negative || (n.whole == 0 && n.fraction == 0) {
            Err("Size must be > 0"@)
        } else {
            match unit_bytes(unit) {
                None => Err(size_unit_fault(unit)),
                Some(bytes) => if scaled(n.whole, n.fraction, bytes) == 0 {
                    Err("Resulting size is too small (rounds to 0 bytes)"@)
                } else {
                    Ok(scaled(n.whole, n.fraction, bytes))
                },
            }
        },
    }
}

/// The size in bytes that `raw` writes. A plain number is a number of
/// bytes. Otherwise the text is a decimal number and a unit: the text is
/// put in upper case, the unit is what stands there from the first letter
/// on, and the number is what stands before that place.
pub open spec fn byte_size_of(raw: Seq<char>) -> Result<usize, Seq<char>> {
    let s = trimmed(raw);
    match unsigned_of(s, usize::MAX as nat) {
        Some(v) => if v > 0 {
            Ok(v as usize)
        } else {
            Err("Size must be > 0"@)
        },
        None => {
            let upper = unicode_uppercase(s);
            let at = first_letter(upper) as int;
            if at >= upper.len() {
                Err(size_format_fault(s))
            } else {
                parts_size(
                    if at <= s.len() {
                        s.take(at)
                    } else {
                        s
                    },
                    upper.skip(at),
                )
            }
        },
    }
}

/// The value of the digits `s`, or `None` where it is above `u64::MAX`.
fn digits_u64(s: &Vec<char>) -> (r: Option<u64>)
    requires
        all_digits(s@),
    ensures
        match r {
            Some(v) => v == digits_value(s@),
            None => digits_value(s@) > u64::MAX,
        },
{
    let mut acc: u64 = 0;
    let mut i: usize = 0;
    assert(s@.take(0) =~= Seq::<char>::empty());
    while i < s.len()
        invariant
            i <= s.len(),
            all_digits(s@),
            acc == digits_value(s@.take(i as int)),
        decreases s.len() - i,
    {
        assert(s@.take(i + 1).drop_last() =~= s@.take(i as int));
        assert(is_digit(s@[i as int]));
        let d: u64 = (s[i] as u32 - 48) as u64;
        if acc > (u64::MAX - d) / 10 {
            proof {
                lemma_digits_value_grows(s@, i + 1);
            }
            return None;
        }
        acc = acc * 10 + d;
        i += 1;
    }
    assert(s@.take(s.len() as int) =~= s@);
    Some(acc)
}

fn fraction_u64(f: &Vec<char>) -> (r: u64)
    requires
        all_digits(f@),
    ensures
        r == digits_value(eighteen_places(f@)),
        r < 1_000_000_000_000_000_000,
{
    let mut acc: u64 = 0;
    let mut bound: u64 = 1;
    let mut j: usize = 0;
    let ghost places = eighteen_places(f@);
    assert(places.take(0) =~= Seq::<char>::empty());
    assert(digits_value(places.take(0)) == 0);
    while j < 18
        invariant
            j <= 18,
            all_digits(f@),
            places == eighteen_places(f@),
            acc == digits_value(places.take(j as int)),
            acc < bound,
            bound == pow10(j as nat),
            j < 18 ==> bound <= 100_000_000_000_000_000,
            j == 18 ==> bound == 1_000_000_000_000_000_000,
        decreases 18 - j,
    {
        assert(places.take(j + 1).drop_last() =~= places.take(j as int));
        let d: u64 = if j < f.len() {
            assert(is_digit(f@[j as int]));
            (f[j] as u32 - 48) as u64
        } else {
            0
        };
        assert(d == digit_of(places[j as int]));
        acc = acc * 10 + d;
        bound = bound * 10;
        j += 1;
        proof {
            assert(pow10(j as nat) == 10 * pow10((j - 1) as nat));
            if j < 18 {
                lemma_pow10_small(j as nat);
            } else {
                lemma_pow10_top();
            }
        }
    }
    assert(places.take(18) =~= places);
    acc
}

/// Ten to the power `n`.
pub open spec fn pow10(n: nat) -> nat
    decreases n,
{
    if n == 0 {
        1
    } else {
        10 * pow10((n - 1) as nat)
    }
}

proof fn lemma_pow10_top()
    ensures
        pow10(18) == 1_000_000_000_000_000_000,
{
    reveal_with_fuel(pow10, 20);
}

proof fn lemma_pow10_small(n: nat)
    requires
        n < 18,
    ensures
        pow10(n) <= 100_000_000_000_000_000,
{
    reveal_with_fuel(pow10, 20);
}

/// The exec form of a number as it is written; the whole part is `None`
/// where it is above `u64::MAX`.
struct WrittenValue {
    negative: bool,
    whole: Option<u64>,
    fraction: u64,
}

fn read_written(s: &Vec<char>) -> (r: Option<WrittenValue>)
    ensures
        match r {
            None => written_number(s@) is None,
            Some(v) => written_number(s@) matches Some(w) && w.negative == v.negative
                && w.fraction == v.fraction && v.fraction < 1_000_000_000_000_000_000
                && match v.whole {
                Some(whole) => w.whole == whole,
                None => w.whole > u64::MAX,
            },
        },
{
    let signed = s.len() > 0 && (s[0] == '+' || s[0] == '-');
    let body = crate::text::slice_chars(s, if signed { 1 } else { 0 }, s.len());
    assert(signed ==> body@ =~= s@.drop_first());
    assert(!signed ==> body@ =~= s@);
    let parts = split_chars(&body, '.');
    if parts.len() > 2 {
        return None;
    }
    assert(rows(parts@)[0] == parts@[0]@);
    let whole = &parts[0];
    let empty: Vec<char> = Vec::new();
    let fraction = if parts.len() == 2 {
        assert(rows(parts@)[1] == parts@[1]@);
        &parts[1]
    } else {
        &empty
    };
    assert(parts.len() != 2 ==> fraction@ =~= Seq::<char>::empty());
    if !(are_digits(whole) && are_digits(fraction)) {
        return None;
    }
    if whole.len() == 0 && fraction.len() == 0 {
        return None;
    }
    Some(
        WrittenValue {
            negative: signed && s[0] == '-',
            whole: digits_u64(whole),
            fraction: fraction_u64(fraction),
        },
    )
}

fn are_digits(s: &Vec<char>) -> (r: bool)
    ensures
        r == all_digits(s@),
{
    let mut i: usize = 0;
    while i < s.len()
        invariant
            i <= s.len(),
            forall|k: int| 0 <= k < i ==> is_digit(#[trigger] s@[k]),
        decreases s.len() - i,
    {
        let n: u32 = s[i] as u32;
        if n < 48 || n > 57 {
            return false;
        }
        i += 1;
    }
    true
}

fn unit_multiplier(unit: &Vec<char>) -> (r: Option<u64>)
    ensures
        match r {
            Some(m) => unit_bytes(unit@) == Some(m as nat) && 1 <= m <= 1_099_511_627_776,
            None => unit_bytes(unit@) is None,
        },
{
    if is_text(unit, "B") {
        Some(1)
    } else if is_text(unit, "KB") || is_text(unit, "K") || is_text(unit, "KIB") {
        Some(1024)
    } else if is_text(unit, "MB") || is_text(unit, "M") || is_text(unit, "MIB") {
        Some(1_048_576)
    } else if is_text(unit, "GB") || is_text(unit, "G") || is_text(unit, "GIB") {
        Some(1_073_741_824)
    } else if is_text(unit, "TB") || is_text(unit, "T") || is_text(unit, "TIB") {
        Some(1_099_511_627_776)
    } else {
        None
    }
}

fn find_letter(s: &Vec<char>) -> (r: usize)
    ensures
        r == first_letter(s@),
        r <= s.len(),
{
    let mut i: usize = 0;
    assert(s@.skip(0) =~= s@);
    while i < s.len()
        invariant
            i <= s.len(),
            first_letter(s@) == i + first_letter(s@.skip(i as int)),
        decreases s.len() - i,
    {
        assert(s@.skip(i as int)[0] == s@[i as int]);
        if is_alphabetic(s[i]) {
            return i;
        }
        assert(s@.skip(i as int).drop_first() =~= s@.skip(i + 1));
        i += 1;
    }
    i
}

/// The size in bytes that a number and a unit write; the unit is in upper
/// case.
pub fn size_of_parts(number: &str, unit: &str) -> (r: Result<usize, String>)
    ensures
        match r {
            Ok(v) => parts_size(number@, unit@) == Ok::<usize, Seq<char>>(v),
            Err(m) => parts_size(number@, unit@) == Err::<usize, Seq<char>>(m@),
        },
{
    let number_chars = to_chars(number);
    let unit_chars = to_chars(unit);
    let written = match read_written(&trim_chars(&number_chars)) {
        None => {
            let mut m = String::from_str("Invalid number: '");
            m.append(number);
            m.append("'");
            return Err(m);
        },
        Some(written) => written,
    };
    let nothing = match written.whole {
        Some(w) => w == 0 && written.fraction == 0,
        None => false,
    };
    if written.negative || nothing {
        return Err(String::from_str("Size must be > 0"));
    }
    let multiplier = match unit_multiplier(&unit_chars) {
        None => {
            let mut m = String::from_str("Unknown unit: '");
            m.append(unit);
            m.append("'. Supported: B, KB, MB, GB, TB (or K, M, G, T)");
            return Err(m);
        },
        Some(multiplier) => multiplier,
    };
    let bytes: usize = match written.whole {
        None => {
            proof {
                let w = written_number(trimmed(number@))->Some_0;
                assert(w.whole * (multiplier as nat) >= w.whole) by (nonlinear_arith)
                    requires
                        multiplier >= 1,
                ;
            }
            usize::MAX
        },
        Some(w) => {
            let fraction = written.fraction;
            assert(w * multiplier <= 0xffff_ffff_ffff_ffff * 1_099_511_627_776)
                by (nonlinear_arith)
                requires
                    w <= 0xffff_ffff_ffff_ffff,
                    multiplier <= 1_099_511_627_776,
            ;
            assert(fraction * multiplier <= 1_000_000_000_000_000_000 * 1_099_511_627_776)
                by (nonlinear_arith)
                requires
                    fraction <= 1_000_000_000_000_000_000,
                    multiplier <= 1_099_511_627_776,
            ;
            let whole_bytes: u128 = (w as u128) * (multiplier as u128);
            let part_bytes: u128 = ((fraction as u128) * (multiplier as u128))
                / 1_000_000_000_000_000_000;
            let total: u128 = whole_bytes + part_bytes;
            if total > usize::MAX as u128 {
                usize::MAX
            } else {
                total as usize
            }
        },
    };
    if bytes == 0 {
        return Err(String::from_str("Resulting size is too small (rounds to 0 bytes)"));
    }
    Ok(bytes)
}

/// Accepts a size in bytes: a plain number of bytes, or a decimal number
/// with a unit such as `100MB`, `1.5GB` or `512k`. The units are `B`, `KB`,
/// `MB`, `GB` and `TB`, also written `K`, `M`, `G`, `T` or `KIB`, `MIB`,
/// `GIB`, `TIB`; each is 1024 times the one before.
pub fn validate_byte_size(s: &str) -> (r: Result<usize, String>)
    ensures
        match r {
            Ok(v) => byte_size_of(s@) == Ok::<usize, Seq<char>>(v),
            Err(m) => byte_size_of(s@) == Err::<usize, Seq<char>>(m@),
        },
{
    let chars = trim_chars(&to_chars(s));
    let text = from_chars(&chars);
    match parse_unsigned(text.as_str(), usize::MAX as u64) {
        Some(v) => {
            return if v > 0 {
                Ok(v as usize)
            } else {
                Err(String::from_str("Size must be > 0"))
            };
        },
        None => {},
    }
    let upper_text = to_uppercase(text.as_str());
    let upper = to_chars(upper_text.as_str());
    let at = find_letter(&upper);
    if at >= upper.len() {
        let mut m = String::from_str("Invalid size format: '");
        m.append(text.as_str());
        m.append("'. Use formats like '100MB', '1.5GB', or plain bytes");
        return Err(m);
    }
    let number = if at <= chars.len() {
        let n = crate::text::slice_chars(&chars, 0, at);
        assert(n@ =~= chars@.take(at as int));
        n
    } else {
        let n = crate::text::slice_chars(&chars, 0, chars.len());
        assert(n@ =~= chars@);
        n
    };
    let unit = crate::text::slice_chars(&upper, at, upper.len());
    assert(unit@ =~= upper@.skip(at as int));
    size_of_parts(from_chars(&number).as_str(), from_chars(&unit).as_str())
}

} // verus!
