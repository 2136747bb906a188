//! Reading and writing scores as decimal numerals.

use vstd::prelude::*;
use crate::provider::Score;
use crate::text::{append_decimal, decimal, digit_char, rows, split_chars, split_on, to_chars};

verus! {

/// Whether `c` is one of the digits `0` to `9`.
pub open spec fn is_digit(c: char) -> bool {
    48 <= c as u32 <= 57
}

/// The number that the digit `c` stands for.
pub open spec fn digit_of(c: char) -> nat {
    (c as u32 - 48) as nat
}

/// Whether `s` is made of digits only.
pub open spec fn all_digits(s: Seq<char>) -> bool {
    forall|i: int| 0 <= i < s.len() ==> is_digit(#[trigger] s[i])
}

/// The number that the digits `s` write in base ten; 0 for no digits.
pub open spec fn digits_value(s: Seq<char>) -> nat
    decreases s.len(),
{
    if s.len() == 0 {
        0
    } else {
        digits_value(s.drop_last()) * 10 + digit_of(s.last())
    }
}

/// The first six digits after the decimal point, with zeros where there are
/// fewer than six.
pub open spec fn six_places(fraction: Seq<char>) -> Seq<char> {
    Seq::new(6, |i: int| if i < fraction.len() { fraction[i] } else { '0' })
}

/// The number of millionths that a numeral writes: digits, with at most one
/// decimal point among them or at either end, and at least one digit.
/// Places beyond the sixth are dropped. Any other text writes no number.
pub open spec fn decimal_millionths(text: Seq<char>) -> Option<nat> {
    let parts = split_on(text, '.');
    if parts.len() > 2 {
        None
    } else {
        let whole = parts[0];
        let fraction = if parts.len() == 2 {
            parts[1]
        } else {
            Seq::empty()
        };
        if all_digits(whole) && all_digits(fraction) && whole.len() + fraction.len() > 0 {
            Some(digits_value(whole) * 1_000_000 + digits_value(six_places(fraction)))
        } else {
            None
        }
    }
}

/// The score that a numeral writes; a number too large for a score is the
/// largest score.
pub open spec fn score_of(text: Seq<char>) -> Option<Score> {
    match decimal_millionths(text) {
        None => None,
        Some(n) => Some(
            Score { millionths: if n > u64::MAX { u64::MAX } else { n as u64 } },
        ),
    }
}

/// The numeral of a score with two decimal places, rounded half up.
pub open spec fn two_places(score: Score) -> Seq<char> {
    let hundredths = ((score.millionths + 5_000) / 10_000) as nat;
    decimal(hundredths / 100).push('.').push(digit_char((hundredths / 10) % 10)).push(
        digit_char(hundredths % 10),
    )
}

/// The numeral of a score with one decimal place, rounded half up.
pub open spec fn one_place(score: Score) -> Seq<char> {
    let tenths = ((score.millionths + 50_000) / 100_000) as nat;
    decimal(tenths / 10).push('.').push(digit_char(tenths % 10))
}

fn check_digits(s: &Vec<char>) -> (r: bool)
    ensures
        r == all_digits(s@),
{
    let mut i: usize = 0;
    while i < s.len()
        invariant
            i <= s.len(),
            forall|k: int| 0 <= k < i ==> is_digit(#[trigger] s@[k]),
        decreases s.len() - i,
    {
        let n: u32 = s[i] as u32;
        if n < 48 || n > 57 {
            return false;
        }
        i += 1;
    }
    true
}

/// The largest whole part whose millionths still fit in 64 bits.
pub const WHOLE_LIMIT: u64 = 18_446_744_073_709;

/// The value of the digits `s`, or `None` where it is above `WHOLE_LIMIT`.
fn whole_value(s: &Vec<char>) -> (r: Option<u64>)
    requires
        all_digits(s@),
    ensures
        match r {
            Some(v) => v == digits_value(s@) && v <= WHOLE_LIMIT,
            None => digits_value(s@) > WHOLE_LIMIT,
        },
{
    let mut acc: u64 = 0;
    let mut over: bool = false;
    let mut i: usize = 0;
    assert(s@.take(0) =~= Seq::<char>::empty());
    while i < s.len()
        invariant
            i <= s.len(),
            all_digits(s@),
            !over ==> acc == digits_value(s@.take(i as int)) && acc <= WHOLE_LIMIT,
            over ==> digits_value(s@.take(i as int)) > WHOLE_LIMIT,
        decreases s.len() - i,
    {
        assert(s@.take(i + 1).drop_last() =~= s@.take(i as int));
        assert(is_digit(s@[i as int]));
        if !over {
            let d: u64 = (s[i] as u32 - 48) as u64;
            acc = acc * 10 + d;
            if acc > WHOLE_LIMIT {
                over = true;
            }
        }
        i += 1;
    }
    assert(s@.take(s.len() as int) =~= s@);
    if over {
        None
    } else {
        Some(acc)
    }
}

fn fraction_value(f: &Vec<char>) -> (r: u64)
    requires
        all_digits(f@),
    ensures
        r == digits_value(six_places(f@)),
        r < 1_000_000,
{
    let mut acc: u64 = 0;
    let mut j: usize = 0;
    let ghost places = six_places(f@);
    assert(places.take(0) =~= Seq::<char>::empty());
    assert(digits_value(places.take(0)) == 0);
    while j < 6
        invariant
            j <= 6,
            all_digits(f@),
            places == six_places(f@),
            acc == digits_value(places.take(j as int)),
            j == 0 ==> acc == 0,
            j == 1 ==> acc < 10,
            j == 2 ==> acc < 100,
            j == 3 ==> acc < 1_000,
            j == 4 ==> acc < 10_000,
            j == 5 ==> acc < 100_000,
            j == 6 ==> acc < 1_000_000,
        decreases 6 - j,
    {
        assert(places.take(j + 1).drop_last() =~= places.take(j as int));
        let d: u64 = if j < f.len() {
            assert(is_digit(f@[j as int]));
            (f[j] as u32 - 48) as u64
        } else {
            0
        };
        assert(d == digit_of(places[j as int]));
        acc = acc * 10 + d;
        j += 1;
    }
    assert(places.take(6) =~= places);
    acc
}

impl Score {
    /// Reads a decimal numeral such as `0.95`, `1.` or `.5`. Digits beyond
    /// the sixth decimal place are dropped, and a number too large for a
    /// score gives the largest score. Text that is no such numeral gives
    /// `None`.
    pub fn parse_decimal(text: &str) -> (r: Option<Score>)
        ensures
            r == score_of(text@),
    {
        let chars = to_chars(text);
        let parts = split_chars(&chars, '.');
        if parts.len() > 2 {
            return None;
        }
        assert(rows(parts@)[0] == parts@[0]@);
        let whole = &parts[0];
        let empty: Vec<char> = Vec::new();
        let fraction = if parts.len() == 2 {
            assert(rows(parts@)[1] == parts@[1]@);
            &parts[1]
        } else {
            &empty
        };
        assert(parts.len() != 2 ==> fraction@ =~= Seq::<char>::empty());
        if !(check_digits(whole) && check_digits(fraction)) {
            return None;
        }
        if whole.len() == 0 && fraction.len() == 0 {
            return None;
        }
        let places = fraction_value(fraction);
        match whole_value(whole) {
            None => Some(Score { millionths: u64::MAX }),
            Some(w) => {
                let total: u128 = (w as u128) * 1_000_000 + (places as u128);
                if total > u64::MAX as u128 {
                    Some(Score { millionths: u64::MAX })
                } else {
                    Some(Score { millionths: total as u64 })
                }
            },
        }
    }

    /// Appends the numeral of the score with two decimal places, rounded
    /// half up.
    pub fn append_two_places(self, out: &mut String)
        ensures
            final(out)@ == old(out)@ + two_places(self),
    {
        let hundredths: u64 = ((self.millionths as u128 + 5_000) / 10_000) as u64;
        append_decimal(out, hundredths / 100);
        out.push('.');
        out.push((48 + ((hundredths / 10) % 10) as u8) as char);
        out.push((48 + (hundredths % 10) as u8) as char);
        assert(out@ =~= old(out)@ + two_places(self));
    }

    /// Appends the numeral of the score with one decimal place, rounded half
    /// up.
    pub fn append_one_place(self, out: &mut String)
        ensures
            final(out)@ == old(out)@ + one_place(self),
    {
        let tenths: u64 = ((self.millionths as u128 + 50_000) / 100_000) as u64;
        append_decimal(out, tenths / 10);
        out.push('.');
        out.push((48 + (tenths % 10) as u8) as char);
        assert(out@ =~= old(out)@ + one_place(self));
    }
}

} // verus!
