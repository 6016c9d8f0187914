use vstd::prelude::*;
use crate::candle::PRICE_SCALE;
use crate::text::chars_of;

verus! {

/// The number of digits behind the point that a tick resolves. Digits
/// beyond them are read and dropped.
pub const FRACTION_DIGITS: usize = 6;

/// Where the running value of a run of digits stops growing: far above any
/// price, far below the machine's limit.
pub const DIGITS_CAP: i128 = 100_000_000_000_000_000_000;

/// One of the ten digits.
pub open spec fn is_digit(c: char) -> bool {
    '0' <= c && c <= '9'
}

/// The number that a digit writes.
pub open spec fn digit_of(c: char) -> int {
    (c as int) - ('0' as int)
}

/// Every character of `s` is a digit.
pub open spec fn all_digits(s: Seq<char>) -> bool {
    forall|i: int| 0 <= i < s.len() ==> is_digit(#[trigger] s[i])
}

/// The number that a run of digits writes.
pub open spec fn digits_value(s: Seq<char>) -> int
    decreases s.len(),
{
    if s.len() == 0 {
        0
    } else {
        digits_value(s.drop_last()) * 10 + digit_of(s.last())
    }
}

/// The index of the first point in `s`, or the length of `s` without one.
pub open spec fn point_index(s: Seq<char>) -> int
    decreases s.len(),
{
    if s.len() == 0 {
        0
    } else if s[0] == '.' {
        0
    } else {
        1 + point_index(s.drop_first())
    }
}

/// Ten to the power `n`, for the few powers that a fraction needs.
pub open spec fn pow10(n: int) -> int {
    if n <= 0 {
        1
    } else if n == 1 {
        10
    } else if n == 2 {
        100
    } else if n == 3 {
        1_000
    } else if n == 4 {
        10_000
    } else if n == 5 {
        100_000
    } else {
        1_000_000
    }
}

/// The digits behind the point that count.
pub open spec fn kept_fraction(frac: Seq<char>) -> Seq<char> {
    if frac.len() <= FRACTION_DIGITS {
        frac
    } else {
        frac.subrange(0, FRACTION_DIGITS as int)
    }
}

/// The ticks that an unsigned decimal writes: digits, then perhaps a point
/// and more digits, with a digit on at least one side.
pub open spec fn magnitude(s: Seq<char>) -> Option<int> {
    let p = point_index(s);
    let whole = s.subrange(0, p);
    let frac = if p < s.len() {
        s.subrange(p + 1, s.len() as int)
    } else {
        Seq::empty()
    };
    let kept = kept_fraction(frac);
    if all_digits(whole) && all_digits(frac) && whole.len() + frac.len() > 0 {
        Some(
            digits_value(whole) * PRICE_SCALE + digits_value(kept) * pow10(
                FRACTION_DIGITS - kept.len(),
            ),
        )
    } else {
        None
    }
}

/// The ticks that a decimal with an optional sign writes.
pub open spec fn signed_ticks(s: Seq<char>) -> Option<int> {
    if s.len() > 0 && s[0] == '-' {
        match magnitude(s.drop_first()) {
            Some(m) => Some(-m),
            None => None,
        }
    } else if s.len() > 0 && s[0] == '+' {
        magnitude(s.drop_first())
    } else {
        magnitude(s)
    }
}

/// The price that `s` writes, where it writes a decimal that fits a price.
/// Exponent forms are no decimals here and write no price.
pub open spec fn price_of(s: Seq<char>) -> Option<i64> {
    match signed_ticks(s) {
        Some(v) => if i64::MIN <= v <= i64::MAX {
            Some(v as i64)
        } else {
            None
        },
        None => None,
    }
}

/// A run of `n` digits, `n` no more than six, writes a number below ten to
/// the `n`; any run of digits writes a number that is not negative.
pub proof fn lemma_digits_value_bounds(s: Seq<char>)
    requires
        all_digits(s),
    ensures
        0 <= digits_value(s),
        s.len() <= FRACTION_DIGITS ==> digits_value(s) < pow10(s.len() as int),
    decreases s.len(),
{
    if s.len() > 0 {
        lemma_digits_value_bounds(s.drop_last());
        assert(is_digit(s[s.len() - 1]));
    }
}

/// The index of the first point at or behind `from`.
fn find_point(chars: &Vec<char>, from: usize) -> (p: usize)
    requires
        from <= chars@.len(),
    ensures
        from <= p <= chars@.len(),
        p - from == point_index(chars@.subrange(from as int, chars@.len() as int)),
{
    let n: usize = chars.len();
    let mut p: usize = from;
    while p < n && chars[p] != '.'
        invariant
            n == chars@.len(),
            from <= p <= n,
            point_index(chars@.subrange(from as int, n as int)) == (p - from) + point_index(
                chars@.subrange(p as int, n as int),
            ),
        decreases n - p,
    {
        assert(chars@.subrange(p as int, n as int).drop_first() =~= chars@.subrange(
            p + 1,
            n as int,
        ));
        p += 1;
    }
    p
}

/// The value of the digits `chars[from..to]`, held at [`DIGITS_CAP`] where
/// it is greater; nothing where a character among them is no digit.
fn read_digits(chars: &Vec<char>, from: usize, to: usize) -> (value: Option<i128>)
    requires
        from <= to <= chars@.len(),
    ensures
        value is Some <==> all_digits(chars@.subrange(from as int, to as int)),
        value is Some ==> value->0 == (if digits_value(chars@.subrange(from as int, to as int))
            < DIGITS_CAP {
            digits_value(chars@.subrange(from as int, to as int))
        } else {
            DIGITS_CAP as int
        }),
{
    let mut acc: i128 = 0;
    let mut i: usize = from;
    assert(chars@.subrange(from as int, from as int) =~= Seq::<char>::empty());
    while i < to
        invariant
            from <= i <= to <= chars@.len(),
            all_digits(chars@.subrange(from as int, i as int)),
            0 <= acc <= DIGITS_CAP,
            acc == (if digits_value(chars@.subrange(from as int, i as int)) < DIGITS_CAP {
                digits_value(chars@.subrange(from as int, i as int))
            } else {
                DIGITS_CAP as int
            }),
        decreases to - i,
    {
        let c: char = chars[i];
        if !('0' <= c && c <= '9') {
            assert(!is_digit(chars@.subrange(from as int, to as int)[i - from]));
            return None;
        }
        proof {
            let before = chars@.subrange(from as int, i as int);
            let after = chars@.subrange(from as int, i + 1);
            assert(after.drop_last() =~= before);
            assert(after.last() == c);
            assert forall|k: int| 0 <= k < after.len() implies is_digit(#[trigger] after[k]) by {
                if k < before.len() {
                    assert(after[k] == before[k]);
                }
            }
            lemma_digits_value_bounds(before);
        }
        let digit: i128 = (c as u32 - '0' as u32) as i128;
        let next: i128 = acc * 10 + digit;
        acc = if next < DIGITS_CAP {
            next
        } else {
            DIGITS_CAP
        };
        i += 1;
    }
    Some(acc)
}

/// The factor that lifts a fraction of `kept` digits to ticks.
fn fraction_scale(kept: usize) -> (scale: i128)
    requires
        kept <= FRACTION_DIGITS,
    ensures
        scale == pow10(FRACTION_DIGITS - kept),
{
    let mut scale: i128 = 1;
    let mut k: usize = kept;
    while k < FRACTION_DIGITS
        invariant
            kept <= k <= FRACTION_DIGITS,
            scale == pow10(k - kept),
        decreases FRACTION_DIGITS - k,
    {
        scale = scale * 10;
        k += 1;
    }
    scale
}

/// The ticks of a fraction: its kept digits, lifted to ticks.
fn read_fraction(chars: &Vec<char>, from: usize) -> (ticks: Option<i128>)
    requires
        from <= chars@.len(),
    ensures
        ticks is Some <==> all_digits(chars@.subrange(from as int, chars@.len() as int)),
        ticks is Some ==> 0 <= ticks->0 < PRICE_SCALE && ticks->0 == ({
            let kept = kept_fraction(chars@.subrange(from as int, chars@.len() as int));
            digits_value(kept) * pow10(FRACTION_DIGITS - kept.len())
        }),
{
    let n: usize = chars.len();
    let kept_end: usize = if n - from <= FRACTION_DIGITS {
        n
    } else {
        from + FRACTION_DIGITS
    };
    let ghost frac = chars@.subrange(from as int, n as int);
    let ghost kept = kept_fraction(frac);
    if read_digits(chars, from, n).is_none() {
        return None;
    }
    proof {
        assert(kept =~= chars@.subrange(from as int, kept_end as int));
        assert forall|k: int| 0 <= k < kept.len() implies is_digit(#[trigger] kept[k]) by {
            assert(kept[k] == frac[k]);
        }
        lemma_digits_value_bounds(kept);
    }
    match read_digits(chars, from, kept_end) {
        Some(f) => {
            let scale = fraction_scale(kept_end - from);
            assert(0 <= f * scale < 1_000_000) by (nonlinear_arith)
                requires
                    0 <= f,
                    (scale == 1 && f < 1_000_000) || (scale == 10 && f < 100_000) || (scale == 100
                        && f < 10_000) || (scale == 1_000 && f < 1_000) || (scale == 10_000 && f
                        < 100) || (scale == 100_000 && f < 10) || (scale == 1_000_000 && f < 1),
            ;
            Some(f * scale)
        },
        None => None,
    }
}

/// The ticks of the unsigned decimal `chars[from..]`, held at
/// [`DIGITS_CAP`] price units where they are more.
fn read_magnitude(chars: &Vec<char>, from: usize) -> (ticks: Option<i128>)
    requires
        from <= chars@.len(),
    ensures
        ticks is Some <==> magnitude(chars@.subrange(from as int, chars@.len() as int)) is Some,
        ticks is Some ==> ({
            let m = magnitude(chars@.subrange(from as int, chars@.len() as int))->0;
            &&& 0 <= ticks->0 <= m
            &&& m < DIGITS_CAP * PRICE_SCALE ==> ticks->0 == m
            &&& m >= DIGITS_CAP * PRICE_SCALE ==> ticks->0 >= DIGITS_CAP * PRICE_SCALE
        }),
{
    let n: usize = chars.len();
    let ghost body = chars@.subrange(from as int, n as int);
    let p = find_point(chars, from);
    let frac_start: usize = if p < n {
        p + 1
    } else {
        n
    };
    let ghost whole = body.subrange(0, p - from);
    let ghost frac = if p - from < body.len() {
        body.subrange(p - from + 1, body.len() as int)
    } else {
        Seq::empty()
    };
    proof {
        assert(whole =~= chars@.subrange(from as int, p as int));
        assert(frac =~= chars@.subrange(frac_start as int, n as int));
    }
    let whole_value = read_digits(chars, from, p);
    let frac_value = read_fraction(chars, frac_start);
    if (p - from) + (n - frac_start) == 0 {
        return None;
    }
    match (whole_value, frac_value) {
        (Some(w), Some(f)) => {
            proof {
                lemma_digits_value_bounds(whole);
            }
            Some(w * (PRICE_SCALE as i128) + f)
        },
        _ => None,
    }
}

/// Reads a price written as a decimal: an optional sign, digits, and
/// perhaps a point and more digits. Text of any other shape, and a decimal
/// too large for a price, give nothing.
///
/// A price is a whole number of ticks, so only plain decimals are read.
/// Exponent forms such as `1e5`, and the words that a floating-point reader
/// takes for infinities and for no number, are refused on purpose: a
/// record that writes a price so is dropped like any other that does not
/// read.
pub fn parse_price(text: &str) -> (price: Option<i64>)
    ensures
        price == price_of(text@),
{
    let chars = chars_of(text);
    let n: usize = chars.len();
    let mut start: usize = 0;
    let mut negative = false;
    if n > 0 {
        if chars[0] == '-' {
            negative = true;
            start = 1;
        } else if chars[0] == '+' {
            start = 1;
        }
    }
    proof {
        if start == 1 {
            assert(chars@.subrange(start as int, n as int) =~= text@.drop_first());
        } else {
            assert(chars@.subrange(start as int, n as int) =~= text@);
        }
    }
    match read_magnitude(&chars, start) {
        Some(ticks) => {
            let signed: i128 = if negative {
                -ticks
            } else {
                ticks
            };
            if signed < i64::MIN as i128 || signed > i64::MAX as i128 {
                None
            } else {
                Some(signed as i64)
            }
        },
        None => None,
    }
}

} // verus!
