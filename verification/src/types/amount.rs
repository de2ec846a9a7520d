//! Decimal quantities of an asset: how they are read from text, counted in
//! whole units of the asset's precision, and written back.

use vstd::prelude::*;
use vstd::string::*;
use crate::errors::ProtocolError;
use crate::text::{all_digits, decimal_text, decimal_value, digit_char, digit_value, is_digit, u64_to_text, lemma_decimal_text};
use crate::types::asset::AssetOfPrecision;

verus! {

/// Ten to the power `n`.
pub open spec fn pow10(n: nat) -> nat
    decreases n,
{
    if n == 0 {
        1
    } else {
        10 * pow10((n - 1) as nat)
    }
}

/// A power of ten is at least one, and a larger exponent gives no smaller
/// power.
pub proof fn lemma_pow10_monotone(a: nat, b: nat)
    requires
        a <= b,
    ensures
        1 <= pow10(a) <= pow10(b),
    decreases b,
{
    if a == 0 {
        if b > 0 {
            lemma_pow10_monotone(0, (b - 1) as nat);
        }
    } else {
        lemma_pow10_monotone((a - 1) as nat, (b - 1) as nat);
    }
}

/// `i` is where the first decimal point of `s` stands.
pub open spec fn is_first_point(s: Seq<char>, i: int) -> bool {
    &&& 0 <= i < s.len()
    &&& s[i] == '.'
    &&& forall|k: int| 0 <= k < i ==> s[k] != '.'
}

/// Where the first decimal point of `s` stands, or the length of `s` where it
/// has none.
pub open spec fn point_position(s: Seq<char>) -> int {
    if exists|i: int| is_first_point(s, i) {
        choose|i: int| is_first_point(s, i)
    } else {
        s.len() as int
    }
}

/// What stands before the first decimal point.
pub open spec fn whole_part(s: Seq<char>) -> Seq<char> {
    s.subrange(0, point_position(s))
}

/// What stands after the first decimal point; empty where there is none.
pub open spec fn fraction_part(s: Seq<char>) -> Seq<char> {
    if point_position(s) < s.len() {
        s.subrange(point_position(s) + 1, s.len() as int)
    } else {
        Seq::empty()
    }
}

/// `s` is a decimal numeral without sign: digits, and after them at most one
/// point that is followed by further digits.
pub open spec fn is_decimal_numeral(s: Seq<char>) -> bool {
    &&& whole_part(s).len() > 0
    &&& all_digits(whole_part(s))
    &&& all_digits(fraction_part(s))
    &&& point_position(s) < s.len() ==> fraction_part(s).len() > 0
}

/// The numeral `s` counted in units of ten to the minus `precision`. It is
/// meaningful where `s` has at most `precision` digits after the point.
pub open spec fn scaled_value(s: Seq<char>, precision: nat) -> nat {
    decimal_value(whole_part(s) + fraction_part(s)) * pow10(
        (precision - fraction_part(s).len()) as nat,
    )
}

/// The units that the text `s` amounts to at `precision` decimal places:
/// `s` must be a decimal numeral without sign, with no more than `precision`
/// digits after the point, whose units fit in 64 bits.
pub open spec fn parse_amount_spec(s: Seq<char>, precision: nat) -> Option<nat> {
    if is_decimal_numeral(s) && fraction_part(s).len() <= precision && scaled_value(s, precision)
        <= u64::MAX {
        Some(scaled_value(s, precision))
    } else {
        None
    }
}

/// `k` zeros.
pub open spec fn zeros(k: nat) -> Seq<char> {
    Seq::new(k, |i: int| '0')
}

/// The digits of `units`, with zeros in front until there is one digit more
/// than `precision`.
pub open spec fn padded_digits(units: nat, precision: nat) -> Seq<char> {
    let digits = decimal_text(units);
    if digits.len() > precision {
        digits
    } else {
        zeros((precision + 1 - digits.len()) as nat) + digits
    }
}

/// How `units` of ten to the minus `precision` are written: the whole part,
/// and where `precision` is not zero a point and exactly `precision` digits.
pub open spec fn amount_text(units: nat, precision: nat) -> Seq<char> {
    let padded = padded_digits(units, precision);
    if precision == 0 {
        padded
    } else {
        padded.subrange(0, padded.len() - precision) + seq!['.'] + padded.subrange(
            padded.len() - precision,
            padded.len() as int,
        )
    }
}

/// The value read so far after `start` has been followed by the digits `d`.
pub open spec fn running_value(start: nat, d: Seq<char>) -> nat {
    start * pow10(d.len()) + decimal_value(d)
}

/// `v` as a 64-bit number, where it is one.
pub open spec fn fits_u64(v: nat) -> Option<u64> {
    if v <= u64::MAX {
        Some(v as u64)
    } else {
        None
    }
}

/// One more digit multiplies what was read by ten and adds the digit.
pub proof fn lemma_running_value_step(start: nat, d: Seq<char>)
    requires
        d.len() > 0,
    ensures
        running_value(start, d) == running_value(start, d.drop_last()) * 10 + digit_value(
            d.last(),
        ),
{
    let n = d.len();
    assert(pow10(n) == 10 * pow10((n - 1) as nat));
    assert(start * pow10(n) == start * pow10((n - 1) as nat) * 10) by (nonlinear_arith)
        requires
            pow10(n) == 10 * pow10((n - 1) as nat),
    ;
}

/// Reading further digits never makes the value smaller.
pub proof fn lemma_running_value_monotone(start: nat, d: Seq<char>, j: int)
    requires
        0 <= j <= d.len(),
    ensures
        running_value(start, d.subrange(0, j)) <= running_value(start, d),
    decreases d.len() - j,
{
    if j == d.len() {
        assert(d.subrange(0, j) =~= d);
    } else {
        lemma_running_value_monotone(start, d, j + 1);
        let longer = d.subrange(0, j + 1);
        assert(longer.drop_last() =~= d.subrange(0, j));
        lemma_running_value_step(start, longer);
    }
}

/// The value of two digit strings written one after the other.
pub proof fn lemma_decimal_value_concat(a: Seq<char>, b: Seq<char>)
    ensures
        decimal_value(a + b) == running_value(decimal_value(a), b),
    decreases b.len(),
{
    if b.len() == 0 {
        assert(a + b =~= a);
        assert(pow10(0) == 1);
        assert(decimal_value(b) == 0);
    } else {
        lemma_decimal_value_concat(a, b.drop_last());
        assert((a + b).drop_last() =~= a + b.drop_last());
        assert((a + b).last() == b.last());
        assert(decimal_value(a + b) == decimal_value((a + b).drop_last()) * 10 + digit_value(
            (a + b).last(),
        ));
        lemma_running_value_step(decimal_value(a), b);
    }
}

/// Digits written after a numeral do not make its value smaller.
pub proof fn lemma_decimal_value_extends(a: Seq<char>, b: Seq<char>)
    ensures
        decimal_value(a) <= decimal_value(a + b),
    decreases b.len(),
{
    if b.len() == 0 {
        assert(a + b =~= a);
    } else {
        lemma_decimal_value_extends(a, b.drop_last());
        assert((a + b).drop_last() =~= a + b.drop_last());
        assert(decimal_value(a + b) == decimal_value((a + b).drop_last()) * 10 + digit_value(
            (a + b).last(),
        ));
    }
}

/// The first decimal point stands where a point is found that no point
/// precedes, and at the end where none is found.
pub proof fn lemma_point_position(s: Seq<char>, i: int)
    requires
        0 <= i <= s.len(),
        forall|k: int| 0 <= k < i ==> s[k] != '.',
    ensures
        point_position(s) >= i,
        i == s.len() ==> point_position(s) == i,
        i < s.len() && s[i] == '.' ==> point_position(s) == i,
{
    if exists|p: int| is_first_point(s, p) {
        let p = choose|p: int| is_first_point(s, p);
        assert(is_first_point(s, p));
        if p < i {
            assert(s[p] != '.');
        }
        if i < s.len() && s[i] == '.' && p > i {
            assert(s[i] != '.');
        }
    } else {
        if i < s.len() && s[i] == '.' {
            assert(is_first_point(s, i));
        }
    }
}

/// The digit that a character stands for, if it is one.
pub fn digit_of(c: char) -> (r: Option<u8>)
    ensures
        match r {
            Some(d) => d < 10 && c == digit_char(d as int) && is_digit(c) && digit_value(c) == d,
            None => !is_digit(c),
        },
{
    let r: Option<u8> = if c == '0' {
        Some(0)
    } else if c == '1' {
        Some(1)
    } else if c == '2' {
        Some(2)
    } else if c == '3' {
        Some(3)
    } else if c == '4' {
        Some(4)
    } else if c == '5' {
        Some(5)
    } else if c == '6' {
        Some(6)
    } else if c == '7' {
        Some(7)
    } else if c == '8' {
        Some(8)
    } else if c == '9' {
        Some(9)
    } else {
        None
    };
    proof {
        if let Some(d) = r {
            assert(c == digit_char(d as int));
        }
    }
    r
}

/// The first place at or after `from` where `s` holds no digit.
fn scan_digits(s: &str, from: usize, n: usize) -> (end: usize)
    requires
        n == s@.len(),
        from <= n,
    ensures
        from <= end <= n,
        forall|k: int| from <= k < end ==> is_digit(#[trigger] s@[k]),
        end < n ==> !is_digit(s@[end as int]),
{
    let mut i: usize = from;
    while i < n
        invariant
            n == s@.len(),
            from <= i <= n,
            forall|k: int| from <= k < i ==> is_digit(#[trigger] s@[k]),
        decreases n - i,
    {
        let c: char = s.get_char(i);
        match digit_of(c) {
            Some(_) => {},
            None => {
                return i;
            },
        }
        i = i + 1;
    }
    i
}

/// Reads the digits of `s` from `from` up to `to` after the value `start`.
fn accumulate(s: &str, from: usize, to: usize, start: u64) -> (r: Option<u64>)
    requires
        from <= to <= s@.len(),
        all_digits(s@.subrange(from as int, to as int)),
    ensures
        r == fits_u64(running_value(start as nat, s@.subrange(from as int, to as int))),
{
    let ghost d = s@.subrange(from as int, to as int);
    let mut acc: u64 = start;
    let mut i: usize = from;
    proof {
        assert(s@.subrange(from as int, from as int) =~= Seq::<char>::empty());
        assert(pow10(0) == 1);
    }
    while i < to
        invariant
            from <= i <= to <= s@.len(),
            d == s@.subrange(from as int, to as int),
            all_digits(d),
            acc == running_value(start as nat, s@.subrange(from as int, i as int)),
        decreases to - i,
    {
        let c: char = s.get_char(i);
        let ghost longer = s@.subrange(from as int, i + 1);
        proof {
            assert(d[i - from] == s@[i as int]);
            assert(is_digit(d[i - from]));
            assert(longer.drop_last() =~= s@.subrange(from as int, i as int));
            assert(longer.last() == c);
            lemma_running_value_step(start as nat, longer);
            assert(longer =~= d.subrange(0, i + 1 - from));
            lemma_running_value_monotone(start as nat, d, i + 1 - from);
        }
        match digit_of(c) {
            Some(digit) => {
                if acc > 1844674407370955161 || (acc == 1844674407370955161 && digit > 5) {
                    return None;
                }
                acc = acc * 10 + digit as u64;
            },
            None => {
                return None;
            },
        }
        i = i + 1;
    }
    proof {
        assert(s@.subrange(from as int, i as int) =~= d);
    }
    Some(acc)
}

/// Multiplies `value` by ten, `k` times.
fn scale(value: u64, k: u8) -> (r: Option<u64>)
    ensures
        r == fits_u64(value as nat * pow10(k as nat)),
{
    let mut acc: u64 = value;
    let mut j: u8 = 0;
    proof {
        assert(pow10(0) == 1);
    }
    while j < k
        invariant
            j <= k,
            acc == value as nat * pow10(j as nat),
        decreases k - j,
    {
        proof {
            lemma_pow10_monotone((j + 1) as nat, k as nat);
            assert(pow10((j + 1) as nat) == 10 * pow10(j as nat));
            assert(value as nat * pow10((j + 1) as nat) == acc * 10) by (nonlinear_arith)
                requires
                    pow10((j + 1) as nat) == 10 * pow10(j as nat),
                    acc == value as nat * pow10(j as nat),
            ;
            assert(value as nat * pow10((j + 1) as nat) <= value as nat * pow10(k as nat))
                by (nonlinear_arith)
                requires
                    pow10((j + 1) as nat) <= pow10(k as nat),
            ;
        }
        if acc > 1844674407370955161 {
            return None;
        }
        acc = acc * 10;
        j = j + 1;
    }
    Some(acc)
}

/// Reads a decimal numeral as units of ten to the minus `precision`.
pub fn parse_units(s: &str, precision: u8) -> (r: Option<u64>)
    ensures
        match r {
            Some(units) => parse_amount_spec(s@, precision as nat) == Some(units as nat),
            None => parse_amount_spec(s@, precision as nat) is None,
        },
{
    let n: usize = s.unicode_len();
    let whole_end: usize = scan_digits(s, 0, n);
    proof {
        assert forall|k: int| 0 <= k < whole_end implies s@[k] != '.' by {
            assert(is_digit(s@[k]));
        }
        lemma_point_position(s@, whole_end as int);
    }
    if whole_end == 0 {
        proof {
            if n > 0 && s@[0] != '.' {
                assert(whole_part(s@)[0] == s@[0]);
            }
        }
        return None;
    }
    if whole_end == n {
        proof {
            assert(whole_part(s@) =~= s@);
            assert(fraction_part(s@) =~= Seq::<char>::empty());
            assert(whole_part(s@) + fraction_part(s@) =~= s@);
            assert(s@.subrange(0, n as int) =~= s@);
            assert(pow10(0) == 1);
            lemma_pow10_monotone(0, precision as nat);
            assert(decimal_value(s@) <= decimal_value(s@) * pow10(precision as nat))
                by (nonlinear_arith)
                requires
                    1 <= pow10(precision as nat),
            ;
        }
        return match accumulate(s, 0, n, 0) {
            Some(value) => scale(value, precision),
            None => None,
        };
    }
    let mark: char = s.get_char(whole_end);
    if mark != '.' {
        proof {
            assert(whole_part(s@)[whole_end as int] == s@[whole_end as int]);
        }
        return None;
    }
    let fraction_start: usize = whole_end + 1;
    let fraction_end: usize = scan_digits(s, fraction_start, n);
    let ghost whole = s@.subrange(0, whole_end as int);
    let ghost fraction = s@.subrange(fraction_start as int, n as int);
    proof {
        assert(whole_part(s@) =~= whole);
        assert(fraction_part(s@) =~= fraction);
    }
    if fraction_end < n {
        proof {
            assert(fraction[fraction_end - fraction_start] == s@[fraction_end as int]);
        }
        return None;
    }
    if fraction_start == n {
        return None;
    }
    let fraction_len: usize = n - fraction_start;
    if fraction_len > precision as usize {
        return None;
    }
    let spare: u8 = (precision as usize - fraction_len) as u8;
    proof {
        assert(all_digits(whole)) by {
            assert forall|k: int| 0 <= k < whole.len() implies is_digit(#[trigger] whole[k]) by {
                assert(whole[k] == s@[k]);
            }
        }
        assert(all_digits(fraction)) by {
            assert forall|k: int| 0 <= k < fraction.len() implies is_digit(
                #[trigger] fraction[k],
            ) by {
                assert(fraction[k] == s@[k + fraction_start]);
            }
        }
        assert(pow10(0) == 1);
        lemma_decimal_value_concat(whole, fraction);
        lemma_pow10_monotone(0, spare as nat);
        assert(decimal_value(whole + fraction) <= decimal_value(whole + fraction) * pow10(
            spare as nat,
        )) by (nonlinear_arith)
            requires
                1 <= pow10(spare as nat),
        ;
    }
    proof {
        assert(running_value(0, whole) == decimal_value(whole));
        assert(is_decimal_numeral(s@));
        assert(fraction_part(s@).len() == fraction_len);
        assert(scaled_value(s@, precision as nat) == decimal_value(whole + fraction) * pow10(
            spare as nat,
        ));
    }
    match accumulate(s, 0, whole_end, 0) {
        Some(value) => match accumulate(s, fraction_start, n, value) {
            Some(digits) => {
                let r: Option<u64> = scale(digits, spare);
                proof {
                    assert(digits == decimal_value(whole + fraction));
                    assert(r == fits_u64(scaled_value(s@, precision as nat)));
                    match r {
                        Some(units) => {
                            assert(parse_amount_spec(s@, precision as nat) == Some(units as nat));
                        },
                        None => {
                            assert(parse_amount_spec(s@, precision as nat) is None);
                        },
                    }
                }
                r
            },
            None => {
                proof {
                    assert(decimal_value(whole + fraction) > u64::MAX);
                    assert(parse_amount_spec(s@, precision as nat) is None);
                }
                None
            },
        },
        None => {
            proof {
                assert(decimal_value(whole) > u64::MAX);
                lemma_decimal_value_extends(whole, fraction);
                assert(decimal_value(whole + fraction) > u64::MAX);
                assert(parse_amount_spec(s@, precision as nat) is None);
            }
            None
        },
    }
}

/// A quantity counted in units of ten to the minus `precision`.
#[derive(Clone, Copy, Debug, PartialEq, Eq, Structural)]
pub struct Amount {
    pub units: u64,
    pub precision: u8,
}

impl Amount {
    /// The quantity as a decimal numeral.
    pub open spec fn spec_text(&self) -> Seq<char> {
        amount_text(self.units as nat, self.precision as nat)
    }

    /// Writes the quantity as a decimal numeral, with as many digits after
    /// the point as the precision says.
    pub fn to_text(&self) -> (s: String)
        ensures
            s@ == self.spec_text(),
    {
        let digits: String = u64_to_text(self.units);
        if self.precision == 0 {
            proof {
                lemma_decimal_text(self.units as nat);
            }
            return digits;
        }
        let precision: usize = self.precision as usize;
        let len: usize = digits.as_str().unicode_len();
        let mut padded: String = String::new();
        let mut k: usize = len;
        proof {
            reveal_strlit("0");
            reveal_strlit(".");
            lemma_decimal_text(self.units as nat);
            assert(padded@ =~= zeros(0));
        }
        while k <= precision
            invariant
                len <= k,
                k == len || k <= precision + 1,
                precision < 256,
                padded@ == zeros((k - len) as nat),
                "0"@ == seq!['0'],
            decreases precision + 1 - k,
        {
            padded.append("0");
            proof {
                assert(zeros((k - len) as nat) + seq!['0'] =~= zeros((k + 1 - len) as nat));
            }
            k = k + 1;
        }
        padded.append(digits.as_str());
        proof {
            if len > precision {
                assert(padded@ =~= digits@);
            }
            assert(padded@ == padded_digits(self.units as nat, self.precision as nat));
        }
        let total: usize = padded.as_str().unicode_len();
        let whole: &str = padded.as_str().substring_char(0, total - precision);
        let fraction: &str = padded.as_str().substring_char(total - precision, total);
        let mut out: String = String::from_str(whole);
        out.append(".");
        out.append(fraction);
        out
    }
}

/// An amount of an asset.
#[derive(Clone, Copy, Debug, PartialEq, Eq, Structural)]
pub struct AssetAmount {
    pub asset: AssetOfPrecision,
    pub amount: Amount,
}

impl AssetOfPrecision {
    /// What `with_amount` returns for the text `amount`.
    pub open spec fn spec_with_amount(&self, amount: Seq<char>) -> Result<
        AssetAmount,
        ProtocolError,
    > {
        match parse_amount_spec(amount, self.precision as nat) {
            Some(units) => Ok(
                AssetAmount {
                    asset: *self,
                    amount: Amount { units: units as u64, precision: self.precision },
                },
            ),
            None => Err(ProtocolError::InvalidAmount),
        }
    }

    /// The amount of this asset that the decimal numeral `amount` names. It
    /// is refused where it is no numeral without sign, has more digits after
    /// the point than the asset's precision, or does not fit the encoding.
    pub fn with_amount(&self, amount: &str) -> (r: Result<AssetAmount, ProtocolError>)
        ensures
            r == self.spec_with_amount(amount@),
    {
        match parse_units(amount, self.precision) {
            Some(units) => Ok(
                AssetAmount {
                    asset: *self,
                    amount: Amount { units, precision: self.precision },
                },
            ),
            None => Err(ProtocolError::InvalidAmount),
        }
    }
}

} // verus!
