//! Signed decimals with twelve places after the point, and their text.

use vstd::prelude::*;
use crate::amount::{
    decimal_text, decimal_value, is_decimal, lemma_decimal_round_trip, lemma_decimal_value_bound,
    lemma_pow10_12, pow10, Amount,
};
use crate::text::{char_of_digit, digit_char, is_digit, lemma_digit_char};

verus! {

/// The number of places after the point.
pub const PLACES: usize = 12;

/// One, in units of the last place: ten to the power [`PLACES`].
pub const UNIT: u64 = 1_000_000_000_000;

/// The digits of `f` in `places` places, zeros in front included.
pub open spec fn padded_text(f: nat, places: nat) -> Seq<char>
    decreases places,
{
    if places == 0 {
        Seq::empty()
    } else {
        padded_text(f / 10, (places - 1) as nat).push(digit_char(f % 10))
    }
}

/// The digits after the point of a fraction of `f` units of the last of
/// `places` places: zeros at the end are left out, so a fraction of zero has
/// no digits.
pub open spec fn fraction_text(f: nat, places: nat) -> Seq<char>
    decreases places,
{
    if places == 0 {
        Seq::empty()
    } else if f % 10 == 0 {
        fraction_text(f / 10, (places - 1) as nat)
    } else {
        padded_text(f, places)
    }
}

/// The text of the decimal of `raw` units of the last place, negative or
/// not: a minus sign if negative, the whole part, and, unless the fraction is
/// zero, a point and the fraction without the zeros at its end.
pub open spec fn dec_text(negative: bool, raw: nat) -> Seq<char> {
    let sign = if negative {
        seq!['-']
    } else {
        Seq::empty()
    };
    let whole = decimal_text(raw / (UNIT as nat));
    let fraction = fraction_text(raw % (UNIT as nat), PLACES as nat);
    if fraction.len() == 0 {
        sign + whole
    } else {
        sign + whole + seq!['.'] + fraction
    }
}

/// The place of the first point in `s`, or the length of `s` if it has none.
pub open spec fn point_at(s: Seq<char>) -> int
    decreases s.len(),
{
    if s.len() == 0 {
        0
    } else if s[0] == '.' {
        0
    } else {
        1 + point_at(s.drop_first())
    }
}

/// Whether `s` begins with a minus sign.
pub open spec fn has_sign(s: Seq<char>) -> bool {
    s.len() > 0 && s[0] == '-'
}

/// `s` without the minus sign that it may begin with.
pub open spec fn unsigned_part(s: Seq<char>) -> Seq<char> {
    if has_sign(s) {
        s.skip(1)
    } else {
        s
    }
}

/// Whether `s` is the text of a decimal: an optional minus sign, decimal
/// text for the whole part, and optionally a point with one to twelve
/// digits behind it.
pub open spec fn is_dec_text(s: Seq<char>) -> bool {
    let body = unsigned_part(s);
    let point = point_at(body);
    if point == body.len() {
        is_decimal(body)
    } else {
        let fraction = body.skip(point + 1);
        is_decimal(body.take(point)) && is_decimal(fraction) && fraction.len() <= PLACES
    }
}

/// What the text `s` of a decimal writes, sign apart, in units of the last
/// place.
pub open spec fn dec_magnitude(s: Seq<char>) -> nat {
    let body = unsigned_part(s);
    let point = point_at(body);
    if point == body.len() {
        decimal_value(body) * (UNIT as nat)
    } else {
        let fraction = body.skip(point + 1);
        decimal_value(body.take(point)) * (UNIT as nat) + decimal_value(fraction) * pow10(
            (PLACES - fraction.len()) as nat,
        )
    }
}

/// A signed decimal with twelve places after the point.
#[derive(Debug, PartialEq, Eq)]
pub struct Dec {
    negative: bool,
    raw: Amount,
}

/// Appends the digits of `f` in `places` places.
fn push_padded(text: &mut String, f: u64, places: usize)
    ensures
        final(text)@ == old(text)@ + padded_text(f as nat, places as nat),
    decreases places,
{
    if places > 0 {
        push_padded(text, f / 10, places - 1);
        text.push(char_of_digit((f % 10) as u8));
        assert(text@ =~= old(text)@ + padded_text(f as nat, places as nat));
    } else {
        assert(text@ =~= old(text)@ + padded_text(f as nat, 0));
    }
}

impl Clone for Dec {
    /// A copy of the decimal.
    fn clone(&self) -> (copy: Self)
        ensures
            copy.is_negative() == self.is_negative(),
            copy.magnitude() == self.magnitude(),
    {
        proof {
            use_type_invariant(self);
        }
        Dec { negative: self.negative, raw: self.raw.clone() }
    }
}

impl Dec {
    #[verifier::type_invariant]
    spec fn well_formed(self) -> bool {
        self.negative ==> self.raw@ != 0
    }

    /// Whether the decimal is below zero.
    pub closed spec fn is_negative(&self) -> bool {
        self.negative
    }

    /// The size of the decimal, in units of the last place.
    pub closed spec fn magnitude(&self) -> nat {
        self.raw@
    }

    /// The text of the decimal.
    pub open spec fn text(&self) -> Seq<char> {
        dec_text(self.is_negative(), self.magnitude())
    }

    /// The decimal of `raw` units of the last place, below zero if
    /// `negative` says so and `raw` is not zero.
    pub fn new(negative: bool, raw: Amount) -> (dec: Dec)
        ensures
            dec.magnitude() == raw@,
            dec.is_negative() == (negative && raw@ != 0),
    {
        let zero = raw.is_zero();
        Dec { negative: negative && !zero, raw }
    }

    /// The share that `part` is of `whole`, rounded down to the last place.
    pub fn share(part: &Amount, whole: &Amount) -> (dec: Dec)
        requires
            whole@ > 0,
            part@ <= whole@,
        ensures
            !dec.is_negative(),
            dec.magnitude() == (part@ * (UNIT as nat)) / whole@,
    {
        let scaled = part.mul_add_small(UNIT, 0);
        let ghost target = scaled@;
        let ghost w = whole@;
        let mut low: u64 = 0;
        let mut high: u64 = UNIT + 1;
        proof {
            assert(0 * w <= target) by (nonlinear_arith);
            assert(target < (UNIT + 1) * w) by (nonlinear_arith)
                requires
                    target == part@ * UNIT + 0,
                    part@ <= w,
                    w > 0,
            ;
        }
        while high - low > 1
            invariant
                low < high <= UNIT + 1,
                w == whole@,
                target == scaled@,
                low * w <= target,
                target < high * w,
            decreases high - low,
        {
            let mid: u64 = low + (high - low) / 2;
            let product = whole.mul_add_small(mid, 0);
            assert(product@ == mid * w) by (nonlinear_arith)
                requires
                    product@ == w * mid + 0,
            ;
            if product.le(&scaled) {
                low = mid;
            } else {
                high = mid;
            }
        }
        proof {
            assert(target / w == low) by (nonlinear_arith)
                requires
                    low * w <= target,
                    target < (low + 1) * w,
                    w > 0,
            ;
        }
        Dec { negative: false, raw: Amount::from_u64(low) }
    }


    /// Reads the text of a decimal. A minus sign before zero is read and
    /// ignored.
    pub fn parse(s: &str) -> (parsed: Option<Dec>)
        ensures
            match parsed {
                Some(dec) => is_dec_text(s@) && dec.magnitude() == dec_magnitude(s@)
                    && dec.is_negative() == (has_sign(s@) && dec_magnitude(s@) != 0),
                None => !is_dec_text(s@),
            },
    {
        let n: usize = s.unicode_len();
        let negative = n > 0 && s.get_char(0) == '-';
        let start: usize = if negative {
            1
        } else {
            0
        };
        let ghost body = unsigned_part(s@);
        assert(body == s@.skip(start as int)) by {
            assert(s@.skip(0) =~= s@);
        }
        let mut point: usize = start;
        while point < n && s.get_char(point) != '.'
            invariant
                start <= point <= n,
                n == s@.len(),
                body == s@.skip(start as int),
                forall|k: int| 0 <= k < point - start ==> #[trigger] body[k] != '.',
            decreases n - point,
        {
            point = point + 1;
        }
        proof {
            lemma_point_found(body, point - start);
        }
        let whole_text = s.substring_char(start, point);
        assert(whole_text@ =~= body.take(point - start));
        assert(point == n ==> whole_text@ =~= body);
        let whole = match Amount::parse(whole_text) {
            Some(whole) => whole,
            None => {
                return None;
            },
        };
        if point == n {
            return Some(Dec::new(negative, whole.mul_add_small(UNIT, 0)));
        }
        let fraction_text = s.substring_char(point + 1, n);
        assert(fraction_text@ =~= body.skip(point - start + 1));
        let digits: usize = n - point - 1;
        if digits > PLACES {
            return None;
        }
        let fraction = match Amount::parse(fraction_text) {
            Some(fraction) => fraction,
            None => {
                return None;
            },
        };
        proof {
            lemma_decimal_value_bound(fraction_text@);
            lemma_pow10_grows(digits as nat, PLACES as nat);
            lemma_pow10_12();
            assert(fraction@ % pow10(PLACES as nat) == fraction@) by (nonlinear_arith)
                requires
                    fraction@ < pow10(PLACES as nat),
            ;
        }
        let mut units: u64 = fraction.rem_pow10(PLACES);
        let mut place: usize = digits;
        proof {
            assert(units * pow10(0) == units) by (nonlinear_arith)
                requires
                    pow10(0) == 1,
            ;
        }
        while place < PLACES
            invariant
                digits <= place <= PLACES,
                units == fraction@ * pow10((place - digits) as nat),
                units < pow10(place as nat),
                pow10(PLACES as nat) == 1_000_000_000_000,
            decreases PLACES - place,
        {
            proof {
                lemma_pow10_grows((place + 1) as nat, PLACES as nat);
                let grown = pow10((place - digits) as nat);
                assert(pow10((place + 1 - digits) as nat) == 10 * grown);
                assert(fraction@ * (10 * grown) == (fraction@ * grown) * 10) by (nonlinear_arith);
                assert(pow10((place + 1) as nat) == 10 * pow10(place as nat));
            }
            units = units * 10;
            place = place + 1;
        }
        Some(Dec::new(negative, whole.mul_add_small(UNIT, units)))
    }

    /// The text of the decimal.
    pub fn to_string(&self) -> (text: String)
        ensures
            text@ == self.text(),
    {
        proof {
            lemma_pow10_12();
        }
        let mut text = String::new();
        if self.negative {
            text.push('-');
        }
        let ghost sign = text@;
        let whole = self.raw.div_pow10(PLACES).to_string();
        text.append(whole.as_str());
        let mut fraction: u64 = self.raw.rem_pow10(PLACES);
        let mut places: usize = PLACES;
        let ghost wanted = fraction_text(fraction as nat, PLACES as nat);
        while places > 0 && fraction % 10 == 0
            invariant
                places <= PLACES,
                fraction_text(fraction as nat, places as nat) == wanted,
            decreases places,
        {
            fraction = fraction / 10;
            places = places - 1;
        }
        if places > 0 {
            text.push('.');
            push_padded(&mut text, fraction, places);
            proof {
                assert(wanted == padded_text(fraction as nat, places as nat));
                lemma_padded_len(fraction as nat, places as nat);
                assert(text@ =~= sign + whole@ + seq!['.'] + wanted);
            }
        } else {
            proof {
                assert(wanted.len() == 0);
                assert(text@ =~= sign + whole@);
            }
        }
        text
    }
}

proof fn lemma_point_found(s: Seq<char>, k: int)
    requires
        0 <= k <= s.len(),
        forall|i: int| 0 <= i < k ==> #[trigger] s[i] != '.',
        k < s.len() ==> s[k] == '.',
    ensures
        point_at(s) == k,
    decreases k,
{
    if k > 0 {
        let rest = s.drop_first();
        assert forall|i: int| 0 <= i < k - 1 implies #[trigger] rest[i] != '.' by {
            assert(rest[i] == s[i + 1]);
        }
        assert(s[0] != '.');
        lemma_point_found(rest, k - 1);
    }
}

proof fn lemma_pow10_grows(a: nat, b: nat)
    requires
        a <= b,
    ensures
        pow10(a) <= pow10(b),
        pow10(a) > 0,
    decreases b,
{
    if a < b {
        lemma_pow10_grows(a, (b - 1) as nat);
    } else if a > 0 {
        lemma_pow10_grows((a - 1) as nat, (a - 1) as nat);
    }
}

proof fn lemma_padded_text(f: nat, places: nat)
    requires
        f < pow10(places),
    ensures
        padded_text(f, places).len() == places,
        forall|i: int| 0 <= i < places ==> is_digit(#[trigger] padded_text(f, places)[i]),
        decimal_value(padded_text(f, places)) == f,
    decreases places,
{
    let text = padded_text(f, places);
    if places > 0 {
        let front = padded_text(f / 10, (places - 1) as nat);
        assert(pow10(places) == 10 * pow10((places - 1) as nat));
        lemma_padded_text(f / 10, (places - 1) as nat);
        lemma_digit_char(f % 10);
        assert(text.drop_last() =~= front);
        assert(text.last() == digit_char(f % 10));
        assert forall|i: int| 0 <= i < places implies is_digit(#[trigger] text[i]) by {
            if i < places - 1 {
                assert(text[i] == front[i]);
            }
        }
    }
}

proof fn lemma_fraction_text(f: nat, places: nat)
    requires
        f < pow10(places),
    ensures
        fraction_text(f, places).len() <= places,
        fraction_text(f, places).len() == 0 <==> f == 0,
        forall|i: int|
            0 <= i < fraction_text(f, places).len() ==> is_digit(
                #[trigger] fraction_text(f, places)[i],
            ),
        decimal_value(fraction_text(f, places)) * pow10(
            (places - fraction_text(f, places).len()) as nat,
        ) == f,
    decreases places,
{
    let text = fraction_text(f, places);
    if places == 0 {
        assert(decimal_value(text) * pow10(0) == 0) by (nonlinear_arith)
            requires
                decimal_value(text) == 0,
        ;
    } else if f % 10 == 0 {
        let shorter = (places - 1) as nat;
        assert(pow10(places) == 10 * pow10(shorter));
        lemma_fraction_text(f / 10, shorter);
        let left = (shorter - text.len()) as nat;
        assert(pow10((places - text.len()) as nat) == 10 * pow10(left));
        assert(decimal_value(text) * (10 * pow10(left)) == f) by (nonlinear_arith)
            requires
                decimal_value(text) * pow10(left) == f / 10,
                f % 10 == 0,
        ;
    } else {
        lemma_padded_text(f, places);
        assert(decimal_value(text) * pow10(0) == f) by (nonlinear_arith)
            requires
                decimal_value(text) == f,
                pow10(0) == 1,
        ;
    }
}

/// Writing a decimal and reading the text back gives the decimal: its sign
/// and its size to the last place.
pub proof fn lemma_dec_round_trip(negative: bool, raw: nat)
    requires
        negative ==> raw != 0,
    ensures
        is_dec_text(dec_text(negative, raw)),
        has_sign(dec_text(negative, raw)) == negative,
        dec_magnitude(dec_text(negative, raw)) == raw,
{
    let unit = UNIT as nat;
    let whole = decimal_text(raw / unit);
    let fraction = fraction_text(raw % unit, PLACES as nat);
    let text = dec_text(negative, raw);
    lemma_pow10_12();
    lemma_decimal_round_trip(raw / unit);
    lemma_fraction_text(raw % unit, PLACES as nat);
    assert(is_digit(whole[0]));
    let body = if fraction.len() == 0 {
        whole
    } else {
        whole + seq!['.'] + fraction
    };
    assert(unsigned_part(text) =~= body) by {
        if negative {
            assert(text[0] == '-');
            assert(text.skip(1) =~= body);
        } else {
            assert(text =~= body);
            assert(text[0] == whole[0]);
        }
    }
    assert(has_sign(text) == negative) by {
        if !negative {
            assert(text =~= body);
            assert(text[0] == whole[0]);
        } else {
            assert(text[0] == '-');
        }
    }
    assert forall|i: int| 0 <= i < whole.len() implies #[trigger] body[i] != '.' by {
        assert(body[i] == whole[i]);
        assert(is_digit(whole[i]));
    }
    if fraction.len() == 0 {
        lemma_point_found(body, whole.len() as int);
        assert(raw == (raw / unit) * unit + raw % unit) by (nonlinear_arith)
            requires
                unit > 0,
        ;
    } else {
        assert(body[whole.len() as int] == '.');
        lemma_point_found(body, whole.len() as int);
        assert(body.take(whole.len() as int) =~= whole);
        assert(body.skip(whole.len() as int + 1) =~= fraction);
        assert(raw == (raw / unit) * unit + raw % unit) by (nonlinear_arith)
            requires
                unit > 0,
        ;
    }
}

proof fn lemma_padded_len(f: nat, places: nat)
    ensures
        padded_text(f, places).len() == places,
    decreases places,
{
    if places > 0 {
        lemma_padded_len(f / 10, (places - 1) as nat);
    }
}

} // verus!
