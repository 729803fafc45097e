//! Unsigned amounts of any size, and their decimal text.

use vstd::prelude::*;
use crate::text::{
    char_of_digit, digit_char, digit_of_char, digit_value, is_digit, lemma_digit_char,
    lemma_digit_value,
};

verus! {

/// The decimal text of `n`: its digits, most significant first, with no
/// leading zero; `"0"` for zero.
pub open spec fn decimal_text(n: nat) -> Seq<char>
    decreases n,
{
    if n < 10 {
        seq![digit_char(n)]
    } else {
        decimal_text(n / 10).push(digit_char(n % 10))
    }
}

/// Whether `s` is decimal text: one digit or more, and nothing else.
pub open spec fn is_decimal(s: Seq<char>) -> bool {
    s.len() > 0 && forall|i: int| 0 <= i < s.len() ==> is_digit(#[trigger] s[i])
}

/// The number that the digits of `s` write, most significant first.
pub open spec fn decimal_value(s: Seq<char>) -> nat
    decreases s.len(),
{
    if s.len() == 0 {
        0
    } else {
        decimal_value(s.drop_last()) * 10 + digit_value(s.last())
    }
}

/// Writing a number and reading the text back gives the number: decimal text
/// loses nothing, however large the number is.
pub proof fn lemma_decimal_round_trip(n: nat)
    ensures
        is_decimal(decimal_text(n)),
        decimal_value(decimal_text(n)) == n,
    decreases n,
{
    let text = decimal_text(n);
    if n < 10 {
        lemma_digit_char(n);
        assert(text.drop_last() =~= Seq::<char>::empty());
        assert(decimal_value(text.drop_last()) == 0);
    } else {
        lemma_decimal_round_trip(n / 10);
        lemma_digit_char(n % 10);
        assert(text.drop_last() =~= decimal_text(n / 10));
        assert(text.last() == digit_char(n % 10));
    }
}

/// Decimal text of `k` digits writes a number below ten to the power `k`.
pub proof fn lemma_decimal_value_bound(s: Seq<char>)
    requires
        forall|i: int| 0 <= i < s.len() ==> is_digit(#[trigger] s[i]),
    ensures
        decimal_value(s) < pow10(s.len()),
    decreases s.len(),
{
    if s.len() > 0 {
        let front = s.drop_last();
        assert forall|i: int| 0 <= i < front.len() implies is_digit(#[trigger] front[i]) by {
            assert(front[i] == s[i]);
        }
        lemma_decimal_value_bound(front);
        lemma_digit_value(s.last());
        assert(pow10(s.len()) == 10 * pow10(front.len()));
    }
}

/// Whether every element of `ds` is a decimal digit.
spec fn valid_digits(ds: Seq<u8>) -> bool {
    forall|i: int| 0 <= i < ds.len() ==> #[trigger] ds[i] < 10
}

/// Digits, least significant first, with no zero at the top. Zero is the
/// empty sequence.
spec fn canonical(ds: Seq<u8>) -> bool {
    valid_digits(ds) && (ds.len() > 0 ==> ds.last() != 0)
}

/// The number that `ds` writes, least significant digit first.
spec fn digits_value(ds: Seq<u8>) -> nat
    decreases ds.len(),
{
    if ds.len() == 0 {
        0
    } else {
        ds[0] as nat + 10 * digits_value(ds.drop_first())
    }
}

/// The characters of `ds`, most significant first.
spec fn digits_text(ds: Seq<u8>) -> Seq<char> {
    Seq::new(ds.len(), |i: int| digit_char(ds[ds.len() - 1 - i] as nat))
}

/// The digits that the characters of `s` write, least significant first.
spec fn text_digits(s: Seq<char>) -> Seq<u8> {
    Seq::new(s.len(), |i: int| digit_value(s[s.len() - 1 - i]) as u8)
}

/// The digits of `n`, least significant first.
spec fn nat_digits(n: nat) -> Seq<u8>
    decreases n,
{
    if n == 0 {
        Seq::empty()
    } else {
        seq![(n % 10) as u8] + nat_digits(n / 10)
    }
}

proof fn lemma_canonical_positive(ds: Seq<u8>)
    requires
        canonical(ds),
        ds.len() > 0,
    ensures
        digits_value(ds) >= 1,
    decreases ds.len(),
{
    let rest = ds.drop_first();
    if rest.len() > 0 {
        assert(rest.last() == ds.last());
        assert forall|i: int| 0 <= i < rest.len() implies #[trigger] rest[i] < 10 by {
            assert(rest[i] == ds[i + 1]);
        }
        lemma_canonical_positive(rest);
    } else {
        assert(ds.last() == ds[0]);
    }
}

proof fn lemma_digits_text(ds: Seq<u8>)
    requires
        canonical(ds),
        ds.len() > 0,
    ensures
        digits_text(ds) == decimal_text(digits_value(ds)),
    decreases ds.len(),
{
    let rest = ds.drop_first();
    assert(ds[0] < 10);
    if rest.len() == 0 {
        assert(digits_value(rest) == 0);
        assert(digits_text(ds) =~= seq![digit_char(ds[0] as nat)]);
    } else {
        assert(rest.last() == ds.last());
        assert forall|i: int| 0 <= i < rest.len() implies #[trigger] rest[i] < 10 by {
            assert(rest[i] == ds[i + 1]);
        }
        lemma_canonical_positive(rest);
        lemma_digits_text(rest);
        let v = digits_value(ds);
        assert(v == ds[0] as nat + 10 * digits_value(rest));
        assert(v / 10 == digits_value(rest));
        assert(v % 10 == ds[0] as nat);
        assert(digits_text(ds) =~= digits_text(rest).push(digit_char(ds[0] as nat))) by {
            assert forall|i: int| 0 <= i < ds.len() - 1 implies digits_text(ds)[i] == digits_text(
                rest,
            )[i] by {
                assert(ds[ds.len() - 1 - i] == rest[rest.len() - 1 - i]);
            }
        }
    }
}

proof fn lemma_push_zero(ds: Seq<u8>)
    ensures
        digits_value(ds.push(0)) == digits_value(ds),
    decreases ds.len(),
{
    let longer = ds.push(0);
    if ds.len() == 0 {
        assert(longer.drop_first() =~= Seq::<u8>::empty());
        assert(digits_value(longer.drop_first()) == 0);
    } else {
        lemma_push_zero(ds.drop_first());
        assert(longer.drop_first() =~= ds.drop_first().push(0));
        assert(longer[0] == ds[0]);
    }
}

proof fn lemma_text_digits(s: Seq<char>)
    requires
        forall|i: int| 0 <= i < s.len() ==> is_digit(#[trigger] s[i]),
    ensures
        valid_digits(text_digits(s)),
        digits_value(text_digits(s)) == decimal_value(s),
    decreases s.len(),
{
    let ds = text_digits(s);
    assert forall|i: int| 0 <= i < ds.len() implies #[trigger] ds[i] < 10 by {
        lemma_digit_value(s[s.len() - 1 - i]);
    }
    if s.len() > 0 {
        let front = s.drop_last();
        assert forall|i: int| 0 <= i < front.len() implies is_digit(#[trigger] front[i]) by {
            assert(front[i] == s[i]);
        }
        lemma_text_digits(front);
        lemma_digit_value(s.last());
        assert(ds.drop_first() =~= text_digits(front)) by {
            assert forall|i: int| 0 <= i < front.len() implies ds.drop_first()[i] == text_digits(
                front,
            )[i] by {
                assert(s[s.len() - 1 - (i + 1)] == front[front.len() - 1 - i]);
            }
        }
        assert(ds[0] as nat == digit_value(s.last()));
    }
}

proof fn lemma_nat_digits(n: nat)
    ensures
        canonical(nat_digits(n)),
        digits_value(nat_digits(n)) == n,
    decreases n,
{
    if n > 0 {
        lemma_nat_digits(n / 10);
        let ds = nat_digits(n);
        let rest = nat_digits(n / 10);
        assert(ds.drop_first() =~= rest);
        assert(ds[0] == (n % 10) as u8);
        assert forall|i: int| 0 <= i < ds.len() implies #[trigger] ds[i] < 10 by {
            if i > 0 {
                assert(ds[i] == rest[i - 1]);
            }
        }
        if rest.len() > 0 {
            assert(ds.last() == rest.last());
        } else {
            assert(digits_value(rest) == 0);
            assert(n / 10 == 0);
            assert(ds.last() == ds[0]);
        }
    }
}


/// Ten to the power `k`.
pub open spec fn pow10(k: nat) -> nat
    decreases k,
{
    if k == 0 {
        1
    } else {
        10 * pow10((k - 1) as nat)
    }
}

/// What multiplying `ds` by `m` and adding `c` writes, digit by digit from
/// the bottom, with `c` as the carry that comes in.
spec fn mul_add_digits(ds: Seq<u8>, m: nat, c: nat) -> Seq<u8>
    decreases ds.len(),
{
    if ds.len() == 0 {
        nat_digits(c)
    } else {
        let t = ds[0] as nat * m + c;
        seq![(t % 10) as u8] + mul_add_digits(ds.drop_first(), m, t / 10)
    }
}

proof fn lemma_mul_add_digits(ds: Seq<u8>, m: nat, c: nat)
    ensures
        valid_digits(mul_add_digits(ds, m, c)),
        digits_value(mul_add_digits(ds, m, c)) == digits_value(ds) * m + c,
    decreases ds.len(),
{
    let out = mul_add_digits(ds, m, c);
    if ds.len() == 0 {
        lemma_nat_digits(c);
        assert(digits_value(ds) * m == 0) by (nonlinear_arith)
            requires
                digits_value(ds) == 0,
        ;
    } else {
        let t = ds[0] as nat * m + c;
        let rest = mul_add_digits(ds.drop_first(), m, t / 10);
        lemma_mul_add_digits(ds.drop_first(), m, t / 10);
        assert(out.drop_first() =~= rest);
        assert(out[0] == (t % 10) as u8);
        assert forall|i: int| 0 <= i < out.len() implies #[trigger] out[i] < 10 by {
            if i > 0 {
                assert(out[i] == rest[i - 1]);
            }
        }
        let v = digits_value(ds.drop_first());
        assert(digits_value(out) == t % 10 + 10 * (v * m + t / 10));
        assert((ds[0] as nat + 10 * v) * m + c == t % 10 + 10 * (v * m + t / 10))
            by (nonlinear_arith)
            requires
                t == ds[0] as nat * m + c,
        ;
    }
}

proof fn lemma_tail_valid(ds: Seq<u8>)
    requires
        valid_digits(ds),
        ds.len() > 0,
    ensures
        valid_digits(ds.drop_first()),
{
    let rest = ds.drop_first();
    assert forall|i: int| 0 <= i < rest.len() implies #[trigger] rest[i] < 10 by {
        assert(rest[i] == ds[i + 1]);
    }
}

/// Of two digit sequences, the one with fewer digits writes the smaller
/// number, if the longer has no zero at the top.
proof fn lemma_shorter_is_less(a: Seq<u8>, b: Seq<u8>)
    requires
        valid_digits(a),
        canonical(b),
        a.len() < b.len(),
    ensures
        digits_value(a) < digits_value(b),
    decreases a.len(),
{
    if a.len() == 0 {
        lemma_canonical_positive(b);
    } else {
        lemma_tail_valid(a);
        lemma_tail_valid(b);
        assert(b.drop_first().last() == b.last());
        lemma_shorter_is_less(a.drop_first(), b.drop_first());
        assert(a[0] < 10);
    }
}

/// Of two digit sequences of one length that agree above position `k`, the
/// one with the smaller digit at `k` writes the smaller number.
proof fn lemma_decided_at(a: Seq<u8>, b: Seq<u8>, k: int)
    requires
        valid_digits(a),
        valid_digits(b),
        a.len() == b.len(),
        0 <= k < a.len(),
        a[k] < b[k],
        forall|i: int| k < i < a.len() ==> a[i] == b[i],
    ensures
        digits_value(a) < digits_value(b),
    decreases k,
{
    let ta = a.drop_first();
    let tb = b.drop_first();
    lemma_tail_valid(a);
    lemma_tail_valid(b);
    assert(a[0] < 10 && b[0] < 10);
    if k == 0 {
        assert(ta =~= tb);
    } else {
        assert forall|i: int| k - 1 < i < ta.len() implies ta[i] == tb[i] by {
            assert(ta[i] == a[i + 1] && tb[i] == b[i + 1]);
        }
        assert(ta[k - 1] == a[k] && tb[k - 1] == b[k]);
        lemma_decided_at(ta, tb, k - 1);
    }
}

/// A digit sequence is its bottom `k` digits plus ten to the `k` times the
/// rest, and the bottom `k` digits write less than ten to the `k`.
proof fn lemma_split(ds: Seq<u8>, k: nat)
    requires
        valid_digits(ds),
        k <= ds.len(),
    ensures
        digits_value(ds) == digits_value(ds.take(k as int)) + pow10(k) * digits_value(
            ds.skip(k as int),
        ),
        digits_value(ds.take(k as int)) < pow10(k),
    decreases k,
{
    if k == 0 {
        assert(ds.take(0) =~= Seq::<u8>::empty());
        assert(ds.skip(0) =~= ds);
        assert(digits_value(ds.take(0)) == 0);
        assert(pow10(0) * digits_value(ds) == digits_value(ds)) by (nonlinear_arith)
            requires
                pow10(0) == 1,
        ;
    } else {
        let rest = ds.drop_first();
        lemma_tail_valid(ds);
        lemma_split(rest, (k - 1) as nat);
        assert(ds.take(k as int).drop_first() =~= rest.take(k - 1));
        assert(ds.skip(k as int) =~= rest.skip(k - 1));
        assert(ds.take(k as int)[0] == ds[0]);
        assert(ds[0] < 10);
        let lo = digits_value(rest.take(k - 1));
        let hi = digits_value(rest.skip(k - 1));
        let p = pow10((k - 1) as nat);
        assert(digits_value(ds) == ds[0] as nat + 10 * digits_value(rest));
        assert(digits_value(ds.take(k as int)) == ds[0] as nat + 10 * lo);
        assert(pow10(k) == 10 * p);
        assert(digits_value(rest) == lo + p * hi);
        assert(ds[0] as nat + 10 * (lo + p * hi) == (ds[0] as nat + 10 * lo) + (10 * p) * hi)
            by (nonlinear_arith);
        assert(digits_value(ds) == digits_value(ds.take(k as int)) + pow10(k) * hi);
    }
}

proof fn lemma_pow10_positive(k: nat)
    ensures
        pow10(k) > 0,
    decreases k,
{
    if k > 0 {
        lemma_pow10_positive((k - 1) as nat);
    }
}

/// Digits no more than `k` in number write less than ten to the `k`.
proof fn lemma_shorter_bound(ds: Seq<u8>, k: nat)
    requires
        valid_digits(ds),
        ds.len() <= k,
    ensures
        digits_value(ds) < pow10(k),
    decreases ds.len(),
{
    lemma_pow10_positive(k);
    if ds.len() > 0 {
        lemma_tail_valid(ds);
        lemma_shorter_bound(ds.drop_first(), (k - 1) as nat);
        assert(ds[0] < 10);
    }
}

/// Ten to the twelfth power, written out.
pub proof fn lemma_pow10_12()
    ensures
        pow10(12) == 1_000_000_000_000,
{
    reveal_with_fuel(pow10, 13);
}

proof fn lemma_pow10_18()
    ensures
        pow10(18) == 1_000_000_000_000_000_000,
{
    reveal_with_fuel(pow10, 19);
}

/// What dividing `ds` by `d` writes, from the top digit down: the digits of
/// the quotient, and the remainder.
spec fn div_digits(ds: Seq<u8>, d: nat) -> (Seq<u8>, nat)
    decreases ds.len(),
{
    if ds.len() == 0 {
        (Seq::empty(), 0)
    } else {
        let above = div_digits(ds.drop_first(), d);
        let t = above.1 * 10 + ds[0] as nat;
        (seq![(t / d) as u8] + above.0, t % d)
    }
}

proof fn lemma_div_digits(ds: Seq<u8>, d: nat)
    requires
        valid_digits(ds),
        d > 0,
    ensures
        valid_digits(div_digits(ds, d).0),
        div_digits(ds, d).0.len() == ds.len(),
        div_digits(ds, d).1 < d,
        digits_value(div_digits(ds, d).0) * d + div_digits(ds, d).1 == digits_value(ds),
    decreases ds.len(),
{
    if ds.len() > 0 {
        lemma_tail_valid(ds);
        lemma_div_digits(ds.drop_first(), d);
        let above = div_digits(ds.drop_first(), d);
        let t = above.1 * 10 + ds[0] as nat;
        let out = div_digits(ds, d).0;
        assert(ds[0] < 10);
        assert(t / d < 10 && t == (t / d) * d + t % d && t % d < d) by (nonlinear_arith)
            requires
                t == above.1 * 10 + ds[0] as nat,
                above.1 < d,
                ds[0] < 10,
                d > 0,
        ;
        assert(out.drop_first() =~= above.0);
        assert(out[0] == (t / d) as u8);
        assert forall|i: int| 0 <= i < out.len() implies #[trigger] out[i] < 10 by {
            if i > 0 {
                assert(out[i] == above.0[i - 1]);
            }
        }
        let qv = digits_value(above.0);
        let rv = digits_value(ds.drop_first());
        assert(digits_value(out) == t / d + 10 * qv);
        assert((t / d + 10 * qv) * d + t % d == ds[0] as nat + 10 * rv) by (nonlinear_arith)
            requires
                qv * d + above.1 == rv,
                t == above.1 * 10 + ds[0] as nat,
                t == (t / d) * d + t % d,
        ;
        assert(div_digits(ds, d).1 == t % d);
    } else {
        assert(digits_value(div_digits(ds, d).0) * d == 0) by (nonlinear_arith)
            requires
                digits_value(div_digits(ds, d).0) == 0,
        ;
    }
}

/// Removes the zeros at the top of `ds`.
fn strip_zeros(ds: Vec<u8>) -> (out: Vec<u8>)
    requires
        valid_digits(ds@),
    ensures
        canonical(out@),
        digits_value(out@) == digits_value(ds@),
{
    let mut out = ds;
    while out.len() > 0 && out[out.len() - 1] == 0
        invariant
            valid_digits(out@),
            digits_value(out@) == digits_value(ds@),
        decreases out.len(),
    {
        let ghost before = out@;
        out.pop();
        proof {
            assert(before =~= out@.push(0));
            lemma_push_zero(out@);
            assert forall|i: int| 0 <= i < out@.len() implies #[trigger] out@[i] < 10 by {
                assert(out@[i] == before[i]);
            }
        }
    }
    out
}

/// An unsigned amount of any size.
#[derive(Debug, PartialEq, Eq)]
pub struct Amount {
    digits: Vec<u8>,
}

impl View for Amount {
    type V = nat;

    closed spec fn view(&self) -> nat {
        digits_value(self.digits@)
    }
}

impl Clone for Amount {
    /// A copy of the amount.
    fn clone(&self) -> (copy: Self)
        ensures
            copy@ == self@,
    {
        proof {
            use_type_invariant(self);
        }
        let digits = self.digits.clone();
        assert(digits@ =~= self.digits@);
        Amount { digits }
    }
}

impl Amount {
    #[verifier::type_invariant]
    spec fn well_formed(self) -> bool {
        canonical(self.digits@)
    }

    /// The amount zero.
    pub fn zero() -> (amount: Amount)
        ensures
            amount@ == 0,
    {
        Amount { digits: Vec::new() }
    }

    /// The amount `n`.
    pub fn from_u64(n: u64) -> (amount: Amount)
        ensures
            amount@ == n,
    {
        let mut digits: Vec<u8> = Vec::new();
        let mut rest: u64 = n;
        while rest > 0
            invariant
                digits@ + nat_digits(rest as nat) == nat_digits(n as nat),
            decreases rest,
        {
            let ghost before = digits@;
            digits.push((rest % 10) as u8);
            proof {
                assert(nat_digits(rest as nat) == seq![(rest % 10) as u8] + nat_digits(
                    (rest / 10) as nat,
                ));
                assert(digits@ + nat_digits((rest / 10) as nat) =~= before + nat_digits(
                    rest as nat,
                ));
            }
            rest = rest / 10;
        }
        proof {
            assert(digits@ =~= digits@ + nat_digits(0));
            lemma_nat_digits(n as nat);
        }
        Amount { digits }
    }

    /// Whether the amount is zero.
    pub fn is_zero(&self) -> (zero: bool)
        ensures
            zero == (self@ == 0),
    {
        proof {
            use_type_invariant(self);
            if self.digits@.len() > 0 {
                lemma_canonical_positive(self.digits@);
            }
        }
        self.digits.len() == 0
    }


    /// Whether this amount is at most `other`.
    pub fn le(&self, other: &Amount) -> (at_most: bool)
        ensures
            at_most == (self@ <= other@),
    {
        proof {
            use_type_invariant(self);
            use_type_invariant(other);
        }
        let n: usize = self.digits.len();
        let m: usize = other.digits.len();
        if n < m {
            proof {
                lemma_shorter_is_less(self.digits@, other.digits@);
            }
            return true;
        }
        if m < n {
            proof {
                lemma_shorter_is_less(other.digits@, self.digits@);
            }
            return false;
        }
        let mut i: usize = n;
        while i > 0
            invariant
                i <= n,
                n == self.digits@.len(),
                n == other.digits@.len(),
                valid_digits(self.digits@),
                valid_digits(other.digits@),
                forall|k: int| i <= k < n ==> self.digits@[k] == other.digits@[k],
            decreases i,
        {
            i = i - 1;
            if self.digits[i] < other.digits[i] {
                proof {
                    lemma_decided_at(self.digits@, other.digits@, i as int);
                }
                return true;
            }
            if self.digits[i] > other.digits[i] {
                proof {
                    lemma_decided_at(other.digits@, self.digits@, i as int);
                }
                return false;
            }
        }
        assert(self.digits@ =~= other.digits@);
        true
    }

    /// This amount times `m`, plus `c`.
    pub fn mul_add_small(&self, m: u64, c: u64) -> (out: Amount)
        ensures
            out@ == self@ * m + c,
    {
        proof {
            use_type_invariant(self);
        }
        let n: usize = self.digits.len();
        let mut digits: Vec<u8> = Vec::new();
        let mut carry: u128 = c as u128;
        let mut i: usize = 0;
        let ghost target = mul_add_digits(self.digits@, m as nat, c as nat);
        assert(self.digits@.skip(0) =~= self.digits@);
        while i < n
            invariant
                i <= n,
                n == self.digits@.len(),
                valid_digits(self.digits@),
                carry <= u64::MAX,
                digits@ + mul_add_digits(self.digits@.skip(i as int), m as nat, carry as nat)
                    == target,
            decreases n - i,
        {
            let d: u8 = self.digits[i];
            assert(d < 10);
            assert(d as u128 * m as u128 <= 9 * u64::MAX) by (nonlinear_arith)
                requires
                    d < 10,
                    m <= u64::MAX,
            ;
            let t: u128 = d as u128 * m as u128 + carry;
            proof {
                let here = self.digits@.skip(i as int);
                assert(here[0] == d);
                assert(here.drop_first() =~= self.digits@.skip(i + 1));
                assert(d as nat * m as nat + carry as nat == t as nat) by (nonlinear_arith)
                    requires
                        t == d as u128 * m as u128 + carry,
                        d < 10,
                        m <= u64::MAX,
                        carry <= u64::MAX,
                ;
                assert(mul_add_digits(here, m as nat, carry as nat) == seq![(t % 10) as u8]
                    + mul_add_digits(here.drop_first(), m as nat, (t / 10) as nat));
                assert(digits@.push((t % 10) as u8) + mul_add_digits(
                    self.digits@.skip(i + 1),
                    m as nat,
                    (t / 10) as nat,
                ) =~= digits@ + mul_add_digits(here, m as nat, carry as nat));
            }
            digits.push((t % 10) as u8);
            carry = t / 10;
            i = i + 1;
        }
        assert(self.digits@.skip(n as int) =~= Seq::<u8>::empty());
        while carry > 0
            invariant
                digits@ + nat_digits(carry as nat) == target,
            decreases carry,
        {
            proof {
                assert(nat_digits(carry as nat) == seq![(carry % 10) as u8] + nat_digits(
                    (carry / 10) as nat,
                ));
                assert(digits@.push((carry % 10) as u8) + nat_digits((carry / 10) as nat)
                    =~= digits@ + nat_digits(carry as nat));
            }
            digits.push((carry % 10) as u8);
            carry = carry / 10;
        }
        proof {
            assert(digits@ =~= digits@ + nat_digits(0));
            lemma_mul_add_digits(self.digits@, m as nat, c as nat);
        }
        Amount { digits: strip_zeros(digits) }
    }

    /// This amount divided by ten to the power `k`, rounded down.
    pub fn div_pow10(&self, k: usize) -> (out: Amount)
        ensures
            out@ == self@ / pow10(k as nat),
    {
        proof {
            use_type_invariant(self);
            lemma_pow10_positive(k as nat);
        }
        let n: usize = self.digits.len();
        let mut digits: Vec<u8> = Vec::new();
        if n <= k {
            proof {
                lemma_shorter_bound(self.digits@, k as nat);
                assert(self@ / pow10(k as nat) == 0) by (nonlinear_arith)
                    requires
                        self@ < pow10(k as nat),
                ;
            }
            return Amount { digits };
        }
        let mut i: usize = k;
        while i < n
            invariant
                k <= i <= n,
                n == self.digits@.len(),
                digits@ == self.digits@.subrange(k as int, i as int),
            decreases n - i,
        {
            digits.push(self.digits[i]);
            assert(digits@ =~= self.digits@.subrange(k as int, i + 1));
            i = i + 1;
        }
        proof {
            let hi = self.digits@.skip(k as int);
            assert(digits@ =~= hi);
            assert(hi.last() == self.digits@.last());
            assert forall|j: int| 0 <= j < hi.len() implies #[trigger] hi[j] < 10 by {
                assert(hi[j] == self.digits@[j + k]);
            }
            lemma_split(self.digits@, k as nat);
            let lo_value = digits_value(self.digits@.take(k as int));
            let hi_value = digits_value(hi);
            let p = pow10(k as nat);
            assert((lo_value + p * hi_value) / p == hi_value) by (nonlinear_arith)
                requires
                    lo_value < p,
                    p > 0,
            ;
        }
        Amount { digits }
    }


    /// What the lowest `k` digits of this amount write: the remainder of
    /// dividing it by ten to the power `k`.
    pub fn rem_pow10(&self, k: usize) -> (out: u64)
        requires
            k <= 18,
        ensures
            out == self@ % pow10(k as nat),
    {
        proof {
            use_type_invariant(self);
            lemma_pow10_positive(k as nat);
        }
        let n: usize = self.digits.len();
        let top: usize = if n < k { n } else { k };
        let ghost low = self.digits@.take(top as int);
        let mut acc: u64 = 0;
        let mut i: usize = top;
        proof {
            assert(low.skip(top as int) =~= Seq::<u8>::empty());
            lemma_pow10_18();
        }
        while i > 0
            invariant
                i <= top <= n,
                top <= 18,
                n == self.digits@.len(),
                valid_digits(self.digits@),
                low == self.digits@.take(top as int),
                acc == digits_value(low.skip(i as int)),
                pow10(18) == 1_000_000_000_000_000_000,
            decreases i,
        {
            i = i - 1;
            proof {
                let here = low.skip(i as int);
                assert(here.drop_first() =~= low.skip(i + 1));
                assert(here[0] == self.digits@[i as int]);
                assert forall|j: int| 0 <= j < here.len() implies #[trigger] here[j] < 10 by {
                    assert(here[j] == self.digits@[j + i]);
                }
                lemma_shorter_bound(here, 18);
            }
            acc = acc * 10 + self.digits[i] as u64;
        }
        proof {
            assert(low.skip(0) =~= low);
            lemma_split(self.digits@, top as nat);
            let lo_value = digits_value(low);
            let hi_value = digits_value(self.digits@.skip(top as int));
            let p = pow10(k as nat);
            if n < k {
                assert(self.digits@.skip(top as int) =~= Seq::<u8>::empty());
                assert(pow10(top as nat) * hi_value == 0) by (nonlinear_arith)
                    requires
                        hi_value == 0,
                ;
                lemma_shorter_bound(self.digits@, k as nat);
                assert(self@ % p == self@) by (nonlinear_arith)
                    requires
                        self@ < p,
                ;
            } else {
                assert((lo_value + p * hi_value) % p == lo_value) by (nonlinear_arith)
                    requires
                        lo_value < p,
                        p > 0,
                ;
            }
        }
        acc
    }


    /// This amount divided by `d`: the quotient, rounded down, and the
    /// remainder.
    pub fn div_small(&self, d: u64) -> (out: (Amount, u64))
        requires
            d > 0,
        ensures
            out.0@ == self@ / (d as nat),
            out.1 == self@ % (d as nat),
    {
        proof {
            use_type_invariant(self);
        }
        let n: usize = self.digits.len();
        let mut digits: Vec<u8> = Vec::new();
        while digits.len() < n
            invariant
                digits@.len() <= n,
            decreases n - digits@.len(),
        {
            digits.push(0);
        }
        let mut rest: u64 = 0;
        let mut i: usize = n;
        assert(self.digits@.skip(n as int) =~= Seq::<u8>::empty());
        assert(digits@.skip(n as int) =~= Seq::<u8>::empty());
        while i > 0
            invariant
                i <= n,
                n == self.digits@.len(),
                n == digits@.len(),
                d > 0,
                valid_digits(self.digits@),
                rest < d,
                digits@.skip(i as int) == div_digits(self.digits@.skip(i as int), d as nat).0,
                rest == div_digits(self.digits@.skip(i as int), d as nat).1,
            decreases i,
        {
            i = i - 1;
            let digit: u8 = self.digits[i];
            let t: u128 = rest as u128 * 10 + digit as u128;
            let ghost above = digits@.skip(i + 1);
            proof {
                let here = self.digits@.skip(i as int);
                assert(here.drop_first() =~= self.digits@.skip(i + 1));
                assert(here[0] == digit);
                assert(digit < 10);
                assert(t / (d as u128) < 10 && t % (d as u128) < d) by (nonlinear_arith)
                    requires
                        t == rest as u128 * 10 + digit as u128,
                        rest < d,
                        digit < 10,
                        d > 0,
                ;
            }
            digits.set(i, (t / d as u128) as u8);
            rest = (t % d as u128) as u64;
            proof {
                assert(digits@.skip(i as int) =~= seq![(t / d as u128) as u8] + above);
            }
        }
        proof {
            assert(self.digits@.skip(0) =~= self.digits@);
            assert(digits@.skip(0) =~= digits@);
            lemma_div_digits(self.digits@, d as nat);
            let q = digits_value(digits@);
            assert(self@ / (d as nat) == q && self@ % (d as nat) == rest as nat)
                by (nonlinear_arith)
                requires
                    q * d + rest == self@,
                    rest < d,
                    d > 0,
            ;
        }
        (Amount { digits: strip_zeros(digits) }, rest)
    }

    /// Reads decimal text: one digit or more, and nothing else. Zeros in
    /// front are read and ignored.
    pub fn parse(s: &str) -> (parsed: Option<Amount>)
        ensures
            match parsed {
                Some(amount) => is_decimal(s@) && amount@ == decimal_value(s@),
                None => !is_decimal(s@),
            },
    {
        let n: usize = s.unicode_len();
        if n == 0 {
            return None;
        }
        let mut digits: Vec<u8> = Vec::new();
        let mut i: usize = n;
        while i > 0
            invariant
                i <= n,
                n == s@.len(),
                digits@.len() == n - i,
                forall|k: int| i <= k < n ==> is_digit(#[trigger] s@[k]),
                forall|k: int|
                    0 <= k < n - i ==> #[trigger] digits@[k] as nat == digit_value(s@[n - 1 - k]),
            decreases i,
        {
            i = i - 1;
            match digit_of_char(s.get_char(i)) {
                Some(d) => {
                    digits.push(d);
                },
                None => {
                    return None;
                },
            }
        }
        proof {
            lemma_text_digits(s@);
            assert(digits@ =~= text_digits(s@)) by {
                assert forall|k: int| 0 <= k < n implies digits@[k] == text_digits(s@)[k] by {
                    lemma_digit_value(s@[n - 1 - k]);
                }
            }
        }
        Some(Amount { digits: strip_zeros(digits) })
    }

    /// The decimal text of the amount.
    pub fn to_string(&self) -> (text: String)
        ensures
            text@ == decimal_text(self@),
    {
        proof {
            use_type_invariant(self);
        }
        let mut text = String::new();
        let n: usize = self.digits.len();
        if n == 0 {
            text.push('0');
            assert(text@ =~= decimal_text(0));
            return text;
        }
        let mut i: usize = n;
        while i > 0
            invariant
                i <= n,
                n == self.digits@.len(),
                valid_digits(self.digits@),
                text@ == digits_text(self.digits@).subrange(0, n - i),
            decreases i,
        {
            i = i - 1;
            let ghost before = text@;
            text.push(char_of_digit(self.digits[i]));
            assert(text@ =~= digits_text(self.digits@).subrange(0, n - i));
        }
        proof {
            assert(text@ =~= digits_text(self.digits@));
            lemma_digits_text(self.digits@);
        }
        text
    }
}

} // verus!
