//! Exact decimal numbers.
//!
//! A [`Decimal`] is an integer mantissa of at most 96 bits together with a
//! scale, the number of digits behind the decimal point: its value is
//! `mantissa / 10^scale`. Quantities, prices and balances are all of this
//! type, so that repeated sums and products never drift the way binary
//! floating point would.
//!
//! The arithmetic itself is done by the `rust_decimal` crate. What it
//! returns for sums, differences, products and quotients is named here by
//! [`decimal_sum`], [`decimal_difference`], [`decimal_product`] and
//! [`decimal_quotient`]; comparisons are stated exactly.
use vstd::prelude::*;

verus! {

/// The largest scale a decimal can carry.
pub const MAX_SCALE: u32 = 28;

/// The largest magnitude of a mantissa: `2^96 - 1`.
pub const MAX_MANTISSA: i128 = 0xFFFF_FFFF_FFFF_FFFF_FFFF_FFFF;

/// Whether a mantissa and a scale together denote a decimal.
pub open spec fn in_range(mantissa: i128, scale: u32) -> bool {
    &&& scale <= MAX_SCALE
    &&& -MAX_MANTISSA <= mantissa <= MAX_MANTISSA
}

/// `10^n`.
pub open spec fn pow10(n: nat) -> int
    decreases n,
{
    if n == 0 {
        1
    } else {
        10 * pow10((n - 1) as nat)
    }
}

/// What `rust_decimal` gives for the sum of two decimals, each written as
/// mantissa and scale; `None` where it reports an overflow.
pub uninterp spec fn decimal_sum(
    a_mantissa: i128,
    a_scale: u32,
    b_mantissa: i128,
    b_scale: u32,
) -> Option<(i128, u32)>;

/// What `rust_decimal` gives for the first decimal minus the second;
/// `None` where it reports an overflow.
pub uninterp spec fn decimal_difference(
    a_mantissa: i128,
    a_scale: u32,
    b_mantissa: i128,
    b_scale: u32,
) -> Option<(i128, u32)>;

/// What `rust_decimal` gives for the product of two decimals; `None`
/// where it reports an overflow.
pub uninterp spec fn decimal_product(
    a_mantissa: i128,
    a_scale: u32,
    b_mantissa: i128,
    b_scale: u32,
) -> Option<(i128, u32)>;

/// What `rust_decimal` gives for the first decimal divided by the second;
/// `None` where it reports an overflow or a division by zero.
pub uninterp spec fn decimal_quotient(
    a_mantissa: i128,
    a_scale: u32,
    b_mantissa: i128,
    b_scale: u32,
) -> Option<(i128, u32)>;

/// Trusted: `rust_decimal::Decimal::checked_add` on two decimals given by
/// mantissa and scale. The result is the named sum, and it is again a
/// mantissa of at most 96 bits with a scale of at most 28.
#[verifier::external_body]
fn outside_add(a_mantissa: i128, a_scale: u32, b_mantissa: i128, b_scale: u32) -> (r: Option<
    (i128, u32),
>)
    requires
        in_range(a_mantissa, a_scale),
        in_range(b_mantissa, b_scale),
    ensures
        r == decimal_sum(a_mantissa, a_scale, b_mantissa, b_scale),
        r matches Some(v) ==> in_range(v.0, v.1),
{
    let a = rust_decimal::Decimal::from_i128_with_scale(a_mantissa, a_scale);
    let b = rust_decimal::Decimal::from_i128_with_scale(b_mantissa, b_scale);
    match a.checked_add(b) {
        Some(c) => Some((c.mantissa(), c.scale())),
        None => None,
    }
}

/// Trusted: `rust_decimal::Decimal::checked_sub`. The result is the named
/// difference, within the range of a decimal.
#[verifier::external_body]
fn outside_sub(a_mantissa: i128, a_scale: u32, b_mantissa: i128, b_scale: u32) -> (r: Option<
    (i128, u32),
>)
    requires
        in_range(a_mantissa, a_scale),
        in_range(b_mantissa, b_scale),
    ensures
        r == decimal_difference(a_mantissa, a_scale, b_mantissa, b_scale),
        r matches Some(v) ==> in_range(v.0, v.1),
{
    let a = rust_decimal::Decimal::from_i128_with_scale(a_mantissa, a_scale);
    let b = rust_decimal::Decimal::from_i128_with_scale(b_mantissa, b_scale);
    match a.checked_sub(b) {
        Some(c) => Some((c.mantissa(), c.scale())),
        None => None,
    }
}

/// Trusted: `rust_decimal::Decimal::checked_mul`. The result is the named
/// product, within the range of a decimal.
#[verifier::external_body]
fn outside_mul(a_mantissa: i128, a_scale: u32, b_mantissa: i128, b_scale: u32) -> (r: Option<
    (i128, u32),
>)
    requires
        in_range(a_mantissa, a_scale),
        in_range(b_mantissa, b_scale),
    ensures
        r == decimal_product(a_mantissa, a_scale, b_mantissa, b_scale),
        r matches Some(v) ==> in_range(v.0, v.1),
{
    let a = rust_decimal::Decimal::from_i128_with_scale(a_mantissa, a_scale);
    let b = rust_decimal::Decimal::from_i128_with_scale(b_mantissa, b_scale);
    match a.checked_mul(b) {
        Some(c) => Some((c.mantissa(), c.scale())),
        None => None,
    }
}

/// Trusted: `rust_decimal::Decimal::checked_div`. The result is the named
/// quotient, within the range of a decimal.
#[verifier::external_body]
fn outside_div(a_mantissa: i128, a_scale: u32, b_mantissa: i128, b_scale: u32) -> (r: Option<
    (i128, u32),
>)
    requires
        in_range(a_mantissa, a_scale),
        in_range(b_mantissa, b_scale),
    ensures
        r == decimal_quotient(a_mantissa, a_scale, b_mantissa, b_scale),
        r matches Some(v) ==> in_range(v.0, v.1),
{
    let a = rust_decimal::Decimal::from_i128_with_scale(a_mantissa, a_scale);
    let b = rust_decimal::Decimal::from_i128_with_scale(b_mantissa, b_scale);
    match a.checked_div(b) {
        Some(c) => Some((c.mantissa(), c.scale())),
        None => None,
    }
}

/// Trusted: `>=` of `rust_decimal::Decimal`, which orders decimals by
/// their value: both sides brought to a common denominator, the first
/// numerator is at least the second.
#[verifier::external_body]
fn outside_at_least(a_mantissa: i128, a_scale: u32, b_mantissa: i128, b_scale: u32) -> (r: bool)
    requires
        in_range(a_mantissa, a_scale),
        in_range(b_mantissa, b_scale),
    ensures
        r == (a_mantissa * pow10(b_scale as nat) >= b_mantissa * pow10(a_scale as nat)),
{
    let a = rust_decimal::Decimal::from_i128_with_scale(a_mantissa, a_scale);
    let b = rust_decimal::Decimal::from_i128_with_scale(b_mantissa, b_scale);
    a >= b
}

/// An exact decimal number: `mantissa / 10^scale`, with a mantissa of at
/// most 96 bits and a scale of at most 28.
#[derive(Clone, Copy, Debug)]
pub struct Decimal {
    mantissa: i128,
    scale: u32,
}

impl Decimal {
    #[verifier::type_invariant]
    spec fn well_formed(self) -> bool {
        in_range(self.mantissa, self.scale)
    }

    /// The mantissa: the value with the decimal point taken out.
    pub closed spec fn mantissa_spec(self) -> i128 {
        self.mantissa
    }

    /// The scale: the number of digits behind the decimal point.
    pub closed spec fn scale_spec(self) -> u32 {
        self.scale
    }

    /// The decimal with the given mantissa and scale.
    pub closed spec fn of(mantissa: i128, scale: u32) -> Decimal {
        Decimal { mantissa, scale }
    }

    /// Zero, with scale 0.
    pub open spec fn zero_spec() -> Decimal {
        Decimal::of(0, 0)
    }

    /// A decimal is its mantissa and its scale, and nothing else.
    pub proof fn lemma_parts(mantissa: i128, scale: u32)
        ensures
            Decimal::of(mantissa, scale).mantissa_spec() == mantissa,
            Decimal::of(mantissa, scale).scale_spec() == scale,
    {
    }

    /// Two decimals with the same mantissa and the same scale are the same.
    pub proof fn lemma_same_parts(self, other: Decimal)
        requires
            self.mantissa_spec() == other.mantissa_spec(),
            self.scale_spec() == other.scale_spec(),
        ensures
            self == other,
    {
    }

    /// The named sum of two decimals, as a decimal.
    pub open spec fn add_spec(self, rhs: Decimal) -> Option<Decimal> {
        match decimal_sum(
            self.mantissa_spec(),
            self.scale_spec(),
            rhs.mantissa_spec(),
            rhs.scale_spec(),
        ) {
            Some(v) => Some(Decimal::of(v.0, v.1)),
            None => None,
        }
    }

    /// The named difference of two decimals, as a decimal.
    pub open spec fn sub_spec(self, rhs: Decimal) -> Option<Decimal> {
        match decimal_difference(
            self.mantissa_spec(),
            self.scale_spec(),
            rhs.mantissa_spec(),
            rhs.scale_spec(),
        ) {
            Some(v) => Some(Decimal::of(v.0, v.1)),
            None => None,
        }
    }

    /// The named product of two decimals, as a decimal.
    pub open spec fn mul_spec(self, rhs: Decimal) -> Option<Decimal> {
        match decimal_product(
            self.mantissa_spec(),
            self.scale_spec(),
            rhs.mantissa_spec(),
            rhs.scale_spec(),
        ) {
            Some(v) => Some(Decimal::of(v.0, v.1)),
            None => None,
        }
    }

    /// The named quotient of two decimals, as a decimal.
    pub open spec fn div_spec(self, rhs: Decimal) -> Option<Decimal> {
        match decimal_quotient(
            self.mantissa_spec(),
            self.scale_spec(),
            rhs.mantissa_spec(),
            rhs.scale_spec(),
        ) {
            Some(v) => Some(Decimal::of(v.0, v.1)),
            None => None,
        }
    }

    /// The decimal of opposite sign, with the same scale.
    pub open spec fn neg_spec(self) -> Decimal {
        Decimal::of((-self.mantissa_spec()) as i128, self.scale_spec())
    }

    /// Whether the value of `self` is at least the value of `rhs`: with
    /// both brought to a common denominator, the first numerator is at
    /// least the second.
    pub open spec fn ge_spec(self, rhs: Decimal) -> bool {
        self.mantissa_spec() * pow10(rhs.scale_spec() as nat) >= rhs.mantissa_spec() * pow10(
            self.scale_spec() as nat,
        )
    }

    /// Whether both decimals have the same value, whatever their scales.
    pub open spec fn same_value(self, rhs: Decimal) -> bool {
        self.ge_spec(rhs) && rhs.ge_spec(self)
    }

    /// Zero.
    pub fn zero() -> (r: Decimal)
        ensures
            r == Decimal::zero_spec(),
    {
        Decimal { mantissa: 0, scale: 0 }
    }

    /// The whole number `n`, with scale 0.
    pub fn from_i64(n: i64) -> (r: Decimal)
        ensures
            r == Decimal::of(n as i128, 0),
    {
        Decimal { mantissa: n as i128, scale: 0 }
    }

    /// The decimal `mantissa / 10^scale`, or `None` where the mantissa
    /// needs more than 96 bits or the scale is above [`MAX_SCALE`].
    pub fn try_from_parts(mantissa: i128, scale: u32) -> (r: Option<Decimal>)
        ensures
            r == if in_range(mantissa, scale) {
                Some(Decimal::of(mantissa, scale))
            } else {
                None
            },
    {
        if scale <= MAX_SCALE && -MAX_MANTISSA <= mantissa && mantissa <= MAX_MANTISSA {
            Some(Decimal { mantissa, scale })
        } else {
            None
        }
    }

    pub fn mantissa(&self) -> (r: i128)
        ensures
            r == self.mantissa_spec(),
    {
        self.mantissa
    }

    pub fn scale(&self) -> (r: u32)
        ensures
            r == self.scale_spec(),
    {
        self.scale
    }

    /// The sum, or `None` on overflow.
    pub fn checked_add(self, rhs: Decimal) -> (r: Option<Decimal>)
        ensures
            r == self.add_spec(rhs),
    {
        proof {
            use_type_invariant(&self);
            use_type_invariant(&rhs);
        }
        match outside_add(self.mantissa, self.scale, rhs.mantissa, rhs.scale) {
            Some(v) => Some(Decimal { mantissa: v.0, scale: v.1 }),
            None => None,
        }
    }

    /// The difference, or `None` on overflow.
    pub fn checked_sub(self, rhs: Decimal) -> (r: Option<Decimal>)
        ensures
            r == self.sub_spec(rhs),
    {
        proof {
            use_type_invariant(&self);
            use_type_invariant(&rhs);
        }
        match outside_sub(self.mantissa, self.scale, rhs.mantissa, rhs.scale) {
            Some(v) => Some(Decimal { mantissa: v.0, scale: v.1 }),
            None => None,
        }
    }

    /// The product, or `None` on overflow.
    pub fn checked_mul(self, rhs: Decimal) -> (r: Option<Decimal>)
        ensures
            r == self.mul_spec(rhs),
    {
        proof {
            use_type_invariant(&self);
            use_type_invariant(&rhs);
        }
        match outside_mul(self.mantissa, self.scale, rhs.mantissa, rhs.scale) {
            Some(v) => Some(Decimal { mantissa: v.0, scale: v.1 }),
            None => None,
        }
    }

    /// The quotient, or `None` on overflow or where `rhs` is zero.
    pub fn checked_div(self, rhs: Decimal) -> (r: Option<Decimal>)
        ensures
            r == self.div_spec(rhs),
    {
        proof {
            use_type_invariant(&self);
            use_type_invariant(&rhs);
        }
        match outside_div(self.mantissa, self.scale, rhs.mantissa, rhs.scale) {
            Some(v) => Some(Decimal { mantissa: v.0, scale: v.1 }),
            None => None,
        }
    }

    /// The same magnitude with the opposite sign; the scale is kept.
    pub fn negate(self) -> (r: Decimal)
        ensures
            r == self.neg_spec(),
            r.neg_spec() == self,
    {
        proof {
            use_type_invariant(&self);
        }
        Decimal { mantissa: -self.mantissa, scale: self.scale }
    }

    /// Whether the value of `self` is at least the value of `rhs`.
    pub fn at_least(self, rhs: Decimal) -> (r: bool)
        ensures
            r == self.ge_spec(rhs),
    {
        proof {
            use_type_invariant(&self);
            use_type_invariant(&rhs);
        }
        outside_at_least(self.mantissa, self.scale, rhs.mantissa, rhs.scale)
    }

    /// Whether both decimals have the same value: `1.50` and `1.5` do.
    pub fn equals(self, rhs: Decimal) -> (r: bool)
        ensures
            r == self.same_value(rhs),
    {
        self.at_least(rhs) && rhs.at_least(self)
    }
}

/// Every power of ten is positive.
pub proof fn lemma_pow10_positive(n: nat)
    ensures
        pow10(n) > 0,
    decreases n,
{
    if n > 0 {
        lemma_pow10_positive((n - 1) as nat);
    }
}

/// A product with a positive factor keeps the order of the other factors.
proof fn lemma_scale_order(a: int, b: int, c: int)
    requires
        a >= b,
        c > 0,
    ensures
        a * c >= b * c,
{
    assert(a * c >= b * c) by (nonlinear_arith)
        requires
            a >= b,
            c > 0,
    ;
}

/// Of two numbers whose products with a positive factor stand in order,
/// the numbers stand in that order.
proof fn lemma_unscale_order(a: int, b: int, c: int)
    requires
        a * c >= b * c,
        c > 0,
    ensures
        a >= b,
{
    assert(a >= b) by (nonlinear_arith)
        requires
            a * c >= b * c,
            c > 0,
    ;
}

impl Decimal {
    /// Decimals are ordered by their value: every decimal is at least
    /// itself, of two decimals one is at least the other, and what is at
    /// least a second decimal that is at least a third is at least the
    /// third.
    pub proof fn lemma_order(a: Decimal, b: Decimal, c: Decimal)
        ensures
            a.ge_spec(a),
            a.ge_spec(b) || b.ge_spec(a),
            a.ge_spec(b) && b.ge_spec(c) ==> a.ge_spec(c),
    {
        let (ma, mb, mc) = (a.mantissa_spec() as int, b.mantissa_spec() as int, c.mantissa_spec() as int);
        let (pa, pb, pc) = (
            pow10(a.scale_spec() as nat),
            pow10(b.scale_spec() as nat),
            pow10(c.scale_spec() as nat),
        );
        lemma_pow10_positive(a.scale_spec() as nat);
        lemma_pow10_positive(b.scale_spec() as nat);
        lemma_pow10_positive(c.scale_spec() as nat);
        if a.ge_spec(b) && b.ge_spec(c) {
            // ma * pb >= mb * pa and mb * pc >= mc * pb.
            lemma_scale_order(ma * pb, mb * pa, pc);
            lemma_scale_order(mb * pc, mc * pb, pa);
            assert((ma * pb) * pc == (ma * pc) * pb) by (nonlinear_arith);
            assert((mb * pa) * pc == (mb * pc) * pa) by (nonlinear_arith);
            assert((mc * pb) * pa == (mc * pa) * pb) by (nonlinear_arith);
            lemma_unscale_order(ma * pc, mc * pa, pb);
        }
    }
}

impl PartialEq for Decimal {
    /// Decimals are equal where their values are: `1.50 == 1.5`.
    fn eq(&self, other: &Decimal) -> (r: bool) {
        self.equals(*other)
    }
}

impl vstd::std_specs::cmp::PartialEqSpecImpl for Decimal {
    open spec fn obeys_eq_spec() -> bool {
        true
    }

    open spec fn eq_spec(&self, other: &Decimal) -> bool {
        self.same_value(*other)
    }
}

/// The running sum of `values` from zero, left to right; `None` as soon as
/// one addition overflows.
pub open spec fn sum_spec(values: Seq<Decimal>) -> Option<Decimal>
    decreases values.len(),
{
    if values.len() == 0 {
        Some(Decimal::zero_spec())
    } else {
        match sum_spec(values.drop_last()) {
            Some(acc) => acc.add_spec(values.last()),
            None => None,
        }
    }
}

/// Adds up `values` from zero, left to right.
pub fn sum(values: &Vec<Decimal>) -> (r: Option<Decimal>)
    ensures
        r == sum_spec(values@),
{
    let mut acc = Decimal::zero();
    let mut i: usize = 0;
    while i < values.len()
        invariant
            i <= values.len(),
            sum_spec(values@.take(i as int)) == Some(acc),
        decreases values.len() - i,
    {
        assert(values@.take(i as int + 1).drop_last() =~= values@.take(i as int));
        match acc.checked_add(values[i]) {
            Some(next) => {
                acc = next;
            },
            None => {
                proof {
                    lemma_sum_none_extends(values@, i as int + 1);
                }
                return None;
            },
        }
        i += 1;
    }
    assert(values@.take(i as int) =~= values@);
    Some(acc)
}

/// Once a prefix overflows, every longer prefix does.
pub proof fn lemma_sum_none_extends(values: Seq<Decimal>, n: int)
    requires
        0 <= n <= values.len(),
        sum_spec(values.take(n)) is None,
    ensures
        sum_spec(values) is None,
    decreases values.len() - n,
{
    if n < values.len() {
        assert(values.take(n + 1).drop_last() =~= values.take(n));
        lemma_sum_none_extends(values, n + 1);
    } else {
        assert(values.take(n) =~= values);
    }
}

/// The sum of the products of the pairs in `pairs`, added up from zero,
/// left to right; `None` where a product or a sum overflows.
pub open spec fn sum_of_products_spec(pairs: Seq<(Decimal, Decimal)>) -> Option<Decimal>
    decreases pairs.len(),
{
    if pairs.len() == 0 {
        Some(Decimal::zero_spec())
    } else {
        match sum_of_products_spec(pairs.drop_last()) {
            Some(acc) => match pairs.last().0.mul_spec(pairs.last().1) {
                Some(product) => acc.add_spec(product),
                None => None,
            },
            None => None,
        }
    }
}

/// Once a prefix overflows, every longer prefix does.
pub proof fn lemma_sum_of_products_none_extends(pairs: Seq<(Decimal, Decimal)>, n: int)
    requires
        0 <= n <= pairs.len(),
        sum_of_products_spec(pairs.take(n)) is None,
    ensures
        sum_of_products_spec(pairs) is None,
    decreases pairs.len() - n,
{
    if n < pairs.len() {
        assert(pairs.take(n + 1).drop_last() =~= pairs.take(n));
        lemma_sum_of_products_none_extends(pairs, n + 1);
    } else {
        assert(pairs.take(n) =~= pairs);
    }
}

/// Multiplies each pair and adds the products up from zero, left to right.
pub fn sum_of_products(pairs: &Vec<(Decimal, Decimal)>) -> (r: Option<Decimal>)
    ensures
        r == sum_of_products_spec(pairs@),
{
    let mut acc = Decimal::zero();
    let mut i: usize = 0;
    while i < pairs.len()
        invariant
            i <= pairs.len(),
            sum_of_products_spec(pairs@.take(i as int)) == Some(acc),
        decreases pairs.len() - i,
    {
        assert(pairs@.take(i as int + 1).drop_last() =~= pairs@.take(i as int));
        let next = match pairs[i].0.checked_mul(pairs[i].1) {
            Some(product) => acc.checked_add(product),
            None => None,
        };
        match next {
            Some(sum) => {
                acc = sum;
            },
            None => {
                proof {
                    lemma_sum_of_products_none_extends(pairs@, i as int + 1);
                }
                return None;
            },
        }
        i += 1;
    }
    assert(pairs@.take(i as int) =~= pairs@);
    Some(acc)
}

/// Where the sum of the products stays in range, so does each product.
pub proof fn lemma_sum_of_products_each(pairs: Seq<(Decimal, Decimal)>)
    requires
        sum_of_products_spec(pairs) is Some,
    ensures
        forall|i: int| 0 <= i < pairs.len() ==> (#[trigger] pairs[i]).0.mul_spec(pairs[i].1) is Some,
    decreases pairs.len(),
{
    if pairs.len() > 0 {
        let front = pairs.drop_last();
        lemma_sum_of_products_each(front);
        assert forall|i: int| 0 <= i < pairs.len() implies (#[trigger] pairs[i]).0.mul_spec(
            pairs[i].1,
        ) is Some by {
            if i < front.len() {
                assert(front[i] == pairs[i]);
            }
        }
    }
}

} // verus!
