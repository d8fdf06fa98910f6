use vstd::prelude::*;

use rust_decimal::Decimal;

verus! {

/// Largest magnitude of a decimal mantissa: 96 bits.
pub open spec fn max_mantissa() -> int {
    0xFFFF_FFFF_FFFF_FFFF_FFFF_FFFFint
}

/// Largest number of fractional digits a decimal carries.
pub open spec fn max_scale() -> int {
    28
}

pub open spec fn pow10(n: nat) -> nat
    decreases n,
{
    if n == 0 {
        1
    } else {
        10 * pow10((n - 1) as nat)
    }
}

/// An exact decimal number `mantissa * 10^-scale`, the plain form of a
/// fixed-precision decimal with a 96-bit mantissa and at most 28 fractional digits.
#[derive(Clone, Copy, Debug)]
pub struct DecimalValue {
    mantissa: i128,
    scale: u32,
}

/// The largest magnitude a decimal holds, in units of 10^-28.
pub open spec fn max_units() -> int {
    max_mantissa() * pow10(max_scale() as nat)
}

/// A value, in units of 10^-28, that a decimal can hold without overflow.
pub open spec fn fits(units: int) -> bool {
    -max_units() <= units <= max_units()
}

pub open spec fn abs(v: int) -> int {
    if v < 0 {
        -v
    } else {
        v
    }
}

/// The exact quotient `a / b` lies within the range a decimal can hold.
pub open spec fn quotient_fits(a: DecimalValue, b: DecimalValue) -> bool {
    abs(a.units()) <= max_mantissa() * abs(b.units())
}

/// The value of an integer in units of 10^-28.
pub open spec fn int_units(value: int) -> int {
    value * pow10(max_scale() as nat)
}

/// The value `mantissa * 10^-scale` in units of 10^-28.
pub open spec fn scaled_units(mantissa: int, scale: int) -> int {
    mantissa * pow10((max_scale() - scale) as nat)
}

/// A value, in units of 10^-28, that a decimal holds exactly: some mantissa of
/// at most 96 bits with at most 28 fractional digits gives it.
pub open spec fn representable(units: int) -> bool {
    exists|mantissa: int, scale: int|
        #![trigger scaled_units(mantissa, scale)]
        0 <= scale <= max_scale() && -max_mantissa() <= mantissa <= max_mantissa() && scaled_units(mantissa, scale)
            == units
}

/// `n / d` is a whole number of units that a decimal holds exactly.
pub open spec fn exact_ratio(n: int, d: int) -> bool {
    d != 0 && n % d == 0 && representable(n / d)
}

impl DecimalValue {
    #[verifier::type_invariant]
    pub closed spec fn wf(self) -> bool {
        &&& -max_mantissa() <= self.mantissa <= max_mantissa()
        &&& self.scale <= max_scale()
    }

    /// The value in units of 10^-28; two decimals denote the same number exactly
    /// when their units agree.
    pub closed spec fn units(self) -> int {
        scaled_units(self.mantissa as int, self.scale as int)
    }

    /// The mantissa fits 96 bits and the scale is at most 28, as for every decimal.
    pub open spec fn valid_parts(self) -> bool {
        &&& -max_mantissa() <= self.spec_mantissa() <= max_mantissa()
        &&& 0 <= self.spec_scale() <= max_scale()
    }

    /// The value is the mantissa scaled by its number of fractional digits.
    pub proof fn lemma_units(self)
        ensures
            self.units() == scaled_units(self.spec_mantissa(), self.spec_scale()),
    {
    }

    /// The value of an integer that fits the mantissa is that integer.
    pub proof fn lemma_integer_units(value: int)
        requires
            -max_mantissa() <= value <= max_mantissa(),
        ensures
            DecimalValue::integer_value(value).units() == int_units(value),
            DecimalValue::integer_value(value).spec_scale() == 0,
    {
    }

    /// `mantissa * 10^-scale`, as `Decimal::new` builds it.
    pub closed spec fn literal(mantissa: int, scale: int) -> DecimalValue {
        DecimalValue { mantissa: mantissa as i128, scale: scale as u32 }
    }

    /// The integer `value` with scale 0, as `Decimal::from` builds it.
    pub closed spec fn integer_value(value: int) -> DecimalValue {
        DecimalValue { mantissa: value as i128, scale: 0 }
    }

    pub closed spec fn spec_mantissa(self) -> int {
        self.mantissa as int
    }

    pub closed spec fn spec_scale(self) -> int {
        self.scale as int
    }

    /// A percentage in [0, 1].
    pub open spec fn spec_is_percent(self) -> bool {
        0 <= self.units() <= int_units(1)
    }

    pub fn zero() -> (r: DecimalValue)
        ensures
            r == DecimalValue::integer_value(0),
            r.units() == 0,
            r.spec_mantissa() == 0,
            r.spec_scale() == 0,
    {
        DecimalValue { mantissa: 0, scale: 0 }
    }

    pub fn one() -> (r: DecimalValue)
        ensures
            r == DecimalValue::integer_value(1),
            r.units() == int_units(1),
            r.spec_mantissa() == 1,
            r.spec_scale() == 0,
    {
        DecimalValue { mantissa: 1, scale: 0 }
    }

    /// `mantissa * 10^-scale`, as `Decimal::new` builds it.
    pub fn new(mantissa: i64, scale: u32) -> (r: DecimalValue)
        requires
            scale <= 28,
        ensures
            r == DecimalValue::literal(mantissa as int, scale as int),
            r.spec_mantissa() == mantissa,
            r.spec_scale() == scale,
    {
        proof {
            assert(-max_mantissa() <= mantissa <= max_mantissa());
        }
        DecimalValue { mantissa: mantissa as i128, scale }
    }

    /// The decimal `mantissa * 10^-scale`, when the mantissa fits 96 bits and the
    /// scale is at most 28.
    pub fn from_parts(mantissa: i128, scale: u32) -> (r: Option<DecimalValue>)
        ensures
            r is Some <==> (-max_mantissa() <= mantissa <= max_mantissa() && scale <= max_scale()),
            r matches Some(v) ==> v.spec_mantissa() == mantissa && v.spec_scale() == scale,
    {
        if scale <= 28 && -0xFFFF_FFFF_FFFF_FFFF_FFFF_FFFFi128 <= mantissa
            && mantissa <= 0xFFFF_FFFF_FFFF_FFFF_FFFF_FFFFi128 {
            Some(DecimalValue { mantissa, scale })
        } else {
            None
        }
    }

    pub fn mantissa(&self) -> (r: i128)
        ensures
            r == self.spec_mantissa(),
    {
        self.mantissa
    }

    pub fn scale(&self) -> (r: u32)
        ensures
            r == self.spec_scale(),
    {
        self.scale
    }

    /// Whether the two decimals have the same mantissa and scale (not just the same value).
    pub fn same_representation(&self, other: &DecimalValue) -> (r: bool)
        ensures
            r == (*self == *other),
    {
        self.mantissa == other.mantissa && self.scale == other.scale
    }

    pub fn from_u32(value: u32) -> (r: DecimalValue)
        ensures
            r == DecimalValue::integer_value(value as int),
            r.units() == int_units(value as int),
            r.spec_mantissa() == value,
            r.spec_scale() == 0,
    {
        DecimalValue { mantissa: value as i128, scale: 0 }
    }

    pub fn from_u64(value: u64) -> (r: DecimalValue)
        ensures
            r == DecimalValue::integer_value(value as int),
            r.units() == int_units(value as int),
            r.spec_mantissa() == value,
            r.spec_scale() == 0,
    {
        DecimalValue { mantissa: value as i128, scale: 0 }
    }

    /// Whether the value lies in [0, 1].
    pub fn is_percent(self) -> (r: bool)
        ensures
            r == self.spec_is_percent(),
    {
        let zero = DecimalValue::zero();
        let one = DecimalValue::one();
        !self.lt(&zero) && !one.lt(&self)
    }

    /// Three-way comparison by exact value: -1, 0 or 1.
    pub fn compare(&self, other: &DecimalValue) -> (r: i8)
        ensures
            r == -1 <==> self.units() < other.units(),
            r == 0 <==> self.units() == other.units(),
            r == 1 <==> self.units() > other.units(),
            -1 <= r <= 1,
    {
        proof {
            use_type_invariant(self);
            use_type_invariant(other);
        }
        decimal_order(*self, *other)
    }

    pub fn lt(&self, other: &DecimalValue) -> (r: bool)
        ensures
            r == (self.units() < other.units()),
    {
        self.compare(other) == -1
    }

    pub fn le(&self, other: &DecimalValue) -> (r: bool)
        ensures
            r == (self.units() <= other.units()),
    {
        self.compare(other) != 1
    }

    pub fn same_value(&self, other: &DecimalValue) -> (r: bool)
        ensures
            r == (self.units() == other.units()),
    {
        self.compare(other) == 0
    }

    pub fn is_zero(&self) -> (r: bool)
        ensures
            r == (self.units() == 0),
    {
        let zero = DecimalValue::zero();
        self.compare(&zero) == 0
    }

    /// The larger of the two values; the first one when they are equal.
    pub fn max(self, other: DecimalValue) -> (r: DecimalValue)
        ensures
            r == spec_max(self, other),
    {
        if other.lt(&self) || self.same_value(&other) {
            self
        } else {
            other
        }
    }

    /// The smaller of the two values; the first one when they are equal.
    pub fn min(self, other: DecimalValue) -> (r: DecimalValue)
        ensures
            r == spec_min(self, other),
    {
        if self.le(&other) {
            self
        } else {
            other
        }
    }

    pub fn checked_add(self, other: DecimalValue) -> (r: Option<DecimalValue>)
        ensures
            r == decimal_add(self, other),
            self.valid_parts(),
            other.valid_parts(),
            r matches Some(x) ==> x.valid_parts(),
            fits(self.units() + other.units()) ==> r is Some,
            representable(self.units() + other.units()) ==> (r is Some && r.unwrap().units() == self.units()
                + other.units()),
            self.units() >= 0 && other.units() >= 0 ==> (r matches Some(x) ==> x.units() >= 0),
            self.units() <= 0 && other.units() <= 0 ==> (r matches Some(x) ==> x.units() <= 0),
    {
        proof {
            use_type_invariant(self);
            use_type_invariant(other);
        }
        add_wrapper(self, other)
    }

    pub fn checked_sub(self, other: DecimalValue) -> (r: Option<DecimalValue>)
        ensures
            r == decimal_sub(self, other),
            self.valid_parts(),
            other.valid_parts(),
            r matches Some(x) ==> x.valid_parts(),
            fits(self.units() - other.units()) ==> r is Some,
            representable(self.units() - other.units()) ==> (r is Some && r.unwrap().units() == self.units()
                - other.units()),
            self.units() >= other.units() ==> (r matches Some(x) ==> x.units() >= 0),
            self.units() <= other.units() ==> (r matches Some(x) ==> x.units() <= 0),
    {
        proof {
            use_type_invariant(self);
            use_type_invariant(other);
        }
        sub_wrapper(self, other)
    }

    pub fn checked_mul(self, other: DecimalValue) -> (r: Option<DecimalValue>)
        ensures
            r == decimal_mul(self, other),
            self.valid_parts(),
            other.valid_parts(),
            r matches Some(x) ==> x.valid_parts(),
            self.units() == 0 || other.units() == 0 ==> r == Some(DecimalValue::integer_value(0)),
            exact_ratio(self.units() * other.units(), int_units(1)) ==> (r is Some && r.unwrap().units() * int_units(
                1,
            ) == self.units() * other.units()),
            self.units() * other.units() >= 0 ==> (r matches Some(x) ==> x.units() >= 0),
            self.units() * other.units() <= 0 ==> (r matches Some(x) ==> x.units() <= 0),
    {
        proof {
            use_type_invariant(self);
            use_type_invariant(other);
        }
        mul_wrapper(self, other)
    }

    pub fn checked_div(self, other: DecimalValue) -> (r: Option<DecimalValue>)
        ensures
            r == decimal_div(self, other),
            self.valid_parts(),
            other.valid_parts(),
            r matches Some(x) ==> x.valid_parts(),
            other.units() == 0 ==> r is None,
            other.units() != 0 && quotient_fits(self, other) ==> r is Some,
            exact_ratio(self.units() * int_units(1), other.units()) ==> (r is Some && r.unwrap().units()
                * other.units() == self.units() * int_units(1)),
            self.units() * other.units() >= 0 ==> (r matches Some(x) ==> x.units() >= 0),
            self.units() * other.units() <= 0 ==> (r matches Some(x) ==> x.units() <= 0),
    {
        proof {
            use_type_invariant(self);
            use_type_invariant(other);
        }
        div_wrapper(self, other)
    }

    /// The smallest integer not below the value, with scale 0.
    pub closed spec fn ceiling(self) -> DecimalValue {
        DecimalValue { mantissa: (-((-self.units()) / (pow10(max_scale() as nat) as int))) as i128, scale: 0 }
    }

    /// The ceiling is the least integer not below the value.
    pub proof fn lemma_ceiling(self)
        requires
            -max_units() <= self.units() <= max_units(),
        ensures
            self.ceiling().spec_scale() == 0,
            self.ceiling().units() >= self.units(),
            self.ceiling().units() - int_units(1) < self.units(),
    {
        let p: int = pow10(max_scale() as nat) as int;
        assert(p == 10000000000000000000000000000) by {
            reveal_with_fuel(pow10, 29);
        }
        let u = self.units();
        let q: int = (-u) / p;
        assert(-u == q * p + (-u) % p);
        assert(0 <= (-u) % p < p);
        assert(-0x1_0000_0000_0000_0000_0000_0001 <= q <= 0x1_0000_0000_0000_0000_0000_0001) by (nonlinear_arith)
            requires
                -u == q * p + (-u) % p,
                0 <= (-u) % p < p,
                p == 10000000000000000000000000000,
                -max_units() <= u <= max_units(),
                max_units() == 0xFFFF_FFFF_FFFF_FFFF_FFFF_FFFF * 10000000000000000000000000000,
        ;
        assert(pow10((max_scale() - 0) as nat) == p);
        let c = self.ceiling();
        assert(c.mantissa == -q);
        assert(c.units() == (-q) * p);
        assert(int_units(1) == p);
    }

    /// The smallest integer not below the value.
    pub fn ceil(self) -> (r: DecimalValue)
        ensures
            r == self.ceiling(),
    {
        proof {
            use_type_invariant(self);
        }
        ceil_wrapper(self)
    }

    /// The decimal rendered as text, as `Display` renders it.
    pub fn to_string(&self) -> (r: String)
        ensures
            r@ == decimal_display(*self),
    {
        proof {
            use_type_invariant(self);
        }
        display_wrapper(*self)
    }

    /// Parses decimal text such as "12.50".
    pub fn parse(text: &str) -> (r: Option<DecimalValue>)
        ensures
            r == decimal_parse(text@),
    {
        parse_wrapper(text)
    }
}

impl PartialEq for DecimalValue {
    /// Equality by value, so that 64 and 64.0 are equal.
    fn eq(&self, other: &DecimalValue) -> (r: bool) {
        self.compare(other) == 0
    }
}

impl vstd::std_specs::cmp::PartialEqSpecImpl for DecimalValue {
    open spec fn obeys_eq_spec() -> bool {
        true
    }

    open spec fn eq_spec(&self, other: &DecimalValue) -> bool {
        self.units() == other.units()
    }
}

impl Default for DecimalValue {
    fn default() -> (r: DecimalValue)
        ensures
            r.units() == 0,
    {
        DecimalValue::zero()
    }
}

/// One is 10^28 units.
pub proof fn lemma_unit_value()
    ensures
        pow10(max_scale() as nat) == 10000000000000000000000000000,
        int_units(1) == 10000000000000000000000000000,
{
    reveal_with_fuel(pow10, 29);
}

pub proof fn lemma_pow10_positive(n: nat)
    ensures
        pow10(n) >= 1,
    decreases n,
{
    if n > 0 {
        lemma_pow10_positive((n - 1) as nat);
    }
}

/// Powers of ten add their exponents when multiplied.
pub proof fn lemma_pow10_add(a: nat, b: nat)
    ensures
        pow10(a + b) == pow10(a) * pow10(b),
    decreases a,
{
    if a > 0 {
        lemma_pow10_add((a - 1) as nat, b);
        let x = pow10((a - 1) as nat);
        let y = pow10(b);
        assert(pow10(a) == 10 * x);
        assert(((a - 1) as nat + b) as nat == (a + b - 1) as nat);
        assert(pow10(a + b) == 10 * pow10((a + b - 1) as nat));
        assert(pow10((a - 1) as nat + b) == x * y);
        assert(10 * (x * y) == (10 * x) * y) by (nonlinear_arith);
    } else {
        assert(pow10(a) == 1);
        assert(a + b == b);
    }
}

/// A larger exponent gives a larger power of ten.
pub proof fn lemma_pow10_monotone(a: nat, b: nat)
    requires
        a <= b,
    ensures
        1 <= pow10(a) <= pow10(b),
    decreases b,
{
    lemma_pow10_positive(a);
    if a < b {
        lemma_pow10_monotone(a, (b - 1) as nat);
    }
}

/// Zero is held exactly.
pub proof fn lemma_zero_representable()
    ensures
        representable(0),
{
    assert(scaled_units(0, 0) == 0);
}

/// An integer of at most 96 bits is held exactly.
pub proof fn lemma_integer_representable(value: int)
    requires
        -max_mantissa() <= value <= max_mantissa(),
    ensures
        representable(int_units(value)),
{
    assert(scaled_units(value, 0) == int_units(value));
}

impl DecimalValue {
    /// The value of a decimal is held exactly and lies within the representable range.
    pub proof fn lemma_valid_representable(self)
        requires
            self.valid_parts(),
        ensures
            representable(self.units()),
            fits(self.units()),
    {
        let m = self.spec_mantissa();
        let s = self.spec_scale();
        assert(scaled_units(m, s) == self.units());
        let k = (max_scale() - s) as nat;
        lemma_pow10_monotone(k, max_scale() as nat);
        let p = pow10(k) as int;
        let big = pow10(max_scale() as nat) as int;
        let top = max_mantissa();
        assert(-(top * big) <= m * p <= top * big) by (nonlinear_arith)
            requires
                -top <= m <= top,
                1 <= p <= big,
        ;
    }

    /// One less a non-negative decimal is held exactly: at the decimal's own scale
    /// its mantissa is at most 10^28 away from the decimal's.
    pub proof fn lemma_complement_representable(self)
        requires
            self.valid_parts(),
            self.units() >= 0,
        ensures
            representable(int_units(1) - self.units()),
    {
        let m = self.spec_mantissa();
        let s = self.spec_scale();
        let k = (max_scale() - s) as nat;
        lemma_pow10_add(s as nat, k);
        lemma_pow10_monotone(s as nat, max_scale() as nat);
        lemma_pow10_positive(k);
        lemma_unit_value();
        let p = pow10(k) as int;
        let t = pow10(s as nat) as int;
        let u = self.units();
        assert(u == m * p);
        assert(m >= 0) by (nonlinear_arith)
            requires
                u == m * p,
                u >= 0,
                p >= 1,
        ;
        assert(int_units(1) == t * p);
        assert(scaled_units(t - m, s) == int_units(1) - u) by (nonlinear_arith)
            requires
                scaled_units(t - m, s) == (t - m) * p,
                int_units(1) == t * p,
                u == m * p,
        ;
        assert(t <= 10000000000000000000000000000);
    }
}

/// `a * b` when both are defined, as the decimal type computes it; `None` stands
/// for a value the decimal type cannot hold.
pub open spec fn mul_of(a: Option<DecimalValue>, b: Option<DecimalValue>) -> Option<DecimalValue> {
    match (a, b) {
        (Some(x), Some(y)) => decimal_mul(x, y),
        _ => None,
    }
}

pub open spec fn add_of(a: Option<DecimalValue>, b: Option<DecimalValue>) -> Option<DecimalValue> {
    match (a, b) {
        (Some(x), Some(y)) => decimal_add(x, y),
        _ => None,
    }
}

pub open spec fn sub_of(a: Option<DecimalValue>, b: Option<DecimalValue>) -> Option<DecimalValue> {
    match (a, b) {
        (Some(x), Some(y)) => decimal_sub(x, y),
        _ => None,
    }
}

pub open spec fn div_of(a: Option<DecimalValue>, b: Option<DecimalValue>) -> Option<DecimalValue> {
    match (a, b) {
        (Some(x), Some(y)) => decimal_div(x, y),
        _ => None,
    }
}

pub open spec fn max_of(a: Option<DecimalValue>, b: Option<DecimalValue>) -> Option<DecimalValue> {
    match (a, b) {
        (Some(x), Some(y)) => Some(spec_max(x, y)),
        _ => None,
    }
}

pub fn mul_opt(a: Option<DecimalValue>, b: Option<DecimalValue>) -> (r: Option<DecimalValue>)
    ensures
        r == mul_of(a, b),
{
    match (a, b) {
        (Some(x), Some(y)) => x.checked_mul(y),
        _ => None,
    }
}

pub fn add_opt(a: Option<DecimalValue>, b: Option<DecimalValue>) -> (r: Option<DecimalValue>)
    ensures
        r == add_of(a, b),
{
    match (a, b) {
        (Some(x), Some(y)) => x.checked_add(y),
        _ => None,
    }
}

pub fn sub_opt(a: Option<DecimalValue>, b: Option<DecimalValue>) -> (r: Option<DecimalValue>)
    ensures
        r == sub_of(a, b),
{
    match (a, b) {
        (Some(x), Some(y)) => x.checked_sub(y),
        _ => None,
    }
}

pub fn div_opt(a: Option<DecimalValue>, b: Option<DecimalValue>) -> (r: Option<DecimalValue>)
    ensures
        r == div_of(a, b),
{
    match (a, b) {
        (Some(x), Some(y)) => x.checked_div(y),
        _ => None,
    }
}

pub fn max_opt(a: Option<DecimalValue>, b: Option<DecimalValue>) -> (r: Option<DecimalValue>)
    ensures
        r == max_of(a, b),
{
    match (a, b) {
        (Some(x), Some(y)) => Some(x.max(y)),
        _ => None,
    }
}

pub open spec fn spec_max(a: DecimalValue, b: DecimalValue) -> DecimalValue {
    if a.units() >= b.units() {
        a
    } else {
        b
    }
}

pub open spec fn spec_min(a: DecimalValue, b: DecimalValue) -> DecimalValue {
    if a.units() <= b.units() {
        a
    } else {
        b
    }
}

/// What `Decimal::checked_add` returns.
pub uninterp spec fn decimal_add(a: DecimalValue, b: DecimalValue) -> Option<DecimalValue>;

/// What `Decimal::checked_sub` returns.
pub uninterp spec fn decimal_sub(a: DecimalValue, b: DecimalValue) -> Option<DecimalValue>;

/// What `Decimal::checked_mul` returns.
pub uninterp spec fn decimal_mul(a: DecimalValue, b: DecimalValue) -> Option<DecimalValue>;

/// What `Decimal::checked_div` returns.
pub uninterp spec fn decimal_div(a: DecimalValue, b: DecimalValue) -> Option<DecimalValue>;

/// The text that `Decimal`'s `Display` writes.
pub uninterp spec fn decimal_display(a: DecimalValue) -> Seq<char>;

/// What `Decimal::from_str` returns, when it succeeds.
pub uninterp spec fn decimal_parse(text: Seq<char>) -> Option<DecimalValue>;

/// Calls `Decimal::cmp`. Its contract claims that the comparison is the exact
/// numeric order of `mantissa * 10^-scale`.
#[verifier::external_body]
fn decimal_order(a: DecimalValue, b: DecimalValue) -> (r: i8)
    requires
        a.wf(),
        b.wf(),
    ensures
        r == -1 <==> a.units() < b.units(),
        r == 0 <==> a.units() == b.units(),
        r == 1 <==> a.units() > b.units(),
        -1 <= r <= 1,
{
    let left = Decimal::from_i128_with_scale(a.mantissa, a.scale);
    let right = Decimal::from_i128_with_scale(b.mantissa, b.scale);
    match left.cmp(&right) {
        std::cmp::Ordering::Less => -1,
        std::cmp::Ordering::Equal => 0,
        std::cmp::Ordering::Greater => 1,
    }
}

/// Calls `Decimal::checked_add`; the result is named `decimal_add`. As documented,
/// it is `None` only on overflow, so a sum within the representable range is `Some`.
/// It also claims what `add_sub_internal` shows: the operand of fewer fractional
/// digits is scaled up and the sum is formed exactly, then reduced by as few digits
/// as fit 96 bits, rounding; so a sum that a decimal holds exactly comes out exact,
/// and rounding never changes the sign. A result is a valid decimal.
#[verifier::external_body]
fn add_wrapper(a: DecimalValue, b: DecimalValue) -> (r: Option<DecimalValue>)
    requires
        a.wf(),
        b.wf(),
    ensures
        r == decimal_add(a, b),
        r matches Some(x) ==> x.wf(),
        fits(a.units() + b.units()) ==> r is Some,
        representable(a.units() + b.units()) ==> (r is Some && r.unwrap().units() == a.units() + b.units()),
        a.units() >= 0 && b.units() >= 0 ==> (r matches Some(x) ==> x.units() >= 0),
        a.units() <= 0 && b.units() <= 0 ==> (r matches Some(x) ==> x.units() <= 0),
{
    let left = Decimal::from_i128_with_scale(a.mantissa, a.scale);
    let right = Decimal::from_i128_with_scale(b.mantissa, b.scale);
    left.checked_add(right).map(|d| DecimalValue { mantissa: d.mantissa(), scale: d.scale() })
}

/// Calls `Decimal::checked_sub`; the result is named `decimal_sub`. As documented,
/// it is `None` only on overflow, so a difference within the representable range is
/// `Some`. It also claims what `add_sub_internal` shows, as for the sum: a
/// difference that a decimal holds exactly comes out exact, and rounding never
/// changes the sign. A result is a valid decimal.
#[verifier::external_body]
fn sub_wrapper(a: DecimalValue, b: DecimalValue) -> (r: Option<DecimalValue>)
    requires
        a.wf(),
        b.wf(),
    ensures
        r == decimal_sub(a, b),
        r matches Some(x) ==> x.wf(),
        fits(a.units() - b.units()) ==> r is Some,
        representable(a.units() - b.units()) ==> (r is Some && r.unwrap().units() == a.units() - b.units()),
        a.units() >= b.units() ==> (r matches Some(x) ==> x.units() >= 0),
        a.units() <= b.units() ==> (r matches Some(x) ==> x.units() <= 0),
{
    let left = Decimal::from_i128_with_scale(a.mantissa, a.scale);
    let right = Decimal::from_i128_with_scale(b.mantissa, b.scale);
    left.checked_sub(right).map(|d| DecimalValue { mantissa: d.mantissa(), scale: d.scale() })
}

/// Calls `Decimal::checked_mul`; the result is named `decimal_mul`. It also claims
/// what `mul_impl` shows: a zero operand gives `Decimal::ZERO`; otherwise the product
/// of the mantissas is formed exactly with the scales added, then reduced by as few
/// digits as bring it within 96 bits and 28 fractional digits, rounding; so a product
/// that a decimal holds exactly comes out exact, and the sign is that of the product.
/// A result is a valid decimal.
#[verifier::external_body]
fn mul_wrapper(a: DecimalValue, b: DecimalValue) -> (r: Option<DecimalValue>)
    requires
        a.wf(),
        b.wf(),
    ensures
        r == decimal_mul(a, b),
        r matches Some(x) ==> x.wf(),
        a.units() == 0 || b.units() == 0 ==> r == Some(DecimalValue::integer_value(0)),
        exact_ratio(a.units() * b.units(), int_units(1)) ==> (r is Some && r.unwrap().units() * int_units(1)
            == a.units() * b.units()),
        a.units() * b.units() >= 0 ==> (r matches Some(x) ==> x.units() >= 0),
        a.units() * b.units() <= 0 ==> (r matches Some(x) ==> x.units() <= 0),
{
    let left = Decimal::from_i128_with_scale(a.mantissa, a.scale);
    let right = Decimal::from_i128_with_scale(b.mantissa, b.scale);
    left.checked_mul(right).map(|d| DecimalValue { mantissa: d.mantissa(), scale: d.scale() })
}

/// Calls `Decimal::checked_div`; the result is named `decimal_div`; division by
/// zero gives `None`, and, as documented, a quotient within the representable range
/// is `Some`. It also claims what `div_impl` shows: the long division goes on, digit
/// group by digit group, until the remainder is zero or no further digit fits 96 bits
/// and 28 fractional digits, and only then rounds; so a quotient that a decimal holds
/// exactly comes out exact, and the sign is that of the quotient. A result is a valid
/// decimal.
#[verifier::external_body]
fn div_wrapper(a: DecimalValue, b: DecimalValue) -> (r: Option<DecimalValue>)
    requires
        a.wf(),
        b.wf(),
    ensures
        r == decimal_div(a, b),
        r matches Some(x) ==> x.wf(),
        b.units() == 0 ==> r is None,
        b.units() != 0 && quotient_fits(a, b) ==> r is Some,
        exact_ratio(a.units() * int_units(1), b.units()) ==> (r is Some && r.unwrap().units() * b.units()
            == a.units() * int_units(1)),
        a.units() * b.units() >= 0 ==> (r matches Some(x) ==> x.units() >= 0),
        a.units() * b.units() <= 0 ==> (r matches Some(x) ==> x.units() <= 0),
{
    let left = Decimal::from_i128_with_scale(a.mantissa, a.scale);
    let right = Decimal::from_i128_with_scale(b.mantissa, b.scale);
    left.checked_div(right).map(|d| DecimalValue { mantissa: d.mantissa(), scale: d.scale() })
}

/// Calls `Decimal::ceil`. Its contract claims the documented meaning: the least
/// integer not below the value, with scale 0.
#[verifier::external_body]
fn ceil_wrapper(a: DecimalValue) -> (r: DecimalValue)
    requires
        a.wf(),
    ensures
        r == a.ceiling(),
{
    let d = Decimal::from_i128_with_scale(a.mantissa, a.scale).ceil();
    DecimalValue { mantissa: d.mantissa(), scale: d.scale() }
}

/// Calls `Decimal`'s `Display`; the text is named `decimal_display`.
#[verifier::external_body]
fn display_wrapper(a: DecimalValue) -> (r: String)
    requires
        a.wf(),
    ensures
        r@ == decimal_display(a),
{
    Decimal::from_i128_with_scale(a.mantissa, a.scale).to_string()
}

/// Calls `Decimal::from_str`; the result is named `decimal_parse`.
#[verifier::external_body]
fn parse_wrapper(text: &str) -> (r: Option<DecimalValue>)
    ensures
        r == decimal_parse(text@),
{
    <Decimal as std::str::FromStr>::from_str(text).ok().map(
        |d| DecimalValue { mantissa: d.mantissa(), scale: d.scale() },
    )
}

} // verus!
