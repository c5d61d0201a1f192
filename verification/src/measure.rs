//! Single-precision quantities, held by their place in the order.
//!
//! Attributes, relationship levels and event magnitudes are single-precision
//! numbers. The rules of this library only compare them, so a value is kept as
//! an integer key that sorts the way the numbers do. [`Measure::units`] says
//! which number a key stands for, in multiples of the smallest positive one.

#[allow(unused_imports)]
use vstd::prelude::*;
#[allow(unused_imports)]
use vstd::arithmetic::power2::{
    lemma_pow2_adds, lemma_pow2_pos, lemma_pow2_strictly_increases, pow2,
};

verus! {

/// The value of the non-negative key `k`, in multiples of the smallest positive value.
pub open spec fn magnitude(k: int) -> int {
    let exponent = k / 0x0080_0000;
    let fraction = k % 0x0080_0000;
    if exponent == 0 {
        fraction
    } else {
        (0x0080_0000 + fraction) * pow2((exponent - 1) as nat)
    }
}

/// The number one, in multiples of the smallest positive value.
pub open spec fn one() -> int {
    pow2(149) as int
}

/// A single-precision number other than NaN. Positive and negative zero are one value.
#[derive(Clone, Copy, Debug, PartialEq, Eq, Structural)]
pub struct Measure {
    pub key: i32,
}

impl Measure {
    /// Whether the key lies between those of the two infinities.
    pub open spec fn wf(self) -> bool {
        -0x7f80_0000 <= self.key <= 0x7f80_0000
    }

    /// The number, in multiples of the smallest positive value.
    pub open spec fn units(self) -> int {
        if self.key >= 0 {
            magnitude(self.key as int)
        } else {
            -magnitude(-self.key)
        }
    }

    /// Whether the number is at least the whole number `n`.
    pub open spec fn ge(self, n: int) -> bool {
        self.units() >= n * one()
    }

    /// Whether the number is at most the whole number `n`.
    pub open spec fn le(self, n: int) -> bool {
        self.units() <= n * one()
    }

    /// Whether the number is at least `n` halves.
    pub open spec fn ge_halves(self, n: int) -> bool {
        2 * self.units() >= n * one()
    }

    /// Whether the number is at most `n` halves.
    pub open spec fn le_halves(self, n: int) -> bool {
        2 * self.units() <= n * one()
    }

    /// Whether the number is at least `m` divided by two to the power `shift`.
    pub open spec fn ge_binary(self, m: int, shift: nat) -> bool {
        self.units() * pow2(shift) >= m * one()
    }

    /// Whether the number is at most `m` divided by two to the power `shift`.
    pub open spec fn le_binary(self, m: int, shift: nat) -> bool {
        self.units() * pow2(shift) <= m * one()
    }

    /// The number without its sign.
    pub open spec fn abs_units(self) -> int {
        if self.units() >= 0 {
            self.units()
        } else {
            -self.units()
        }
    }

    /// Whether the number is above the single-precision number nearest to `h` hundredths.
    pub open spec fn gt_hundredths(self, h: int) -> bool {
        !self.le_binary(nearest_hundredths(h).0, nearest_hundredths(h).1)
    }

    /// The number without its sign.
    pub open spec fn absolute(self) -> Measure {
        if self.key >= 0 {
            self
        } else {
            Measure { key: (-self.key) as i32 }
        }
    }

    /// The number that is `n` halves.
    pub open spec fn of_halves(n: int) -> Measure {
        choose|m: Measure| 2 * m.units() == n * one()
    }

    /// Whether the number is below the single-precision number nearest to `h` hundredths.
    pub open spec fn lt_hundredths(self, h: int) -> bool {
        !self.ge_binary(nearest_hundredths(h).0, nearest_hundredths(h).1)
    }

    /// Reads the IEEE 754 bit pattern of a single-precision number. NaN has no place in
    /// the order and gives `None`.
    pub fn from_bits(bits: u32) -> (r: Option<Measure>)
        ensures
            match r {
                None => bits % 0x8000_0000 > 0x7f80_0000,
                Some(m) => {
                    &&& bits % 0x8000_0000 <= 0x7f80_0000
                    &&& m.wf()
                    &&& m.key == if bits < 0x8000_0000 { bits as int } else { 0x8000_0000 - bits }
                },
            },
    {
        if bits < 0x8000_0000 {
            if bits > 0x7f80_0000 {
                None
            } else {
                Some(Measure { key: bits as i32 })
            }
        } else {
            let low: u32 = bits - 0x8000_0000;
            if low > 0x7f80_0000 {
                None
            } else {
                Some(Measure { key: -(low as i32) })
            }
        }
    }

    /// The IEEE 754 bit pattern of the number; zero is written without a sign.
    pub fn to_bits(&self) -> (bits: u32)
        requires
            self.wf(),
        ensures
            bits == if self.key >= 0 { self.key as int } else { 0x8000_0000 - self.key },
    {
        if self.key >= 0 {
            self.key as u32
        } else {
            0x8000_0000u32 + ((-self.key) as u32)
        }
    }

    /// The number `m` divided by two to the power `shift`.
    pub fn binary(m: u32, shift: u32) -> (r: Measure)
        requires
            m < 0x0100_0000,
            shift <= 126,
        ensures
            r.wf(),
            r.key >= 0,
            r.units() == m * pow2((149 - shift) as nat),
            r.units() * pow2(shift as nat) == m * one(),
    {
        if m == 0 {
            proof {
                assert(magnitude(0) == 0);
                assert(0 * pow2((149 - shift) as nat) == 0) by (nonlinear_arith);
                assert(0 * pow2(shift as nat) == 0) by (nonlinear_arith);
                assert(0 * one() == 0) by (nonlinear_arith);
            }
            return Measure { key: 0 };
        }
        let mut significand: u32 = m;
        let mut doublings: u32 = 0;
        proof {
            vstd::arithmetic::power2::lemma2_to64();
        }
        while significand < 0x0080_0000
            invariant
                0 < significand < 0x0100_0000,
                doublings <= 23,
                significand == m * pow2(doublings as nat),
                0 < m,
            decreases 0x0100_0000 - significand,
        {
            proof {
                lemma_doublings_bounded(m as int, doublings as nat, significand as int);
                lemma_pow2_adds(doublings as nat, 1);
                vstd::arithmetic::power2::lemma2_to64();
                assert(m * (pow2(doublings as nat) * 2) == 2 * (m * pow2(doublings as nat)))
                    by (nonlinear_arith);
            }
            significand = significand * 2;
            doublings = doublings + 1;
        }
        let exponent: u32 = 150 - shift - doublings;
        let key: i32 = (exponent as i32) * 0x0080_0000 + (significand as i32 - 0x0080_0000);
        let r = Measure { key };
        proof {
            let e = exponent as int;
            let f = significand - 0x0080_0000;
            assert(key == e * 0x0080_0000 + f);
            assert(key as int / 0x0080_0000 == e);
            assert(key as int % 0x0080_0000 == f);
            let p = pow2(doublings as nat);
            let q = pow2((e - 1) as nat);
            assert(r.units() == significand * q);
            lemma_pow2_adds(doublings as nat, (e - 1) as nat);
            assert((m * p) * q == m * (p * q)) by (nonlinear_arith);
            assert(r.units() == m * pow2((149 - shift) as nat));
            lemma_pow2_adds((149 - shift) as nat, shift as nat);
            let s = pow2(shift as nat);
            let t = pow2((149 - shift) as nat);
            assert((m * t) * s == m * (t * s)) by (nonlinear_arith);
        }
        r
    }

    /// The number `n` divided by two to the power `shift`, for either sign of `n`.
    fn signed_binary(n: i32, shift: u32) -> (r: Measure)
        requires
            -0x0100_0000 < n < 0x0100_0000,
            shift <= 126,
        ensures
            r.wf(),
            r.units() * pow2(shift as nat) == n * one(),
    {
        if n >= 0 {
            Measure::binary(n as u32, shift)
        } else {
            let positive = Measure::binary((-n) as u32, shift);
            let r = Measure { key: -positive.key };
            proof {
                let p = pow2(shift as nat);
                let u = positive.units();
                assert(r.units() == -u) by {
                    if positive.key == 0 {
                        assert(magnitude(0) == 0);
                    }
                }
                assert((-u) * p == -(u * p)) by (nonlinear_arith);
                assert((-n) * one() == -(n * one())) by (nonlinear_arith);
            }
            r
        }
    }

    /// The whole number `n`.
    pub fn whole(n: i32) -> (r: Measure)
        requires
            -0x0100_0000 < n < 0x0100_0000,
        ensures
            r.wf(),
            r.units() == n * one(),
    {
        proof {
            vstd::arithmetic::power2::lemma2_to64();
        }
        Measure::signed_binary(n, 0)
    }

    /// The number that is `n` halves.
    pub fn halves(n: i32) -> (r: Measure)
        requires
            -0x0100_0000 < n < 0x0100_0000,
        ensures
            r.wf(),
            r == Measure::of_halves(n as int),
            2 * r.units() == n * one(),
    {
        proof {
            vstd::arithmetic::power2::lemma2_to64();
        }
        let r = Measure::signed_binary(n, 1);
        proof {
            lemma_order(r, Measure::of_halves(n as int));
        }
        r
    }

    /// The number without its sign.
    pub fn abs(&self) -> (r: Measure)
        requires
            self.wf(),
        ensures
            r.wf(),
            r == self.absolute(),
            r.units() == self.abs_units(),
    {
        proof {
            lemma_order(*self, Measure { key: 0 });
            assert(magnitude(0) == 0);
        }
        if self.key >= 0 {
            *self
        } else {
            Measure { key: -self.key }
        }
    }

    /// The number, kept between two whole numbers.
    pub open spec fn clamped_units(self, low: int, high: int) -> int {
        if !self.ge(low) {
            low * one()
        } else if !self.le(high) {
            high * one()
        } else {
            self.units()
        }
    }

    /// The number, kept between two whole numbers.
    pub fn clamped(&self, low: i32, high: i32) -> (r: Measure)
        requires
            -0x0100_0000 < low <= high < 0x0100_0000,
        ensures
            r.units() == self.clamped_units(low as int, high as int),
            r.wf(),
            r.ge(low as int),
            r.le(high as int),
    {
        proof {
            lemma_one_positive();
            assert(low * one() <= high * one()) by (nonlinear_arith)
                requires
                    low <= high,
                    one() > 0,
            ;
        }
        let floor = Measure::whole(low);
        let ceiling = Measure::whole(high);
        if !self.at_least(&floor) {
            floor
        } else if !ceiling.at_least(self) {
            ceiling
        } else {
            proof {
                lemma_order(floor, *self);
                lemma_order(*self, ceiling);
            }
            *self
        }
    }

    /// Whether this number is at least `other`.
    pub fn at_least(&self, other: &Measure) -> (r: bool)
        ensures
            r == (self.units() >= other.units()),
    {
        proof {
            lemma_order(*self, *other);
        }
        self.key >= other.key
    }

    /// Whether this number is at least the whole number `n`.
    pub fn is_at_least(&self, n: i32) -> (r: bool)
        requires
            -0x0100_0000 < n < 0x0100_0000,
        ensures
            r == self.ge(n as int),
    {
        let bound = Measure::whole(n);
        self.at_least(&bound)
    }

    /// Whether this number is at most the whole number `n`.
    pub fn is_at_most(&self, n: i32) -> (r: bool)
        requires
            -0x0100_0000 < n < 0x0100_0000,
        ensures
            r == self.le(n as int),
    {
        let bound = Measure::whole(n);
        bound.at_least(self)
    }

    /// Whether this number is at least `n` halves.
    pub fn is_at_least_halves(&self, n: i32) -> (r: bool)
        requires
            -0x0100_0000 < n < 0x0100_0000,
        ensures
            r == self.ge_halves(n as int),
    {
        let bound = Measure::signed_binary(n, 1);
        proof {
            vstd::arithmetic::power2::lemma2_to64();
        }
        self.at_least(&bound)
    }

    /// Whether this number is at most `n` halves.
    pub fn is_at_most_halves(&self, n: i32) -> (r: bool)
        requires
            -0x0100_0000 < n < 0x0100_0000,
        ensures
            r == self.le_halves(n as int),
    {
        let bound = Measure::signed_binary(n, 1);
        proof {
            vstd::arithmetic::power2::lemma2_to64();
        }
        bound.at_least(self)
    }

    /// Whether this number is at least `m` divided by two to the power `shift`.
    pub fn is_at_least_binary(&self, m: u32, shift: u32) -> (r: bool)
        requires
            m < 0x0100_0000,
            shift <= 126,
        ensures
            r == self.ge_binary(m as int, shift as nat),
    {
        let bound = Measure::binary(m, shift);
        proof {
            lemma_pow2_pos(shift as nat);
            let p = pow2(shift as nat) as int;
            let a = self.units();
            let b = bound.units();
            assert((a >= b) == (a * p >= b * p)) by (nonlinear_arith)
                requires
                    p > 0,
            ;
        }
        self.at_least(&bound)
    }

    /// Whether this number is at most `m` divided by two to the power `shift`.
    pub fn is_at_most_binary(&self, m: u32, shift: u32) -> (r: bool)
        requires
            m < 0x0100_0000,
            shift <= 126,
        ensures
            r == self.le_binary(m as int, shift as nat),
    {
        let bound = Measure::binary(m, shift);
        proof {
            lemma_pow2_pos(shift as nat);
            let p = pow2(shift as nat) as int;
            let a = self.units();
            let b = bound.units();
            assert((a <= b) == (a * p <= b * p)) by (nonlinear_arith)
                requires
                    p > 0,
            ;
        }
        bound.at_least(self)
    }

    /// Whether the number is below the single-precision number nearest to `h` hundredths.
    pub fn is_below_hundredths(&self, h: u32) -> (r: bool)
        requires
            is_tabled(h as int),
        ensures
            r == self.lt_hundredths(h as int),
    {
        let (significand, shift): (u32, u32) = tabled_hundredths(h);
        !self.is_at_least_binary(significand, shift)
    }

    /// Whether the number is above the single-precision number nearest to `h` hundredths.
    pub fn is_above_hundredths(&self, h: u32) -> (r: bool)
        requires
            is_tabled(h as int),
        ensures
            r == self.gt_hundredths(h as int),
    {
        let (significand, shift): (u32, u32) = tabled_hundredths(h);
        !self.is_at_most_binary(significand, shift)
    }
}

/// The single-precision number nearest to `h` hundredths.
fn tabled_hundredths(h: u32) -> (r: (u32, u32))
    requires
        is_tabled(h as int),
    ensures
        (r.0 as int, r.1 as nat) == nearest_hundredths(h as int),
        r.0 < 0x0100_0000,
        r.1 <= 126,
{
    if h == 10 {
        (13421773, 27)
    } else if h == 30 {
        (10066330, 25)
    } else if h == 35 {
        (11744051, 25)
    } else if h == 40 {
        (13421773, 25)
    } else if h == 45 {
        (15099494, 25)
    } else if h == 50 {
        (8388608, 24)
    } else if h == 55 {
        (9227469, 24)
    } else if h == 60 {
        (10066330, 24)
    } else if h == 65 {
        (10905190, 24)
    } else {
        (8388608, 23)
    }
}

/// Whether [`nearest_hundredths`] has an entry for `h`.
pub open spec fn is_tabled(h: int) -> bool {
    h == 10 || h == 30 || h == 35 || h == 40 || h == 45 || h == 50 || h == 55 || h == 60 || h == 65
        || h == 100
}

/// The single-precision number nearest to `h` hundredths, as a significand and the power of
/// two that it is divided by.
pub open spec fn nearest_hundredths(h: int) -> (int, nat) {
    if h == 10 {
        (13421773, 27)
    } else if h == 30 {
        (10066330, 25)
    } else if h == 35 {
        (11744051, 25)
    } else if h == 40 {
        (13421773, 25)
    } else if h == 45 {
        (15099494, 25)
    } else if h == 50 {
        (8388608, 24)
    } else if h == 55 {
        (9227469, 24)
    } else if h == 60 {
        (10066330, 24)
    } else if h == 65 {
        (10905190, 24)
    } else {
        (8388608, 23)
    }
}

/// The tabled significands fill the 24 bits that single precision has, and no other
/// significand with the same power of two is nearer to the decimal number.
pub proof fn lemma_nearest_hundredths(h: int)
    requires
        is_tabled(h),
    ensures
        ({
            let (m, shift) = nearest_hundredths(h);
            &&& 0x0080_0000 <= m < 0x0100_0000
            &&& -50 < 100 * m - h * pow2(shift) < 50
        }),
{
    vstd::arithmetic::power2::lemma2_to64();
}

/// One is a positive number.
pub proof fn lemma_one_positive()
    ensures
        one() > 0,
{
    lemma_pow2_pos(149);
}

/// Whole numbers sort as such.
pub proof fn lemma_whole_order(a: int, b: int)
    ensures
        a * one() <= b * one() <==> a <= b,
        a * one() == b * one() <==> a == b,
{
    lemma_one_positive();
    let o = one();
    assert(a * o <= b * o <==> a <= b) by (nonlinear_arith)
        requires
            o > 0,
    ;
    assert(a * o == b * o <==> a == b) by (nonlinear_arith)
        requires
            o > 0,
    ;
}

/// A positive number below two to the power 23 stays below it under fewer than 23 doublings
/// only while its doubled value does.
proof fn lemma_doublings_bounded(m: int, doublings: nat, significand: int)
    requires
        m >= 1,
        significand == m * pow2(doublings),
        significand < 0x0080_0000,
    ensures
        doublings < 23,
{
    if doublings >= 23 {
        vstd::arithmetic::power2::lemma2_to64();
        if doublings > 23 {
            lemma_pow2_strictly_increases(23, doublings);
        }
        let p = pow2(doublings) as int;
        assert(m * p >= p) by (nonlinear_arith)
            requires
                m >= 1,
                p >= 0,
        ;
    }
}

/// Greater non-negative keys stand for greater numbers.
proof fn lemma_magnitude_increases(a: int, b: int)
    requires
        0 <= a < b,
    ensures
        0 <= magnitude(a) < magnitude(b),
{
    let ea = a / 0x0080_0000;
    let fa = a % 0x0080_0000;
    let eb = b / 0x0080_0000;
    let fb = b % 0x0080_0000;
    if eb > 0 {
        let q = pow2((eb - 1) as nat) as int;
        lemma_pow2_pos((eb - 1) as nat);
        assert((0x0080_0000 + fb) * q >= 0x0080_0000 * q) by (nonlinear_arith)
            requires
                fb >= 0,
                q > 0,
        ;
        if ea > 0 {
            let p = pow2((ea - 1) as nat) as int;
            lemma_pow2_pos((ea - 1) as nat);
            if ea == eb {
                assert((0x0080_0000 + fa) * q < (0x0080_0000 + fb) * q) by (nonlinear_arith)
                    requires
                        fa < fb,
                        q > 0,
                ;
                assert(0 <= (0x0080_0000 + fa) * q) by (nonlinear_arith)
                    requires
                        fa >= 0,
                        q > 0,
                ;
            } else {
                assert(q >= 2 * p) by {
                    lemma_pow2_adds((ea - 1) as nat, 1);
                    vstd::arithmetic::power2::lemma2_to64();
                    if ea + 1 < eb {
                        lemma_pow2_strictly_increases(ea as nat, (eb - 1) as nat);
                    }
                }
                assert(0 <= (0x0080_0000 + fa) * p < 0x0100_0000 * p) by (nonlinear_arith)
                    requires
                        0 <= fa < 0x0080_0000,
                        p > 0,
                ;
            }
        }
    }
}

/// Keys sort as the numbers they stand for.
pub proof fn lemma_order(a: Measure, b: Measure)
    ensures
        (a.key <= b.key) == (a.units() <= b.units()),
        (a.key == b.key) == (a.units() == b.units()),
{
    assert(magnitude(0) == 0);
    if a.key >= 0 && b.key >= 0 {
        if a.key < b.key {
            lemma_magnitude_increases(a.key as int, b.key as int);
        } else if b.key < a.key {
            lemma_magnitude_increases(b.key as int, a.key as int);
        }
    } else if a.key < 0 && b.key < 0 {
        if a.key < b.key {
            lemma_magnitude_increases(-b.key, -a.key);
        } else if b.key < a.key {
            lemma_magnitude_increases(-a.key, -b.key);
        }
    } else if a.key < 0 {
        lemma_magnitude_increases(0, -a.key);
        if b.key > 0 {
            lemma_magnitude_increases(0, b.key as int);
        }
    } else {
        lemma_magnitude_increases(0, -b.key);
        if a.key > 0 {
            lemma_magnitude_increases(0, a.key as int);
        }
    }
}

/// There is a number that is so many halves, found by doubling up to a full significand.
proof fn lemma_some_halves(n: int, significand: int, doublings: nat)
    requires
        n >= 1,
        significand == n * pow2(doublings),
        0 < significand < 0x0100_0000,
        doublings <= 23,
    ensures
        exists|m: Measure| 2 * #[trigger] m.units() == n * one(),
    decreases 0x0100_0000 - significand,
{
    vstd::arithmetic::power2::lemma2_to64();
    if significand < 0x0080_0000 {
        lemma_doublings_bounded(n, doublings, significand);
        lemma_pow2_adds(doublings, 1);
        let p = pow2(doublings) as int;
        assert(n * (p * 2) == 2 * (n * p)) by (nonlinear_arith);
        lemma_some_halves(n, 2 * significand, doublings + 1);
    } else {
        let e = 149 - doublings;
        let f = significand - 0x0080_0000;
        let m = Measure { key: (e * 0x0080_0000 + f) as i32 };
        assert(m.key as int / 0x0080_0000 == e);
        assert(m.key as int % 0x0080_0000 == f);
        let p = pow2(doublings) as int;
        let q = pow2((e - 1) as nat) as int;
        assert(m.units() == significand * q);
        lemma_pow2_adds(doublings, (e - 1) as nat);
        lemma_pow2_adds(148, 1);
        assert((n * p) * q == n * (p * q)) by (nonlinear_arith);
        let r = pow2(148) as int;
        assert(2 * (n * r) == n * (r * 2)) by (nonlinear_arith);
        assert(2 * m.units() == n * one());
    }
}

/// The number that is `n` halves is half of the whole number `n`.
pub proof fn lemma_halves(n: int)
    requires
        -0x0100_0000 < n < 0x0100_0000,
    ensures
        2 * Measure::of_halves(n).units() == n * one(),
{
    vstd::arithmetic::power2::lemma2_to64();
    assert(magnitude(0) == 0);
    if n == 0 {
        let m = Measure { key: 0 };
        assert(0 * one() == 0) by (nonlinear_arith);
        assert(2 * m.units() == n * one());
    } else if n > 0 {
        lemma_some_halves(n, n, 0);
    } else {
        lemma_some_halves(-n, -n, 0);
        let k = choose|k: Measure| 2 * #[trigger] k.units() == (-n) * one();
        lemma_one_positive();
        let o = one();
        assert((-n) * o == -(n * o)) by (nonlinear_arith);
        assert((-n) * o > 0) by (nonlinear_arith)
            requires
                n < 0,
                o > 0,
        ;
        lemma_order(k, Measure { key: 0 });
        let m = Measure { key: (-k.key) as i32 };
        assert(m.units() == -k.units());
        assert(2 * m.units() == n * one());
    }
}

} // verus!
