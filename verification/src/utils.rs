//! Random utilities: fractions of unsigned numbers, kept in lowest terms
//! with the greatest common divisor of their parts.

use gcd::Gcd;
use vstd::prelude::*;

verus! {

/// Whether `d` divides `n`.
pub open spec fn divides(d: nat, n: nat) -> bool {
    d > 0 && n % d == 0
}

/// Whether `g` is the greatest common divisor of `a` and `b`: the largest
/// number that divides both, and 0 where both are 0.
pub open spec fn is_gcd(a: nat, b: nat, g: nat) -> bool {
    if a == 0 && b == 0 {
        g == 0
    } else {
        &&& divides(g, a)
        &&& divides(g, b)
        &&& forall|d: nat| #[trigger] divides(d, a) && divides(d, b) ==> d <= g
    }
}

/// The greatest common divisor of `a` and `b`.
pub open spec fn gcd_of(a: nat, b: nat) -> nat {
    choose|g: nat| is_gcd(a, b, g)
}

/// `Gcd::gcd` on `u32`: the greatest common divisor of `a` and `b`, which
/// is 0 where both are 0.
#[verifier::external_body]
fn gcd_u32(a: u32, b: u32) -> (g: u32)
    ensures
        is_gcd(a as nat, b as nat, g as nat),
{
    a.gcd(b)
}

/// The largest number up to `k` that divides both `a` and `b`, or 0 where
/// there is none.
pub open spec fn common_divisor_up_to(a: nat, b: nat, k: nat) -> nat
    decreases k,
{
    if k == 0 {
        0
    } else if divides(k, a) && divides(k, b) {
        k
    } else {
        common_divisor_up_to(a, b, (k - 1) as nat)
    }
}

/// A divisor of a positive number is no larger than the number.
pub proof fn lemma_divisor_bound(d: nat, n: nat)
    requires
        divides(d, n),
        n > 0,
    ensures
        d <= n,
{
    if d > n {
        vstd::arithmetic::div_mod::lemma_small_mod(n, d);
    }
}

/// `common_divisor_up_to` divides both numbers and is the largest such
/// number up to `k`.
pub proof fn lemma_common_divisor_up_to(a: nat, b: nat, k: nat)
    requires
        k > 0,
    ensures
        divides(common_divisor_up_to(a, b, k), a),
        divides(common_divisor_up_to(a, b, k), b),
        forall|d: nat| #[trigger] divides(d, a) && divides(d, b) && d <= k ==> d
            <= common_divisor_up_to(a, b, k),
    decreases k,
{
    if k == 1 {
        assert(divides(1, a) && divides(1, b));
    } else if !(divides(k, a) && divides(k, b)) {
        lemma_common_divisor_up_to(a, b, (k - 1) as nat);
    }
}

/// Every two numbers have a greatest common divisor, and `gcd_of` is it.
pub proof fn lemma_gcd_of(a: nat, b: nat)
    ensures
        is_gcd(a, b, gcd_of(a, b)),
{
    if a == 0 && b == 0 {
        assert(is_gcd(a, b, 0));
    } else {
        let k = if a > b {
            a
        } else {
            b
        };
        lemma_common_divisor_up_to(a, b, k);
        let g = common_divisor_up_to(a, b, k);
        assert forall|d: nat| #[trigger] divides(d, a) && divides(d, b) implies d <= g by {
            if a > 0 {
                lemma_divisor_bound(d, a);
            } else {
                lemma_divisor_bound(d, b);
            }
        }
        assert(is_gcd(a, b, g));
    }
}

/// Two numbers have one greatest common divisor.
pub proof fn lemma_gcd_unique(a: nat, b: nat, g: nat)
    requires
        is_gcd(a, b, g),
    ensures
        gcd_of(a, b) == g,
{
    let h = gcd_of(a, b);
    assert(is_gcd(a, b, h));
}

/// Reducing a fraction keeps a part that is not 0 from becoming 0, and
/// makes neither part larger.
pub proof fn lemma_reduced_parts(f: Fraction)
    ensures
        f.0 != 0 ==> f.reduced().0 != 0,
        f.1 != 0 ==> f.reduced().1 != 0,
        f.reduced().0 <= f.0,
        f.reduced().1 <= f.1,
{
    let g = gcd_of(f.0 as nat, f.1 as nat);
    lemma_gcd_of(f.0 as nat, f.1 as nat);
    if g > 1 {
        if f.0 != 0 {
            lemma_divisor_bound(g, f.0 as nat);
            vstd::arithmetic::div_mod::lemma_div_non_zero(f.0 as int, g as int);
        }
        if f.1 != 0 {
            lemma_divisor_bound(g, f.1 as nat);
            vstd::arithmetic::div_mod::lemma_div_non_zero(f.1 as int, g as int);
        }
        vstd::arithmetic::div_mod::lemma_div_is_ordered_by_denominator(f.0 as int, 1, g as int);
        vstd::arithmetic::div_mod::lemma_div_is_ordered_by_denominator(f.1 as int, 1, g as int);
    }
}

/// Reducing a fraction keeps its value, and leaves it in lowest terms: the
/// parts of the result have no common divisor but 1, unless both are 0.
pub proof fn law_reduce_keeps_the_value(f: Fraction)
    ensures
        f.reduced().0 * f.1 == f.0 * f.reduced().1,
        f.0 != 0 || f.1 != 0 ==> is_gcd(f.reduced().0 as nat, f.reduced().1 as nat, 1),
{
    let a = f.0 as nat;
    let b = f.1 as nat;
    let g = gcd_of(a, b);
    lemma_gcd_of(a, b);
    lemma_reduced_parts(f);
    if a != 0 || b != 0 {
        let x = a / g;
        let y = b / g;
        vstd::arithmetic::div_mod::lemma_fundamental_div_mod(a as int, g as int);
        vstd::arithmetic::div_mod::lemma_fundamental_div_mod(b as int, g as int);
        assert(a == g * x);
        assert(b == g * y);
        assert((g * x) * (g * y) == (g * y) * (g * x)) by (nonlinear_arith);
        assert(x * b == a * y) by (nonlinear_arith)
            requires
                a == g * x,
                b == g * y,
        ;
        if g > 1 {
            assert(f.reduced() == Fraction(x as u32, y as u32));
        } else {
            assert(x == a && y == b) by (nonlinear_arith)
                requires
                    g == 1,
                    a == g * x,
                    b == g * y,
            ;
        }
        assert(divides(1, x) && divides(1, y));
        assert forall|d: nat| #[trigger] divides(d, x) && divides(d, y) implies d <= 1 by {
            vstd::arithmetic::div_mod::lemma_fundamental_div_mod(x as int, d as int);
            vstd::arithmetic::div_mod::lemma_fundamental_div_mod(y as int, d as int);
            let p = x / d;
            let q = y / d;
            assert(a == (d * g) * p) by (nonlinear_arith)
                requires
                    a == g * x,
                    x == d * p,
            ;
            assert(b == (d * g) * q) by (nonlinear_arith)
                requires
                    b == g * y,
                    y == d * q,
            ;
            assert(d * g > 0) by (nonlinear_arith)
                requires
                    d > 0,
                    g > 0,
            ;
            vstd::arithmetic::div_mod::lemma_mod_multiples_basic(p as int, (d * g) as int);
            vstd::arithmetic::div_mod::lemma_mod_multiples_basic(q as int, (d * g) as int);
            assert(a == p * (d * g)) by (nonlinear_arith)
                requires
                    a == (d * g) * p,
            ;
            assert(b == q * (d * g)) by (nonlinear_arith)
                requires
                    b == (d * g) * q,
            ;
            assert(divides(d * g, a) && divides(d * g, b));
            assert(d * g <= g);
            assert(d <= 1) by (nonlinear_arith)
                requires
                    d * g <= g,
                    g > 0,
            ;
        }
    }
}

/// Unsigned number represented by a fraction.
#[derive(Debug, Copy, Clone, PartialEq, Eq, Structural)]
pub struct Fraction(pub u32, pub u32);

impl Default for Fraction {
    fn default() -> (f: Self)
        ensures
            f == Fraction(0, 0),
    {
        Fraction(0, 0)
    }
}

impl Fraction {
    /// The fraction with both parts divided by their greatest common
    /// divisor.
    pub open spec fn reduced(self) -> Fraction {
        let div = gcd_of(self.0 as nat, self.1 as nat);
        if div > 1 {
            Fraction((self.0 as nat / div) as u32, (self.1 as nat / div) as u32)
        } else {
            self
        }
    }

    pub fn reduce(self) -> (r: Self)
        ensures
            r == self.reduced(),
    {
        let div = gcd_u32(self.0, self.1);
        proof {
            lemma_gcd_unique(self.0 as nat, self.1 as nat, div as nat);
        }
        if div > 1 {
            Fraction(self.0 / div, self.1 / div)
        } else {
            self
        }
    }

    /// The fraction with its parts swapped.
    pub open spec fn inverted(self) -> Fraction {
        Fraction(self.1, self.0)
    }

    #[verifier::when_used_as_spec(inverted)]
    pub fn invert(self) -> (r: Fraction)
        ensures
            r == self.inverted(),
    {
        Fraction(self.1, self.0)
    }

    pub fn mul_div(self, mul: u32, div: u32) -> (r: Fraction)
        requires
            self.0 * mul <= u32::MAX,
            self.1 * div <= u32::MAX,
        ensures
            r == Fraction((self.0 * mul) as u32, (self.1 * div) as u32).reduced(),
    {
        Fraction(self.0 * mul, self.1 * div).reduce()
    }

    /// The whole nanoseconds in as many seconds as the fraction says,
    /// rounded down.
    pub open spec fn nanos(self) -> nat {
        self.0 as nat * 1_000_000_000 / self.1 as nat
    }

    /// The whole nanoseconds in as many seconds as the fraction says,
    /// rounded down.
    pub fn into_nanos(self) -> (nanos: u64)
        requires
            self.1 != 0,
        ensures
            nanos == self.nanos(),
    {
        let whole: u64 = self.0 as u64 * 1_000_000_000;
        whole / self.1 as u64
    }

    /// The fraction of a second that `nanos` nanoseconds are.
    pub fn from_nanos(nanos: u32) -> (f: Fraction)
        requires
            nanos < 1_000_000_000,
        ensures
            f == Fraction(nanos, 1_000_000_000).reduced(),
    {
        Fraction(nanos, 1_000_000_000).reduce()
    }

    pub fn into_u32(self) -> (n: u32)
        requires
            self.1 != 0,
            self.0 % self.1 == 0,
        ensures
            n == self.0 / self.1,
    {
        self.0 / self.1
    }
}

impl core::ops::Div<u32> for Fraction {
    type Output = Fraction;

    fn div(self, div: u32) -> (r: Fraction)
        ensures
            r == Fraction(self.0, (self.1 * div) as u32).reduced(),
    {
        Fraction(self.0, self.1 * div).reduce()
    }
}

impl vstd::std_specs::ops::DivSpecImpl<u32> for Fraction {
    open spec fn obeys_div_spec() -> bool {
        true
    }

    open spec fn div_req(self, div: u32) -> bool {
        self.1 * div <= u32::MAX
    }

    open spec fn div_spec(self, div: u32) -> Fraction {
        Fraction(self.0, (self.1 * div) as u32).reduced()
    }
}

impl core::ops::Mul<u32> for Fraction {
    type Output = Fraction;

    fn mul(self, mul: u32) -> (r: Fraction)
        ensures
            r == Fraction((self.0 * mul) as u32, self.1).reduced(),
    {
        Fraction(self.0 * mul, self.1).reduce()
    }
}

impl vstd::std_specs::ops::MulSpecImpl<u32> for Fraction {
    open spec fn obeys_mul_spec() -> bool {
        true
    }

    open spec fn mul_req(self, mul: u32) -> bool {
        self.0 * mul <= u32::MAX
    }

    open spec fn mul_spec(self, mul: u32) -> Fraction {
        Fraction((self.0 * mul) as u32, self.1).reduced()
    }
}

} // verus!
