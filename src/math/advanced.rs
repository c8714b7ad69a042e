use vstd::prelude::*;

verus! {

/// The greatest common divisor by Euclid's recurrence; `gcd(a, 0) == a`.
pub open spec fn gcd_spec(a: nat, b: nat) -> nat
    decreases b,
{
    if b == 0 {
        a
    } else {
        gcd_spec(b, a % b)
    }
}

proof fn lemma_common_divisor_divides_gcd(a: nat, b: nat, d: nat)
    requires
        d > 0,
        a % d == 0,
        b % d == 0,
    ensures
        gcd_spec(a, b) % d == 0,
    decreases b,
{
    if b != 0 {
        let q = a / b;
        let m = a % b;
        assert(a == q * b + m) by (nonlinear_arith)
            requires b > 0, q == a / b, m == a % b;
        let ad = a / d;
        let bd = b / d;
        assert(a == ad * d) by (nonlinear_arith)
            requires a % d == 0, d > 0, ad == a / d;
        assert(b == bd * d) by (nonlinear_arith)
            requires b % d == 0, d > 0, bd == b / d;
        assert(m == (ad - q * bd) * d) by (nonlinear_arith)
            requires a == q * b + m, a == ad * d, b == bd * d;
        assert(ad - q * bd >= 0) by (nonlinear_arith)
            requires m == (ad - q * bd) * d, m >= 0, d > 0;
        assert(m % d == 0) by (nonlinear_arith)
            requires m == (ad - q * bd) * d, d > 0, ad - q * bd >= 0;
        lemma_common_divisor_divides_gcd(b, m, d);
    }
}

/// The greatest common divisor of `a` and `b`: it divides both, and every
/// common divisor divides it; `gcd(0, 0) == 0`.
pub fn gcd(a: u64, b: u64) -> (r: u64)
    ensures
        r == gcd_spec(a as nat, b as nat),
        r == 0 <==> (a == 0 && b == 0),
        r > 0 ==> a % r == 0 && b % r == 0,
        forall|d: nat| d > 0 && (a as nat) % d == 0 && (b as nat) % d == 0 ==> #[trigger] (r as nat % d) == 0,
{
    proof {
        lemma_gcd_divides(a as nat, b as nat);
        assert forall|d: nat| d > 0 && (a as nat) % d == 0 && (b as nat) % d == 0 implies #[trigger] (gcd_spec(a as nat, b as nat) % d) == 0 by {
            lemma_common_divisor_divides_gcd(a as nat, b as nat, d);
        }
        if a == 0 && b == 0 {
            assert(gcd_spec(0, 0) == 0);
        }
    }
    let mut x = a;
    let mut y = b;
    while y != 0
        invariant
            gcd_spec(x as nat, y as nat) == gcd_spec(a as nat, b as nat),
        decreases y,
    {
        let t = y;
        y = x % y;
        x = t;
    }
    x
}

proof fn lemma_gcd_divides(a: nat, b: nat)
    ensures
        a > 0 || b > 0 ==> gcd_spec(a, b) > 0,
        gcd_spec(a, b) > 0 ==> a % gcd_spec(a, b) == 0 && b % gcd_spec(a, b) == 0,
        gcd_spec(a, b) <= a || b > 0,
    decreases b,
{
    if b != 0 {
        lemma_gcd_divides(b, a % b);
        let g = gcd_spec(b, a % b);
        if g > 0 {
            // a == (a / b) * b + a % b, and g divides both terms.
            let q = a / b;
            let bq = b / g;
            let rq = (a % b) / g;
            assert(a == q * b + a % b) by (nonlinear_arith)
                requires b > 0, q == a / b;
            assert(b == bq * g) by (nonlinear_arith)
                requires b % g == 0, g > 0, bq == b / g;
            assert(a % b == rq * g) by (nonlinear_arith)
                requires (a % b) % g == 0, g > 0, rq == (a % b) / g;
            assert(a == (q * bq + rq) * g) by (nonlinear_arith)
                requires a == q * b + a % b, b == bq * g, a % b == rq * g;
            assert(a % g == 0) by (nonlinear_arith)
                requires a == (q * bq + rq) * g, g > 0, q * bq + rq >= 0;
        }
    }
}

/// The least common multiple of `a` and `b`, where their product fits.
pub fn lcm(a: u64, b: u64) -> (r: u64)
    requires
        a > 0 || b > 0,
        a * b <= u64::MAX,
    ensures
        r == (a * b) / (gcd_spec(a as nat, b as nat) as int),
{
    proof {
        lemma_gcd_divides(a as nat, b as nat);
    }
    let g = gcd(a, b);
    (a * b) / g
}

} // verus!
