use vstd::prelude::*;

verus! {

/// Whether `n` is even.
pub fn is_even(n: i64) -> (r: bool)
    ensures
        r == (n % 2 == 0),
{
    n % 2 == 0
}

/// Whether `n` is odd.
pub fn is_odd(n: i64) -> (r: bool)
    ensures
        r == (n % 2 != 0),
{
    n % 2 != 0
}

/// The absolute value of `n`; `i64::MIN` has none in range.
pub fn abs(n: i64) -> (r: i64)
    requires
        n != i64::MIN,
    ensures
        r == if n < 0 { -n } else { n as int },
{
    if n < 0 {
        -n
    } else {
        n
    }
}

pub open spec fn factorial_spec(n: nat) -> nat
    decreases n,
{
    if n <= 1 {
        1
    } else {
        n * factorial_spec((n - 1) as nat)
    }
}

proof fn lemma_factorial_grows(n: nat)
    requires
        n >= 1,
    ensures
        factorial_spec((n - 1) as nat) <= factorial_spec(n),
        factorial_spec(n) >= 1,
    decreases n,
{
    if n > 1 {
        lemma_factorial_grows((n - 1) as nat);
        let f = factorial_spec((n - 1) as nat);
        assert(f <= n * f) by (nonlinear_arith)
            requires n >= 1, f >= 1;
    }
}

/// `n!`, where it fits in a `u64`.
pub fn factorial(n: u64) -> (r: u64)
    requires
        factorial_spec(n as nat) <= u64::MAX,
    ensures
        r == factorial_spec(n as nat),
    decreases n,
{
    if n <= 1 {
        1
    } else {
        proof {
            lemma_factorial_grows(n as nat);
        }
        let f = factorial(n - 1);
        n * f
    }
}

pub open spec fn pow_spec(base: int, exponent: nat) -> int
    decreases exponent,
{
    if exponent == 0 {
        1
    } else {
        base * pow_spec(base, (exponent - 1) as nat)
    }
}

pub open spec fn abs_int(x: int) -> int {
    if x < 0 {
        -x
    } else {
        x
    }
}

proof fn lemma_pow_abs(base: int, k: nat)
    ensures
        abs_int(pow_spec(base, k + 1)) == abs_int(base) * abs_int(pow_spec(base, k)),
{
    let p = pow_spec(base, k);
    assert(abs_int(base * p) == abs_int(base) * abs_int(p)) by (nonlinear_arith);
}

proof fn lemma_pow_abs_grows(base: int, k: nat, e: nat)
    requires
        k <= e,
        base != 0,
    ensures
        abs_int(pow_spec(base, k)) <= abs_int(pow_spec(base, e)),
    decreases e - k,
{
    if k < e {
        lemma_pow_abs_grows(base, k, (e - 1) as nat);
        lemma_pow_abs(base, (e - 1) as nat);
        let p = abs_int(pow_spec(base, (e - 1) as nat));
        assert(p <= abs_int(base) * p) by (nonlinear_arith)
            requires abs_int(base) >= 1, p >= 0;
    }
}

/// `base` raised to `exponent`, where the result fits in an `i64`.
pub fn pow(base: i64, exponent: u32) -> (r: i64)
    requires
        i64::MIN <= pow_spec(base as int, exponent as nat) <= i64::MAX,
    ensures
        r == pow_spec(base as int, exponent as nat),
{
    if base == 0 {
        if exponent == 0 {
            return 1;
        }
        proof {
            assert(pow_spec(0, exponent as nat) == 0 * pow_spec(0, (exponent - 1) as nat));
        }
        return 0;
    }
    let mut acc: i128 = 1;
    let mut k: u32 = 0;
    while k < exponent
        invariant
            base != 0,
            k <= exponent,
            acc == pow_spec(base as int, k as nat),
            i64::MIN <= pow_spec(base as int, exponent as nat) <= i64::MAX,
        decreases exponent - k,
    {
        proof {
            lemma_pow_abs_grows(base as int, (k + 1) as nat, exponent as nat);
            lemma_pow_abs(base as int, k as nat);
            let b = base as int;
            let a = acc as int;
            assert(pow_spec(b, (k + 1) as nat) == b * pow_spec(b, k as nat));
            assert(a * b == b * a) by (nonlinear_arith);
            assert(abs_int(a * b) <= 0x8000_0000_0000_0000);
        }
        acc = acc * (base as i128);
        k = k + 1;
    }
    acc as i64
}

/// `n` is prime: at least 2, with no divisor strictly between 1 and itself.
pub open spec fn is_prime_spec(n: int) -> bool {
    n >= 2 && forall|d: int| 2 <= d < n ==> #[trigger] (n % d) != 0
}

proof fn lemma_even_not_divisor(n: int, d: int)
    requires
        n % 2 == 1,
        d > 0,
        d % 2 == 0,
    ensures
        n % d != 0,
{
    if n % d == 0 {
        let q = n / d;
        let h = d / 2;
        assert(n == d * q) by (nonlinear_arith)
            requires n % d == 0, d > 0, q == n / d;
        assert(d == 2 * h) by (nonlinear_arith)
            requires d % 2 == 0, h == d / 2;
        assert(n == 2 * (h * q)) by (nonlinear_arith)
            requires n == d * q, d == 2 * h;
        assert(n % 2 == 0) by (nonlinear_arith)
            requires n == 2 * (h * q);
    }
}

proof fn lemma_no_divisor_above_root(n: int, i: int)
    requires
        i >= 2,
        i * i > n,
        n >= 2,
        forall|d: int| 2 <= d < i ==> #[trigger] (n % d) != 0,
    ensures
        is_prime_spec(n),
{
    assert forall|d: int| 2 <= d < n implies #[trigger] (n % d) != 0 by {
        if d >= i && n % d == 0 {
            let q = n / d;
            assert(n == d * q) by (nonlinear_arith)
                requires n % d == 0, d > 0, q == n / d;
            assert(q >= 2) by (nonlinear_arith)
                requires n == d * q, d < n, d > 0, n > 0;
            if q < i {
                assert(n % q == 0) by (nonlinear_arith)
                    requires n == d * q, q > 0;
                assert(n % q != 0);
            } else {
                assert(d * q >= i * i) by (nonlinear_arith)
                    requires d >= i, q >= i, i >= 0;
            }
        }
    }
}

/// Whether `n` is prime.
pub fn is_prime(n: u64) -> (r: bool)
    ensures
        r == is_prime_spec(n as int),
{
    if n < 2 {
        return false;
    }
    if n == 2 {
        return true;
    }
    if n % 2 == 0 {
        assert(((n as int) % 2) == 0);
        return false;
    }
    let mut i: u64 = 3;
    while i <= n / i
        invariant
            3 <= i <= n,
            i % 2 == 1,
            n % 2 == 1,
            n >= 3,
            forall|d: int| 2 <= d < i ==> #[trigger] ((n as int) % d) != 0,
        decreases n - i,
    {
        assert(i * i <= n) by (nonlinear_arith)
            requires i <= n / i, i > 0;
        if n % i == 0 {
            assert(i < n) by (nonlinear_arith)
                requires i * i <= n, i >= 3;
            assert(((n as int) % (i as int)) == 0);
            return false;
        }
        proof {
            lemma_even_not_divisor(n as int, i + 1);
        }
        assert(i + 2 <= n) by (nonlinear_arith)
            requires i * i <= n, i >= 3;
        i = i + 2;
    }
    proof {
        assert(i * i > n) by (nonlinear_arith)
            requires i > n / i, i > 0;
        lemma_no_divisor_above_root(n as int, i as int);
    }
    true
}

/// The least prime above `n`, where one fits in a `u64`.
pub fn next_prime(n: u64) -> (r: u64)
    requires
        exists|p: int| n < p <= u64::MAX && is_prime_spec(p),
    ensures
        n < r,
        is_prime_spec(r as int),
        forall|m: int| n < m < r ==> !is_prime_spec(m),
{
    if n < 2 {
        assert(is_prime_spec(2));
        return 2;
    }
    if n == 2 {
        assert forall|d: int| 2 <= d < 3 implies #[trigger] (3int % d) != 0 by {
            assert(d == 2);
        }
        return 3;
    }
    let ghost p = choose|p: int| n < p <= u64::MAX && is_prime_spec(p);
    assert(p % 2 != 0) by {
        if p % 2 == 0 {
            assert(!is_prime_spec(p));
        }
    }
    let mut c: u64 = if n % 2 == 0 {
        n + 1
    } else {
        let ghost m = n as int + 1;
        assert(m % 2 == 0);
        assert(!is_prime_spec(m));
        n + 2
    };
    while !is_prime(c)
        invariant
            n >= 3,
            n < c <= p,
            c % 2 == 1,
            p % 2 == 1,
            p <= u64::MAX,
            is_prime_spec(p),
            forall|m: int| n < m < c ==> !is_prime_spec(m),
        decreases p - c,
    {
        let ghost m = c as int + 1;
        assert(m % 2 == 0);
        assert(!is_prime_spec(m));
        c = c + 2;
    }
    c
}

/// The number of decimal digits of `n`; zero has one.
pub open spec fn digits_spec(n: nat) -> nat
    decreases n,
{
    if n < 10 {
        1
    } else {
        1 + digits_spec(n / 10)
    }
}

pub open spec fn pow10(k: nat) -> nat
    decreases k,
{
    if k == 0 {
        1
    } else {
        10 * pow10((k - 1) as nat)
    }
}

proof fn lemma_digits_bound(n: nat, k: nat)
    requires
        k >= 1,
        n < pow10(k),
    ensures
        digits_spec(n) <= k,
    decreases k,
{
    if n >= 10 {
        assert(k >= 2) by {
            if k == 1 {
                assert(pow10(1) == 10 * pow10(0));
            }
        }
        assert(n / 10 < pow10((k - 1) as nat)) by (nonlinear_arith)
            requires n < 10 * pow10((k - 1) as nat);
        lemma_digits_bound(n / 10, (k - 1) as nat);
    }
}

/// How many decimal digits `n` has.
pub fn digit_count(n: u64) -> (r: u32)
    ensures
        r == digits_spec(n as nat),
{
    if n == 0 {
        return 1;
    }
    proof {
        reveal_with_fuel(pow10, 21);
        assert(pow10(20) == 100000000000000000000nat);
        lemma_digits_bound(n as nat, 20);
    }
    let ghost total = digits_spec(n as nat);
    let mut m = n;
    let mut count: u32 = 0;
    while m > 0
        invariant
            total == digits_spec(n as nat),
            total <= 20,
            m > 0 ==> count + digits_spec(m as nat) == total,
            m == 0 ==> count == total,
        decreases m,
    {
        count = count + 1;
        m = m / 10;
    }
    count
}

} // verus!
