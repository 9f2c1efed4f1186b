//! The number theory under Paillier decryption: Bezout's identity,
//! Euclid's lemma, binomial coefficients, Fermat's little theorem, the
//! primality of the two key primes, and Carmichael's identity for their
//! product.

use vstd::prelude::*;
use vstd::arithmetic::div_mod::{
    lemma_add_mod_noop, lemma_fundamental_div_mod, lemma_mod_equivalence, lemma_mod_multiples_basic,
    lemma_mod_twice, lemma_mul_mod_noop_general, lemma_small_mod,
};
use vstd::arithmetic::power::{
    lemma0_pow, lemma1_pow, lemma_pow0, lemma_pow1, lemma_pow_adds, lemma_pow_mod_noop,
    lemma_pow_multiplies, lemma_pow_positive, pow,
};
use crate::kernel::crypto::gcd;

verus! {

/// `p` is a prime number.
pub open spec fn is_prime(p: nat) -> bool {
    p > 1 && forall|d: nat| 1 < d < p ==> #[trigger] (p % d) != 0
}

proof fn lemma_divides_combination(x: int, y: int, k: int, g: int)
    requires
        g > 0,
        x % g == 0,
        y % g == 0,
    ensures
        (k * x + y) % g == 0,
{
    lemma_fundamental_div_mod(x, g);
    lemma_fundamental_div_mod(y, g);
    let w = k * (x / g) + y / g;
    assert(k * x + y == g * w) by (nonlinear_arith)
        requires
            x == g * (x / g),
            y == g * (y / g),
            w == k * (x / g) + y / g,
    ;
    lemma_mod_multiples_basic(w, g);
    assert(w * g == g * w) by (nonlinear_arith);
}

/// The greatest common divisor divides both numbers.
proof fn lemma_gcd_divides(a: nat, b: nat)
    requires
        a > 0 || b > 0,
    ensures
        gcd(a, b) > 0,
        a % gcd(a, b) == 0,
        b % gcd(a, b) == 0,
    decreases b,
{
    if b == 0 {
        lemma_small_mod(0, a);
        vstd::arithmetic::div_mod::lemma_mod_self_0(a as int);
    } else {
        lemma_gcd_divides(b, a % b);
        let g = gcd(a, b) as int;
        let ai = a as int;
        let bi = b as int;
        lemma_fundamental_div_mod(ai, bi);
        assert((a % b) as int == ai % bi);
        lemma_divides_combination(bi, ai % bi, ai / bi, g);
        assert(ai == (ai / bi) * bi + ai % bi) by (nonlinear_arith)
            requires
                ai == bi * (ai / bi) + ai % bi,
        ;
    }
}

/// Bezout's identity: some combination of `a` and `b` is their greatest
/// common divisor.
proof fn lemma_bezout(a: nat, b: nat) -> (st: (int, int))
    ensures
        st.0 * a + st.1 * b == gcd(a, b),
    decreases b,
{
    if b == 0 {
        (1, 0)
    } else {
        let (s, t) = lemma_bezout(b, a % b);
        lemma_fundamental_div_mod(a as int, b as int);
        let q = (a / b) as int;
        assert(t * a + (s - t * q) * b == s * b + t * (a % b)) by (nonlinear_arith)
            requires
                a as int == b * q + (a % b),
        ;
        (t, s - t * q)
    }
}

proof fn lemma_divisor_bound(y: int, d: int)
    requires
        y > 0,
        d > 0,
        y % d == 0,
    ensures
        d <= y,
{
    lemma_fundamental_div_mod(y, d);
    assert(d <= y) by (nonlinear_arith)
        requires
            y == d * (y / d),
            y > 0,
            d > 0,
    ;
}

/// A prime shares no divisor but 1 with a number it does not divide.
proof fn lemma_prime_coprime(p: nat, x: int)
    requires
        is_prime(p),
        x % (p as int) != 0,
    ensures
        gcd(p, (x % (p as int)) as nat) == 1,
{
    let r = (x % (p as int)) as nat;
    lemma_gcd_divides(p, r);
    let g = gcd(p, r);
    if g != 1 {
        if g < p {
            assert(p % g != 0);
        } else {
            lemma_divisor_bound(r as int, g as int);
        }
    }
}

/// Euclid's lemma: a prime dividing a product divides a factor.
pub proof fn lemma_euclid(p: nat, a: int, b: int)
    requires
        is_prime(p),
        a % (p as int) != 0,
        (a * b) % (p as int) == 0,
    ensures
        b % (p as int) == 0,
{
    let pi = p as int;
    let r = (a % pi) as nat;
    lemma_prime_coprime(p, a);
    let (s, t) = lemma_bezout(p, r);
    assert(s * pi + t * r == 1);
    lemma_mul_mod_noop_general(a, b, pi);
    assert(((r as int) * b) % pi == 0);
    lemma_fundamental_div_mod((r as int) * b, pi);
    let k = ((r as int) * b) / pi;
    assert(b == pi * (s * b + t * k)) by (nonlinear_arith)
        requires
            s * pi + t * r == 1,
            (r as int) * b == pi * k + ((r as int) * b) % pi,
            ((r as int) * b) % pi == 0,
    ;
    lemma_mod_multiples_basic(s * b + t * k, pi);
    assert((s * b + t * k) * pi == pi * (s * b + t * k)) by (nonlinear_arith);
}

/// The binomial coefficient, by Pascal's rule.
pub open spec fn binom(n: nat, k: nat) -> nat
    decreases n,
{
    if k == 0 {
        1
    } else if n == 0 {
        0
    } else {
        binom((n - 1) as nat, (k - 1) as nat) + binom((n - 1) as nat, k)
    }
}

proof fn lemma_binom_above(n: nat, k: nat)
    requires
        k > n,
    ensures
        binom(n, k) == 0,
    decreases n,
{
    if n > 0 {
        lemma_binom_above((n - 1) as nat, (k - 1) as nat);
        lemma_binom_above((n - 1) as nat, k);
    }
}

proof fn lemma_binom_diagonal(n: nat)
    ensures
        binom(n, n) == 1,
    decreases n,
{
    if n > 0 {
        lemma_binom_diagonal((n - 1) as nat);
        lemma_binom_above((n - 1) as nat, n);
    }
}

/// The absorption identity: `k C(n, k) = n C(n - 1, k - 1)`.
proof fn lemma_absorption(n: nat, k: nat)
    requires
        n >= 1,
        k >= 1,
    ensures
        k * binom(n, k) == n * binom((n - 1) as nat, (k - 1) as nat),
    decreases n,
{
    if n == 1 {
        assert(binom(0, 0) == 1);
        if k >= 2 {
            lemma_binom_above(0, (k - 1) as nat);
            lemma_binom_above(0, k);
            assert(binom(1, k) == binom(0, (k - 1) as nat) + binom(0, k));
            assert(binom(1, k) == 0);
            assert(binom(0, (k - 1) as nat) == 0);
            assert(k * binom(n, k) == 0) by (nonlinear_arith)
                requires
                    binom(n, k) == 0,
            ;
            assert(n * binom((n - 1) as nat, (k - 1) as nat) == 0) by (nonlinear_arith)
                requires
                    binom((n - 1) as nat, (k - 1) as nat) == 0,
            ;
        } else {
            assert(k == 1);
            assert(binom(1, 1) == binom(0, 0) + binom(0, 1));
            assert(binom(0, 1) == 0);
            assert(binom(n, k) == 1);
            assert(binom((n - 1) as nat, (k - 1) as nat) == 1);
        }
    } else if k == 1 {
        let n1 = (n - 1) as nat;
        lemma_absorption(n1, 1);
        assert(binom(n1, 0) == 1);
        assert(binom(n, 1) == binom(n1, 0) + binom(n1, 1));
        assert(binom((n1 - 1) as nat, 0) == 1);
        assert(1 * binom(n1, 1) == n1 * binom((n1 - 1) as nat, 0));
        assert(binom(n1, 1) == n1) by (nonlinear_arith)
            requires
                1 * binom(n1, 1) == n1 * binom((n1 - 1) as nat, 0),
                binom((n1 - 1) as nat, 0) == 1,
        ;
        assert(binom(n, 1) == n);
        assert(1 * binom(n, 1) == n * binom(n1, 0));
        assert((k - 1) as nat == 0);
        assert(k * binom(n, k) == n * binom(n1, (k - 1) as nat));
    } else {
        let n1 = (n - 1) as nat;
        let k1 = (k - 1) as nat;
        let n2 = (n1 - 1) as nat;
        let k2 = (k1 - 1) as nat;
        lemma_absorption(n1, k);
        lemma_absorption(n1, k1);
        let bnk = binom(n, k);
        let b11 = binom(n1, k1);
        let b1k = binom(n1, k);
        let b22 = binom(n2, k2);
        let b21 = binom(n2, k1);
        assert(bnk == b11 + b1k);
        assert(b11 == b22 + b21);
        assert(k * b1k == n1 * b21);
        assert(k1 * b11 == n1 * b22);
        assert(k * bnk == n * b11) by (nonlinear_arith)
            requires
                bnk == b11 + b1k,
                k * b1k == n1 * b21,
                k1 * b11 == n1 * b22,
                b11 == b22 + b21,
                n1 == n - 1,
                k1 == k - 1,
        ;
        assert(k * binom(n, k) == n * binom((n - 1) as nat, (k - 1) as nat));
    }
}

/// A prime divides every binomial coefficient of its row but the first
/// and the last.
proof fn lemma_prime_divides_binom(p: nat, k: nat)
    requires
        is_prime(p),
        0 < k < p,
    ensures
        (binom(p, k) as int) % (p as int) == 0,
{
    lemma_absorption(p, k);
    let c = binom((p - 1) as nat, (k - 1) as nat) as int;
    lemma_mod_multiples_basic(c, p as int);
    assert((k * binom(p, k)) as int == c * (p as int)) by (nonlinear_arith)
        requires
            k * binom(p, k) == p * c,
    ;
    lemma_small_mod(k, p);
    lemma_euclid(p, k as int, binom(p, k) as int);
}

/// The first `j` terms of the binomial expansion of `(x + 1)^n`.
pub open spec fn binomial_sum(x: int, n: nat, j: nat) -> int
    decreases j,
{
    if j == 0 {
        0
    } else {
        binomial_sum(x, n, (j - 1) as nat) + binom(n, (j - 1) as nat) * pow(x, (j - 1) as nat)
    }
}

proof fn lemma_binomial_sum_step(x: int, n: nat, j: nat)
    ensures
        binomial_sum(x, n + 1, j + 1) == binomial_sum(x, n, j + 1) + x * binomial_sum(x, n, j),
    decreases j,
{
    if j == 0 {
        lemma_pow0(x);
        assert(binom(n + 1, 0) == 1);
        assert(binom(n, 0) == 1);
        assert(binomial_sum(x, n + 1, 0) == 0);
        assert(binomial_sum(x, n, 0) == 0);
        assert(binomial_sum(x, n + 1, 1) == 1);
        assert(binomial_sum(x, n, 1) == 1);
        assert(x * binomial_sum(x, n, 0) == 0);
    } else {
        let j1 = (j - 1) as nat;
        lemma_binomial_sum_step(x, n, j1);
        assert(j1 + 1 == j);
        lemma_pow1(x);
        lemma_pow_adds(x, 1, j1);
        let pj = pow(x, j);
        let pj1 = pow(x, j1);
        assert(pj == x * pj1);
        let cn1j = binom(n + 1, j);
        let cnj1 = binom(n, j1);
        let cnj = binom(n, j);
        assert(cn1j == cnj1 + cnj);
        let a = binomial_sum(x, n, j);
        let b = binomial_sum(x, n, j1);
        let big = binomial_sum(x, n + 1, j + 1);
        let mid = binomial_sum(x, n + 1, j);
        let top = binomial_sum(x, n, j + 1);
        assert(a == b + cnj1 * pj1);
        assert(big == mid + cn1j * pj);
        assert(mid == a + x * b);
        assert(top == a + cnj * pj);
        assert(big == top + x * a) by (nonlinear_arith)
            requires
                big == mid + cn1j * pj,
                mid == a + x * b,
                cn1j == cnj1 + cnj,
                pj == x * pj1,
                a == b + cnj1 * pj1,
                top == a + cnj * pj,
        ;
    }
}

/// The binomial theorem for `(x + 1)^n`.
proof fn lemma_binomial(x: int, n: nat)
    ensures
        pow(x + 1, n) == binomial_sum(x, n, n + 1),
    decreases n,
{
    if n == 0 {
        lemma_pow0(x + 1);
        lemma_pow0(x);
        assert(binom(0, 0) == 1);
        assert(binomial_sum(x, 0, 0) == 0);
        assert(binomial_sum(x, 0, 1) == binomial_sum(x, 0, 0) + binom(0, 0) * pow(x, 0));
        assert(binomial_sum(x, 0, 1) == 1);
    } else {
        let n1 = (n - 1) as nat;
        lemma_binomial(x, n1);
        assert(n1 + 1 == n);
        lemma_binomial_sum_step(x, n1, n);
        lemma_binom_above(n1, n);
        let s0 = binomial_sum(x, n1, n);
        assert(binomial_sum(x, n1, n + 1) == s0 + binom(n1, n) * pow(x, n));
        assert(binomial_sum(x, n1, n + 1) == s0);
        lemma_pow1(x + 1);
        lemma_pow_adds(x + 1, 1, n1);
        let pn = pow(x + 1, n);
        let pn1 = pow(x + 1, n1);
        assert(pn == (x + 1) * pn1);
        assert(pn1 == s0);
        assert(binomial_sum(x, n, n + 1) == s0 + x * s0);
        assert(pn == s0 + x * s0) by (nonlinear_arith)
            requires
                pn == (x + 1) * pn1,
                pn1 == s0,
        ;
    }
}

proof fn lemma_inner_terms(x: int, p: nat, j: nat)
    requires
        is_prime(p),
        1 <= j <= p,
    ensures
        binomial_sum(x, p, j) % (p as int) == 1,
    decreases j,
{
    let pi = p as int;
    if j == 1 {
        lemma_pow0(x);
        assert(binomial_sum(x, p, 0) == 0);
        lemma_small_mod(1, p);
    } else {
        let j1 = (j - 1) as nat;
        lemma_inner_terms(x, p, j1);
        lemma_prime_divides_binom(p, j1);
        let c = binom(p, j1) as int;
        lemma_mul_mod_noop_general(c, pow(x, j1), pi);
        assert(c % pi == 0);
        assert((c % pi) * pow(x, j1) == 0);
        lemma_small_mod(0, p);
        assert((c * pow(x, j1)) % pi == 0);
        lemma_add_mod_noop(binomial_sum(x, p, j1), binom(p, j1) * pow(x, j1), pi);
        lemma_small_mod(1, p);
    }
}

/// `(x + 1)^p` is `x^p + 1` modulo a prime `p`.
proof fn lemma_freshman(x: int, p: nat)
    requires
        is_prime(p),
    ensures
        pow(x + 1, p) % (p as int) == (pow(x, p) + 1) % (p as int),
{
    let pi = p as int;
    lemma_binomial(x, p);
    lemma_inner_terms(x, p, p);
    lemma_binom_diagonal(p);
    assert(binomial_sum(x, p, p + 1) == binomial_sum(x, p, p) + pow(x, p));
    lemma_add_mod_noop(binomial_sum(x, p, p), pow(x, p), pi);
    lemma_add_mod_noop(1, pow(x, p), pi);
    lemma_small_mod(1, p);
}

/// `x^p` is `x` modulo a prime `p`.
proof fn lemma_fermat_pow(x: nat, p: nat)
    requires
        is_prime(p),
    ensures
        pow(x as int, p) % (p as int) == (x as int) % (p as int),
    decreases x,
{
    let pi = p as int;
    if x == 0 {
        lemma0_pow(p);
    } else {
        let x1 = (x - 1) as nat;
        lemma_fermat_pow(x1, p);
        lemma_freshman(x1 as int, p);
        lemma_add_mod_noop(pow(x1 as int, p), 1, pi);
        lemma_add_mod_noop(x1 as int, 1, pi);
    }
}

/// Fermat's little theorem.
pub proof fn lemma_fermat(x: nat, p: nat)
    requires
        is_prime(p),
        (x as int) % (p as int) != 0,
    ensures
        pow(x as int, (p - 1) as nat) % (p as int) == 1,
{
    let pi = p as int;
    let xi = x as int;
    let e = (p - 1) as nat;
    lemma_fermat_pow(x, p);
    lemma_pow1(xi);
    lemma_pow_adds(xi, 1, e);
    assert(pow(xi, p) == xi * pow(xi, e));
    lemma_mod_equivalence(pow(xi, p), xi, pi);
    assert((xi * (pow(xi, e) - 1)) % pi == 0) by {
        assert(xi * (pow(xi, e) - 1) == pow(xi, p) - xi) by (nonlinear_arith)
            requires
                pow(xi, p) == xi * pow(xi, e),
        ;
    }
    lemma_euclid(p, xi, pow(xi, e) - 1);
    lemma_mod_equivalence(pow(xi, e), 1, pi);
    lemma_small_mod(1, p);
}

/// No factorisation `a b` of the first key prime has `1 < a < 2^15` and
/// `b < 2^30`.
#[verifier::rlimit(100)]
proof fn lemma_p_has_no_small_factor()
    ensures
        forall|a: u64, b: u64| 1 < a < 0x8000 && b < 0x4000_0000 ==> #[trigger] (a * b) != 1000000007u64,
{
    assert(forall|a: u64, b: u64| 1 < a < 0x8000 && b < 0x4000_0000 ==> #[trigger] (a * b) != 1000000007u64) by (bit_vector);
}

/// No factorisation `a b` of the second key prime has `1 < a < 2^15` and
/// `b < 2^30`.
#[verifier::rlimit(100)]
proof fn lemma_q_has_no_small_factor()
    ensures
        forall|a: u64, b: u64| 1 < a < 0x8000 && b < 0x4000_0000 ==> #[trigger] (a * b) != 1000000009u64,
{
    assert(forall|a: u64, b: u64| 1 < a < 0x8000 && b < 0x4000_0000 ==> #[trigger] (a * b) != 1000000009u64) by (bit_vector);
}

/// A number below 2^30 with no factorisation into a small and a large
/// factor is prime.
proof fn lemma_prime_from_factor_bound(p: nat)
    requires
        1 < p < 0x4000_0000,
        forall|a: u64, b: u64| 1 < a < 0x8000 && b < 0x4000_0000 ==> #[trigger] (a * b) != p,
    ensures
        is_prime(p),
{
    assert forall|d: nat| 1 < d < p implies #[trigger] (p % d) != 0 by {
        if p % d == 0 {
            lemma_fundamental_div_mod(p as int, d as int);
            let e = p / d;
            assert(p == d * e);
            assert(e > 1) by (nonlinear_arith)
                requires
                    p == d * e,
                    d < p,
                    d > 1,
            ;
            let (a, b) = if d <= e { (d, e) } else { (e, d) };
            assert(a * b == p) by (nonlinear_arith)
                requires
                    p == d * e,
                    (a == d && b == e) || (a == e && b == d),
            ;
            assert(a < 0x8000) by (nonlinear_arith)
                requires
                    a * b == p,
                    a <= b,
                    p < 0x4000_0000,
                    a > 1,
            ;
            assert(b < 0x4000_0000) by (nonlinear_arith)
                requires
                    a * b == p,
                    a > 1,
                    p < 0x4000_0000,
            ;
            assert((a as u64) * (b as u64) != p);
        }
    }
}

/// The two key primes are prime.
pub proof fn lemma_key_primes()
    ensures
        is_prime(1000000007),
        is_prime(1000000009),
{
    lemma_p_has_no_small_factor();
    lemma_q_has_no_small_factor();
    lemma_prime_from_factor_bound(1000000007);
    lemma_prime_from_factor_bound(1000000009);
}

/// A number both key primes divide, their product divides.
proof fn lemma_both_primes_divide(x: int)
    requires
        x % 1000000007 == 0,
        x % 1000000009 == 0,
    ensures
        x % 1000000016000000063 == 0,
{
    lemma_key_primes();
    lemma_fundamental_div_mod(x, 1000000007);
    let a = x / 1000000007;
    assert(x == 1000000007 * a);
    lemma_small_mod(1000000007, 1000000009);
    lemma_euclid(1000000009, 1000000007, a);
    lemma_fundamental_div_mod(a, 1000000009);
    let c = a / 1000000009;
    assert(x == 1000000016000000063 * c) by (nonlinear_arith)
        requires
            x == 1000000007 * a,
            a == 1000000009 * c + a % 1000000009,
            a % 1000000009 == 0,
    ;
    lemma_mod_multiples_basic(c, 1000000016000000063);
    assert(c * 1000000016000000063 == 1000000016000000063 * c) by (nonlinear_arith);
}

/// `r^lambda` is 1 modulo the product of a key prime's `p - 1`-th power
/// rule: for `r` coprime to both primes, `r^lambda` is 1 modulo `n`.
proof fn lemma_unit_pow_lambda(r: nat)
    requires
        (r as int) % 1000000007 != 0,
        (r as int) % 1000000009 != 0,
    ensures
        pow(r as int, 500000007000000024) % 1000000016000000063 == 1,
{
    lemma_key_primes();
    let ri = r as int;
    let lam: nat = 500000007000000024;
    // Modulo the first prime.
    lemma_fermat(r, 1000000007);
    lemma_pow_multiplies(ri, 1000000006, 500000004);
    assert(1000000006 * 500000004 == lam);
    lemma_pow_mod_noop(pow(ri, 1000000006), 500000004, 1000000007);
    lemma1_pow(500000004);
    assert(pow(ri, lam) % 1000000007 == 1);
    // Modulo the second prime.
    lemma_fermat(r, 1000000009);
    lemma_pow_multiplies(ri, 1000000008, 500000003);
    assert(1000000008 * 500000003 == lam);
    lemma_pow_mod_noop(pow(ri, 1000000008), 500000003, 1000000009);
    lemma1_pow(500000003);
    assert(pow(ri, lam) % 1000000009 == 1);
    // Together.
    lemma_mod_equivalence(pow(ri, lam), 1, 1000000007);
    lemma_mod_equivalence(pow(ri, lam), 1, 1000000009);
    lemma_both_primes_divide(pow(ri, lam) - 1);
    lemma_mod_equivalence(pow(ri, lam), 1, 1000000016000000063);
    lemma_small_mod(1, 1000000016000000063);
}

/// Carmichael's identity for the key modulus: for `r` coprime to both
/// primes, `r^(n lambda)` is 1 modulo `n^2`.
pub proof fn lemma_unit_pow_n_lambda(r: nat)
    requires
        (r as int) % 1000000007 != 0,
        (r as int) % 1000000009 != 0,
    ensures
        pow(r as int, (1000000016000000063 * 500000007000000024) as nat) % (1000000016000000063int
            * 1000000016000000063int) == 1,
{
    let n: int = 1000000016000000063;
    let lam: nat = 500000007000000024;
    let ri = r as int;
    lemma_unit_pow_lambda(r);
    assert(r > 0);
    lemma_pow_positive(ri, lam);
    lemma_fundamental_div_mod(pow(ri, lam), n);
    let t = pow(ri, lam) / n;
    assert(pow(ri, lam) == 1 + t * n);
    lemma_pow_multiplies(ri, lam, n as nat);
    assert(lam * (n as nat) == (n * lam) as nat);
    crate::kernel::crypto::lemma_one_plus_multiple_pow(t, n, n as nat);
    let n2 = n * n;
    assert(1 + n * t * n == 1 + t * n2) by (nonlinear_arith)
        requires
            n2 == n * n,
    ;
    vstd::arithmetic::div_mod::lemma_mod_multiples_vanish(t, 1, n2);
    assert(t * n2 == n2 * t) by (nonlinear_arith);
    lemma_small_mod(1, n2 as nat);
}

} // verus!
