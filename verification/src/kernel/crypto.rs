//! Paillier encryption, additively homomorphic: the product of two
//! ciphertexts encrypts the sum of their plaintexts. Keys are built from
//! two fixed primes near one billion, so the modulus and its square fit in
//! 128-bit integers; all modular arithmetic here is exact on them.

use vstd::prelude::*;
use rand::{Rng, SeedableRng};
use vstd::arithmetic::div_mod::{
    lemma_add_mod_noop, lemma_fundamental_div_mod, lemma_mod_equivalence, lemma_mod_twice,
    lemma_mul_mod_noop_general, lemma_small_mod,
};
use vstd::arithmetic::power::{
    lemma_pow0, lemma_pow1, lemma_pow_adds, lemma_pow_distributes, lemma_pow_mod_noop,
    lemma_pow_multiplies, lemma_square_is_pow2, pow,
};

verus! {

/// The first prime of the generated keys.
pub const PRIME_P: u128 = 1000000007;

/// The second prime of the generated keys.
pub const PRIME_Q: u128 = 1000000009;

/// The largest modulus square the arithmetic here works with, 2^120.
pub const MAX_MODULUS: u128 = 0x0100_0000_0000_0000_0000_0000_0000_0000;

#[derive(Debug, Clone, Copy)]
pub struct PublicKey {
    pub n: u128,
    pub n_sq: u128,
    pub g: u128,
}

#[derive(Debug, Clone, Copy)]
pub struct PrivateKey {
    pub lambda: u128,
    pub mu: u128,
}

#[derive(Debug, Clone, Copy)]
pub struct Keypair {
    pub public: PublicKey,
    pub private: PrivateKey,
}

pub struct PaillierFHE;

/// A public key this module computes with: the modulus is above one and
/// below 2^60, and `n_sq` is its square.
pub open spec fn key_fits(pk: PublicKey) -> bool {
    1 < pk.n < 0x1000_0000_0000_0000 && pk.n_sq == pk.n * pk.n
}

/// The encryption of `m` with the random factor `r`: `g^m * r^n mod n^2`.
pub open spec fn encryption(pk: PublicKey, m: nat, r: nat) -> int {
    (pow(pk.g as int, m) * pow(r as int, pk.n as nat)) % (pk.n_sq as int)
}

/// The homomorphic sum of two ciphertexts: their product mod `n^2`.
pub open spec fn cipher_sum(pk: PublicKey, c1: nat, c2: nat) -> int {
    ((c1 * c2) as int) % (pk.n_sq as int)
}

/// The decryption of `c`: `L(c^lambda mod n^2) * mu mod n`, where
/// `L(u) = (u - 1) / n` rounds towards zero (so `L(0)` is 0).
pub open spec fn decryption(pk: PublicKey, sk: PrivateKey, c: nat) -> int {
    let u = pow(c as int, sk.lambda as nat) % (pk.n_sq as int);
    let l = if u == 0 { 0 } else { (u - 1) / (pk.n as int) };
    (l * sk.mu) % (pk.n as int)
}

/// The greatest common divisor, by Euclid's rule.
pub open spec fn gcd(a: nat, b: nat) -> nat
    decreases b,
{
    if b == 0 {
        a
    } else {
        gcd(b, a % b)
    }
}

/// The key the generator builds from its two primes: `n = p q`,
/// `g = n + 1`, `lambda = lcm(p - 1, q - 1)`, and `mu` the inverse of
/// `L(g^lambda mod n^2)` mod `n`, or 1 where there is none.
pub open spec fn generated_key(kp: Keypair) -> bool {
    let p = PRIME_P as int;
    let q = PRIME_Q as int;
    let n = p * q;
    let lambda = (p - 1) * (q - 1) / (gcd((p - 1) as nat, (q - 1) as nat) as int);
    let u = pow(n + 1, lambda as nat) % (n * n);
    let l = if u == 0 { 0 } else { (u - 1) / n };
    &&& kp.public.n == n
    &&& kp.public.n_sq == n * n
    &&& kp.public.g == n + 1
    &&& kp.private.lambda == lambda
    &&& if gcd(n as nat, l as nat) == 1 {
        kp.private.mu < n && (l * kp.private.mu) % n == 1
    } else {
        kp.private.mu == 1
    }
}

proof fn lemma_mulmod_step(a: int, b: int, h: int, m: int)
    requires
        m > 0,
    ensures
        (a % m + (b % m) * h) % m == (a + b * h) % m,
{
    lemma_add_mod_noop(a % m, (b % m) * h, m);
    lemma_mod_twice(a, m);
    lemma_mul_mod_noop_general(b, h, m);
    lemma_add_mod_noop(a, b * h, m);
}

/// `(a * b) mod m`, by doubling and adding so no step leaves 2^121.
fn mulmod(a: u128, b: u128, m: u128) -> (r: u128)
    requires
        0 < m <= MAX_MODULUS,
        a < m,
        b < m,
    ensures
        r == (a * b) % (m as int),
{
    let mut result: u128 = 0;
    let mut x: u128 = a;
    let mut y: u128 = b;
    proof {
        lemma_small_mod(0, m as nat);
    }
    while y > 0
        invariant
            0 < m <= MAX_MODULUS,
            x < m,
            result < m,
            (result + x * y) % (m as int) == (a * b) % (m as int),
        decreases y,
    {
        let bit: u128 = y % 2;
        let h: u128 = y / 2;
        let ghost big_a = result + bit * x;
        let ghost big_b = 2 * x;
        assert(x * y == big_b * h + bit * x) by (nonlinear_arith)
            requires
                y == 2 * h + bit,
                big_b == 2 * x,
        ;
        if bit == 1 {
            result = (result + x) % m;
        } else {
            proof {
                lemma_small_mod(result as nat, m as nat);
            }
        }
        x = (x + x) % m;
        y = h;
        proof {
            lemma_mulmod_step(big_a, big_b, h as int, m as int);
        }
    }
    proof {
        lemma_small_mod(result as nat, m as nat);
        assert(x * y == 0);
    }
    result
}

proof fn lemma_modpow_step(result: int, base: int, k: nat, m: int)
    requires
        m > 0,
        0 <= result < m,
    ensures
        ((if k % 2 == 1 { (result * base) % m } else { result }) * pow((base * base) % m, k / 2)) % m
            == (result * pow(base, k)) % m,
{
    let h = k / 2;
    let bit = k % 2;
    let r2 = if bit == 1 { result * base } else { result };
    lemma_small_mod(result as nat, m as nat);
    assert((if bit == 1 { (result * base) % m } else { result }) == r2 % m);
    lemma_pow_mod_noop(base * base, h, m);
    lemma_mul_mod_noop_general(r2, pow(base * base, h), m);
    lemma_mul_mod_noop_general(r2, pow((base * base) % m, h), m);
    lemma_square_is_pow2(base);
    lemma_pow_multiplies(base, 2, h);
    lemma_pow_adds(base, 2 * h, bit);
    assert(k == 2 * h + bit);
    if bit == 1 {
        lemma_pow1(base);
        assert(pow(base, k) == pow(base, 2 * h) * base);
        assert(r2 * pow(base * base, h) == result * pow(base, k)) by (nonlinear_arith)
            requires
                r2 == result * base,
                pow(base, k) == pow(base, 2 * h) * base,
                pow(base, 2 * h) == pow(base * base, h),
        ;
    } else {
        lemma_pow0(base);
        assert(pow(base, k) == pow(base, 2 * h));
    }
}

/// `b^e mod m`, by squaring and multiplying.
fn modpow(b: u128, e: u128, m: u128) -> (r: u128)
    requires
        1 < m <= MAX_MODULUS,
    ensures
        r == pow(b as int, e as nat) % (m as int),
{
    let mut result: u128 = 1;
    let mut base: u128 = b % m;
    let mut k: u128 = e;
    proof {
        lemma_pow_mod_noop(b as int, e as nat, m as int);
    }
    while k > 0
        invariant
            1 < m <= MAX_MODULUS,
            result < m,
            base < m,
            (result * pow(base as int, k as nat)) % (m as int) == pow(b as int, e as nat) % (m as int),
        decreases k,
    {
        proof {
            lemma_modpow_step(result as int, base as int, k as nat, m as int);
        }
        if k % 2 == 1 {
            result = mulmod(result, base, m);
        }
        base = mulmod(base, base, m);
        k = k / 2;
    }
    proof {
        lemma_pow0(base as int);
        lemma_small_mod(result as nat, m as nat);
    }
    result
}

/// The greatest common divisor of `a` and `b`.
fn gcd_of(a: u128, b: u128) -> (r: u128)
    ensures
        r == gcd(a as nat, b as nat),
{
    let mut x = a;
    let mut y = b;
    while y != 0
        invariant
            gcd(x as nat, y as nat) == gcd(a as nat, b as nat),
        decreases y,
    {
        let t = x % y;
        x = y;
        y = t;
    }
    x
}

proof fn lemma_gcd_positive(a: nat, b: nat)
    requires
        a > 0 || b > 0,
    ensures
        gcd(a, b) > 0,
    decreases b,
{
    if b > 0 {
        lemma_gcd_positive(b, a % b);
    }
}

proof fn lemma_inverse_step(t: int, newt: int, r: int, newr: int, q: int, a: int, n: int)
    requires
        n > 0,
        (t * a) % n == r % n,
        (newt * a) % n == newr % n,
    ensures
        (((t + n - (q * newt) % n) % n) * a) % n == (r - q * newr) % n,
{
    let p = q * newt;
    let mm = p % n;
    let f = p / n;
    let x = t + n - mm;
    lemma_mul_mod_noop_general(x, a, n);
    lemma_fundamental_div_mod(p, n);
    lemma_mod_equivalence(t * a, r, n);
    lemma_mod_equivalence(newt * a, newr, n);
    lemma_fundamental_div_mod(t * a - r, n);
    lemma_fundamental_div_mod(newt * a - newr, n);
    let k1 = (t * a - r) / n;
    let k2 = (newt * a - newr) / n;
    assert(t * a == n * k1 + r);
    assert(newt * a == n * k2 + newr);
    assert(p == n * f + mm);
    assert(x * a == t * a + n * a - mm * a) by (nonlinear_arith)
        requires
            x == t + n - mm,
    ;
    assert(mm * a == p * a - n * f * a) by (nonlinear_arith)
        requires
            p == n * f + mm,
    ;
    assert(p * a == q * (newt * a)) by (nonlinear_arith)
        requires
            p == q * newt,
    ;
    assert(q * (newt * a) == n * (q * k2) + q * newr) by (nonlinear_arith)
        requires
            newt * a == n * k2 + newr,
    ;
    assert(n * f * a == n * (f * a)) by (nonlinear_arith);
    let w = k1 + a - q * k2 + f * a;
    assert(n * k1 + n * a - n * (q * k2) + n * (f * a) == n * w) by (nonlinear_arith)
        requires
            w == k1 + a - q * k2 + f * a,
    ;
    assert(x * a - (r - q * newr) == n * w);
    vstd::arithmetic::div_mod::lemma_mod_multiples_basic(w, n);
    assert(n * w == w * n) by (nonlinear_arith);
    lemma_mod_equivalence(x * a, r - q * newr, n);
}

/// The inverse of `a` mod `n`, where `a` and `n` have no common divisor
/// but 1.
fn mod_inverse(a: u128, n: u128) -> (r: Option<u128>)
    requires
        1 < n < 0x1_0000_0000_0000_0000,
        a < n,
    ensures
        match r {
            Some(t) => gcd(n as nat, a as nat) == 1 && t < n && (a * t) % (n as int) == 1,
            None => gcd(n as nat, a as nat) != 1,
        },
{
    let mut t: u128 = 0;
    let mut newt: u128 = 1;
    let mut r: u128 = n;
    let mut newr: u128 = a;
    proof {
        lemma_small_mod(a as nat, n as nat);
        lemma_small_mod(0, n as nat);
        lemma_small_mod(n as nat, n as nat + 1);
        vstd::arithmetic::div_mod::lemma_mod_self_0(n as int);
    }
    while newr != 0
        invariant
            1 < n < 0x1_0000_0000_0000_0000,
            a < n,
            t < n,
            newt < n,
            r <= n,
            newr < n,
            (t * a) % (n as int) == (r as int) % (n as int),
            (newt * a) % (n as int) == (newr as int) % (n as int),
            gcd(r as nat, newr as nat) == gcd(n as nat, a as nat),
        decreases newr,
    {
        let q = r / newr;
        assert(q * newr <= r) by (nonlinear_arith)
            requires
                q == r / newr,
                newr > 0,
        ;
        assert(q <= r) by (nonlinear_arith)
            requires
                q == r / newr,
                newr > 0,
        ;
        assert(q * newt < 0x1_0000_0000_0000_0000 * 0x1_0000_0000_0000_0000) by (nonlinear_arith)
            requires
                q <= n,
                newt < n,
                n < 0x1_0000_0000_0000_0000,
        ;
        let next_t = (t + (n - (q * newt) % n)) % n;
        let next_r = r - q * newr;
        proof {
            lemma_inverse_step(t as int, newt as int, r as int, newr as int, q as int, a as int, n as int);
            lemma_fundamental_div_mod(r as int, newr as int);
            assert(next_r == r % newr);
        }
        t = newt;
        newt = next_t;
        r = newr;
        newr = next_r;
    }
    proof {
        lemma_gcd_positive(n as nat, a as nat);
    }
    assert(gcd(r as nat, 0) == r);
    if r > 1 {
        None
    } else {
        proof {
            lemma_small_mod(1, n as nat);
            assert(a * t == t * a) by (nonlinear_arith);
        }
        Some(t)
    }
}

impl Keypair {
    /// Build the key pair of the two fixed primes.
    pub fn generate() -> (kp: Self)
        ensures
            generated_key(kp),
            key_fits(kp.public),
    {
        let p: u128 = PRIME_P;
        let q: u128 = PRIME_Q;
        let n: u128 = p * q;
        let n_sq: u128 = n * n;
        let g: u128 = n + 1;
        let pm = p - 1;
        let qm = q - 1;
        let d = gcd_of(pm, qm);
        proof {
            lemma_gcd_positive(pm as nat, qm as nat);
        }
        let lambda: u128 = (pm * qm) / d;
        let u = modpow(g, lambda, n_sq);
        let l: u128 = if u == 0 {
            0
        } else {
            (u - 1) / n
        };
        assert(l < n) by (nonlinear_arith)
            requires
                u < n_sq,
                n_sq == n * n,
                l == if u == 0 { 0 } else { ((u - 1) as int) / (n as int) },
                n > 1,
        ;
        let mu = match mod_inverse(l, n) {
            Some(m) => m,
            None => 1,
        };
        Keypair { public: PublicKey { n, n_sq, g }, private: PrivateKey { lambda, mu } }
    }
}

impl PaillierFHE {
    /// Encrypt `m` with the random factor `r`.
    pub fn encrypt_with(pub_key: &PublicKey, m: u64, r: u128) -> (c: u128)
        requires
            key_fits(*pub_key),
        ensures
            c == encryption(*pub_key, m as nat, r as nat),
    {
        proof {
            assert(pub_key.n_sq <= MAX_MODULUS) by (nonlinear_arith)
                requires
                    pub_key.n < 0x1000_0000_0000_0000,
                    pub_key.n_sq == pub_key.n * pub_key.n,
            ;
            assert(pub_key.n_sq > 1) by (nonlinear_arith)
                requires
                    pub_key.n > 1,
                    pub_key.n_sq == pub_key.n * pub_key.n,
            ;
        }
        let gm = modpow(pub_key.g, m as u128, pub_key.n_sq);
        let rn = modpow(r, pub_key.n, pub_key.n_sq);
        let c = mulmod(gm, rn, pub_key.n_sq);
        proof {
            lemma_mul_mod_noop_general(
                pow(pub_key.g as int, m as nat),
                pow(r as int, pub_key.n as nat),
                pub_key.n_sq as int,
            );
        }
        c
    }

    /// Encrypt `m` with a random factor drawn from `[1, n)`; `None` where
    /// the random source fails.
    pub fn encrypt(pub_key: &PublicKey, m: u64) -> (r: Option<u128>)
        requires
            key_fits(*pub_key),
        ensures
            r matches Some(c) ==> exists|x: u128| 1 <= x < pub_key.n && c == #[trigger] encryption(
                *pub_key,
                m as nat,
                x as nat,
            ),
    {
        match random_below(pub_key.n) {
            Some(x) => Some(Self::encrypt_with(pub_key, m, x)),
            None => None,
        }
    }

    /// Decrypt `c`.
    pub fn decrypt(pub_key: &PublicKey, priv_key: &PrivateKey, c: u128) -> (m: u64)
        requires
            key_fits(*pub_key),
            priv_key.mu < pub_key.n,
        ensures
            m == decryption(*pub_key, *priv_key, c as nat),
    {
        proof {
            assert(pub_key.n_sq <= MAX_MODULUS) by (nonlinear_arith)
                requires
                    pub_key.n < 0x1000_0000_0000_0000,
                    pub_key.n_sq == pub_key.n * pub_key.n,
            ;
            assert(pub_key.n_sq > 1) by (nonlinear_arith)
                requires
                    pub_key.n > 1,
                    pub_key.n_sq == pub_key.n * pub_key.n,
            ;
        }
        let u = modpow(c, priv_key.lambda, pub_key.n_sq);
        let l: u128 = if u == 0 {
            0
        } else {
            (u - 1) / pub_key.n
        };
        assert(l < pub_key.n) by (nonlinear_arith)
            requires
                u < pub_key.n_sq,
                pub_key.n_sq == pub_key.n * pub_key.n,
                l == if u == 0 { 0 } else { ((u - 1) as int) / (pub_key.n as int) },
                pub_key.n > 1,
        ;
        assert(l * priv_key.mu < pub_key.n * pub_key.n) by (nonlinear_arith)
            requires
                l < pub_key.n,
                priv_key.mu < pub_key.n,
        ;
        let m = (l * priv_key.mu) % pub_key.n;
        m as u64
    }

    /// Add two encrypted values: the product of the ciphertexts mod `n^2`.
    pub fn add_encrypted(pub_key: &PublicKey, c1: u128, c2: u128) -> (c: u128)
        requires
            key_fits(*pub_key),
        ensures
            c == cipher_sum(*pub_key, c1 as nat, c2 as nat),
    {
        proof {
            assert(pub_key.n_sq <= MAX_MODULUS) by (nonlinear_arith)
                requires
                    pub_key.n < 0x1000_0000_0000_0000,
                    pub_key.n_sq == pub_key.n * pub_key.n,
            ;
            assert(pub_key.n_sq > 1) by (nonlinear_arith)
                requires
                    pub_key.n > 1,
                    pub_key.n_sq == pub_key.n * pub_key.n,
            ;
            lemma_mul_mod_noop_general(c1 as int, c2 as int, pub_key.n_sq as int);
        }
        mulmod(c1 % pub_key.n_sq, c2 % pub_key.n_sq, pub_key.n_sq)
    }
}

/// `rand`'s standard generator, `rand::rngs::StdRng`.
#[verifier::external_type_specification]
#[verifier::external_body]
pub struct ExStdRng(rand::rngs::StdRng);

/// `StdRng::from_rng(OsRng)`: a generator seeded from the operating
/// system's random source; `None` where that source reports an error.
#[verifier::external_body]
fn seeded_rng() -> Option<rand::rngs::StdRng> {
    rand::rngs::StdRng::from_rng(rand::rngs::OsRng).ok()
}

/// `Rng::gen_range` over `1..bound`: a number in `[1, bound)`. Which one is
/// left to chance.
#[verifier::external_body]
fn rng_below(rng: &mut rand::rngs::StdRng, bound: u128) -> (r: u128)
    requires
        bound > 1,
    ensures
        1 <= r < bound,
{
    rng.gen_range(1..bound)
}

/// A random number in `[1, bound)`, drawn as `thread_rng().gen_range` does
/// (a standard generator seeded from the operating system); `None` where
/// the random source fails.
fn random_below(bound: u128) -> (r: Option<u128>)
    requires
        bound > 1,
    ensures
        r matches Some(x) ==> 1 <= x < bound,
{
    match seeded_rng() {
        Some(mut g) => Some(rng_below(&mut g, bound)),
        None => None,
    }
}

/// The sum of two ciphertexts is a ciphertext of the sum of the
/// plaintexts, whose random factor is the product of theirs.
pub proof fn lemma_sum_encrypts_sum(pk: PublicKey, m1: nat, r1: nat, m2: nat, r2: nat)
    requires
        key_fits(pk),
    ensures
        cipher_sum(pk, encryption(pk, m1, r1) as nat, encryption(pk, m2, r2) as nat) == encryption(
            pk,
            m1 + m2,
            r1 * r2,
        ),
{
    let n2 = pk.n_sq as int;
    assert(n2 > 0) by (nonlinear_arith)
        requires
            pk.n > 1,
            n2 == pk.n * pk.n,
    ;
    let a = pow(pk.g as int, m1) * pow(r1 as int, pk.n as nat);
    let b = pow(pk.g as int, m2) * pow(r2 as int, pk.n as nat);
    lemma_mul_mod_noop_general(a, b, n2);
    lemma_pow_adds(pk.g as int, m1, m2);
    lemma_pow_distributes(r1 as int, r2 as int, pk.n as nat);
    assert(a * b == pow(pk.g as int, m1 + m2) * pow((r1 * r2) as int, pk.n as nat)) by (nonlinear_arith)
        requires
            a == pow(pk.g as int, m1) * pow(r1 as int, pk.n as nat),
            b == pow(pk.g as int, m2) * pow(r2 as int, pk.n as nat),
            pow(pk.g as int, m1 + m2) == pow(pk.g as int, m1) * pow(pk.g as int, m2),
            pow((r1 * r2) as int, pk.n as nat) == pow(r1 as int, pk.n as nat) * pow(r2 as int, pk.n as nat),
    ;
    assert(encryption(pk, m1, r1) >= 0 && encryption(pk, m2, r2) >= 0);
}


/// `(1 + a n)^k` is `1 + k a n` modulo `n^2`.
pub(crate) proof fn lemma_one_plus_multiple_pow(a: int, n: int, k: nat)
    requires
        n > 0,
    ensures
        pow(1 + a * n, k) % (n * n) == (1 + k * a * n) % (n * n),
    decreases k,
{
    let n2 = n * n;
    assert(n2 > 0) by (nonlinear_arith)
        requires
            n > 0,
            n2 == n * n,
    ;
    if k == 0 {
        lemma_pow0(1 + a * n);
        assert(k * a * n == 0) by (nonlinear_arith)
            requires
                k == 0,
        ;
    } else {
        let k1 = (k - 1) as nat;
        let x = 1 + a * n;
        lemma_one_plus_multiple_pow(a, n, k1);
        lemma_pow1(x);
        lemma_pow_adds(x, 1, k1);
        assert(pow(x, k) == x * pow(x, k1));
        lemma_mul_mod_noop_general(x, pow(x, k1), n2);
        lemma_mul_mod_noop_general(x, 1 + k1 * a * n, n2);
        assert((x * pow(x, k1)) % n2 == (x * (pow(x, k1) % n2)) % n2);
        assert((x * (1 + k1 * a * n)) % n2 == (x * ((1 + k1 * a * n) % n2)) % n2);
        assert(pow(x, k) % n2 == (x * (1 + k1 * a * n)) % n2);
        let w = k1 * a * a;
        assert(x * (1 + k1 * a * n) == (1 + k * a * n) + n2 * w) by (nonlinear_arith)
            requires
                k1 == k - 1,
                n2 == n * n,
                x == 1 + a * n,
                w == k1 * a * a,
        ;
        vstd::arithmetic::div_mod::lemma_mod_multiples_vanish(w, 1 + k * a * n, n2);
        assert((n2 * w + (1 + k * a * n)) % n2 == (1 + k * a * n) % n2);
        assert(x * (1 + k1 * a * n) == n2 * w + (1 + k * a * n));
    }
}

/// The concrete numbers of the generated key.
proof fn lemma_generated_numbers()
    ensures
        gcd(1000000006, 1000000008) == 2,
        gcd(1000000016000000063, 500000007000000024) == 1,
{
    assert(gcd(2, 0) == 2);
    assert(gcd(1000000006, 2) == 2);
    assert(gcd(1000000008, 1000000006) == 2);
    assert(gcd(1000000006, 1000000008) == 2);
    assert(gcd(1, 0) == 1);
    assert(gcd(3, 1) == 1);
    assert(gcd(250000000, 3) == 1);
    assert(gcd(250000003, 250000000) == 1);
    assert(gcd(500000003, 250000003) == 1);
    assert(gcd(750000006, 500000003) == 1);
    assert(gcd(1250000009, 750000006) == 1);
    assert(gcd(2000000015, 1250000009) == 1);
    assert(gcd(500000007000000024, 2000000015) == 1);
    assert(gcd(1000000016000000063, 500000007000000024) == 1);
}

/// Decryption gives back the plaintext (modulo `n`) of an encryption with
/// a random factor `r` whose `n lambda`-th power is 1 modulo `n^2`.
proof fn lemma_decryption_given_unit(kp: Keypair, m: nat, r: nat)
    requires
        generated_key(kp),
        pow(r as int, (kp.public.n * kp.private.lambda) as nat) % (kp.public.n_sq as int) == 1,
    ensures
        decryption(kp.public, kp.private, encryption(kp.public, m, r) as nat) == (m as int) % (kp.public.n as int),
{
    lemma_generated_numbers();
    let pk = kp.public;
    let sk = kp.private;
    let n = pk.n as int;
    let n2 = pk.n_sq as int;
    let lam = sk.lambda as int;
    assert(PRIME_P as int - 1 == 1000000006);
    assert(PRIME_Q as int - 1 == 1000000008);
    assert(n == 1000000016000000063);
    assert(n2 > 1) by (nonlinear_arith)
        requires
            n == 1000000016000000063,
            n2 == n * n,
    ;
    assert(1000000006 * 1000000008 / 2 == 500000007000000024);
    assert(lam == 500000007000000024);
    assert(n2 == n * n);
    assert(n2 > 0);
    let g = pk.g as int;
    assert(g == 1 + 1 * n);
    // The key's mu inverts lambda.
    lemma_one_plus_multiple_pow(1, n, lam as nat);
    assert(1 * lam * n == lam * n) by (nonlinear_arith);
    assert(1 + lam * n < n2) by (nonlinear_arith)
        requires
            0 <= lam < n,
            n > 1,
            n2 == n * n,
    ;
    lemma_small_mod((1 + lam * n) as nat, n2 as nat);
    assert(pow(n + 1, lam as nat) % (n * n) == 1 + lam * n);
    assert((1 + lam * n - 1) / n == lam) by (nonlinear_arith)
        requires
            n > 0,
    ;
    assert((lam * sk.mu) % n == 1);
    // The ciphertext raised to lambda.
    let gm = pow(g, m);
    let rn = pow(r as int, pk.n as nat);
    let c = (gm * rn) % n2;
    assert(c == encryption(pk, m, r));
    lemma_pow_mod_noop(gm * rn, lam as nat, n2);
    lemma_pow_distributes(gm, rn, lam as nat);
    lemma_pow_multiplies(g, m, lam as nat);
    lemma_pow_multiplies(r as int, pk.n as nat, lam as nat);
    assert(pk.n * sk.lambda == (pk.n as nat) * (lam as nat));
    let a1 = pow(g, m * (lam as nat));
    assert(g == 1 + 1 * n);
    let b1 = pow(r as int, (pk.n as nat) * (lam as nat));
    assert(pow(c, sk.lambda as nat) % n2 == (a1 * b1) % n2);
    lemma_mul_mod_noop_general(a1, b1, n2);
    let e = m * (lam as nat);
    lemma_one_plus_multiple_pow(1, n, e);
    assert(e * 1 * n == (m * lam) * n) by (nonlinear_arith)
        requires
            e == m * lam,
    ;
    let v = (m * lam) % n;
    lemma_fundamental_div_mod(m * lam, n);
    let qq = (m * lam) / n;
    assert(1 + (m * lam) * n == (1 + v * n) + qq * n2) by (nonlinear_arith)
        requires
            m * lam == n * qq + v,
            n2 == n * n,
    ;
    vstd::arithmetic::div_mod::lemma_mod_multiples_vanish(qq, 1 + v * n, n2);
    assert(qq * n2 == n2 * qq) by (nonlinear_arith);
    assert(0 <= v < n);
    assert(1 + v * n < n2) by (nonlinear_arith)
        requires
            0 <= v < n,
            n > 1,
            n2 == n * n,
    ;
    lemma_small_mod((1 + v * n) as nat, n2 as nat);
    let u = pow(c, sk.lambda as nat) % n2;
    assert(a1 % n2 == 1 + v * n);
    assert(b1 % n2 == 1);
    assert(u == 1 + v * n);
    assert((u - 1) / n == v) by (nonlinear_arith)
        requires
            u == 1 + v * n,
            n > 0,
    ;
    // L(u) * mu mod n is m mod n.
    lemma_mul_mod_noop_general(m * lam, sk.mu as int, n);
    assert((m * lam) * sk.mu == m * (lam * sk.mu)) by (nonlinear_arith);
    lemma_mul_mod_noop_general(m as int, lam * sk.mu, n);
    assert((v * sk.mu) % n == (m * ((lam * sk.mu) % n)) % n);
    assert(m * 1 == m);
}

/// The values of the generated key.
proof fn lemma_generated_values(kp: Keypair)
    requires
        generated_key(kp),
    ensures
        kp.public.n == 1000000016000000063,
        kp.private.lambda == 500000007000000024,
        kp.public.n_sq == 1000000016000000063 * 1000000016000000063,
{
    lemma_generated_numbers();
    assert(PRIME_P as int - 1 == 1000000006);
    assert(PRIME_Q as int - 1 == 1000000008);
    assert(1000000006 * 1000000008 / 2 == 500000007000000024);
}

/// Decryption inverts encryption: with the generated key, a ciphertext of
/// `m` whose random factor neither key prime divides decrypts to `m`
/// modulo `n`.
pub proof fn lemma_decryption_inverts_encryption(kp: Keypair, m: nat, r: nat)
    requires
        generated_key(kp),
        (r as int) % (PRIME_P as int) != 0,
        (r as int) % (PRIME_Q as int) != 0,
    ensures
        decryption(kp.public, kp.private, encryption(kp.public, m, r) as nat) == (m as int) % (kp.public.n as int),
{
    lemma_generated_values(kp);
    crate::kernel::primes::lemma_unit_pow_n_lambda(r);
    lemma_decryption_given_unit(kp, m, r);
}

/// Decrypting the sum of two ciphertexts gives the sum of the plaintexts
/// modulo `n`, for random factors neither key prime divides.
pub proof fn lemma_sum_decrypts_to_sum(kp: Keypair, m1: nat, r1: nat, m2: nat, r2: nat)
    requires
        generated_key(kp),
        (r1 as int) % (PRIME_P as int) != 0,
        (r1 as int) % (PRIME_Q as int) != 0,
        (r2 as int) % (PRIME_P as int) != 0,
        (r2 as int) % (PRIME_Q as int) != 0,
    ensures
        decryption(
            kp.public,
            kp.private,
            cipher_sum(kp.public, encryption(kp.public, m1, r1) as nat, encryption(kp.public, m2, r2) as nat) as nat,
        ) == ((m1 + m2) as int) % (kp.public.n as int),
{
    lemma_generated_values(kp);
    crate::kernel::primes::lemma_unit_pow_n_lambda(r1);
    crate::kernel::primes::lemma_unit_pow_n_lambda(r2);
    let pk = kp.public;
    let e = (pk.n * kp.private.lambda) as nat;
    let n2 = pk.n_sq as int;
    assert(n2 > 0) by (nonlinear_arith)
        requires
            n2 == 1000000016000000063 * 1000000016000000063,
    ;
    assert(key_fits(pk));
    lemma_sum_encrypts_sum(pk, m1, r1, m2, r2);
    lemma_pow_distributes(r1 as int, r2 as int, e);
    lemma_mul_mod_noop_general(pow(r1 as int, e), pow(r2 as int, e), n2);
    assert(pow((r1 * r2) as int, e) % n2 == 1);
    lemma_decryption_given_unit(kp, m1 + m2, r1 * r2);
}

} // verus!
