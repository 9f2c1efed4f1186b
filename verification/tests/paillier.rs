use netgene::kernel::crypto::{Keypair, PaillierFHE, PublicKey, PRIME_P, PRIME_Q};

#[test]
fn test_paillier_homomorphic_addition() {
    let kp = Keypair::generate();
    let c1 = PaillierFHE::encrypt(&kp.public, 15).unwrap();
    let c2 = PaillierFHE::encrypt(&kp.public, 25).unwrap();
    let c_sum = PaillierFHE::add_encrypted(&kp.public, c1, c2);
    let result = PaillierFHE::decrypt(&kp.public, &kp.private, c_sum);
    assert_eq!(result, 40);
}

#[test]
fn generated_key_is_built_from_the_two_primes() {
    let kp = Keypair::generate();
    let n = PRIME_P * PRIME_Q;
    assert_eq!(kp.public.n, n);
    assert_eq!(kp.public.n_sq, n * n);
    assert_eq!(kp.public.g, n + 1);
    assert_eq!(kp.private.lambda, (PRIME_P - 1) * (PRIME_Q - 1) / 2);
    assert!(kp.private.mu < n);
}

#[test]
fn encryption_with_a_known_factor_is_exact() {
    let pk = PublicKey { n: 15, n_sq: 225, g: 16 };
    // 16^2 * 2^15 mod 225 = 256 * 32768 mod 225 = 31 * 143 mod 225 = 158
    assert_eq!(PaillierFHE::encrypt_with(&pk, 2, 2), 158);
    assert_eq!(PaillierFHE::add_encrypted(&pk, 158, 2), 91);
    assert_eq!(PaillierFHE::add_encrypted(&pk, 300, 300), (75 * 75) % 225);
}

#[test]
fn decryption_recovers_plaintexts() {
    let kp = Keypair::generate();
    for m in [0u64, 1, 7, 123_456_789, 999_999_999_999] {
        let c = PaillierFHE::encrypt(&kp.public, m).unwrap();
        assert_eq!(PaillierFHE::decrypt(&kp.public, &kp.private, c), m);
        let fixed = PaillierFHE::encrypt_with(&kp.public, m, 12345);
        assert_eq!(PaillierFHE::decrypt(&kp.public, &kp.private, fixed), m);
    }
}
