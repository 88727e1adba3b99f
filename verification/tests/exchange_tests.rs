use silkrust::exchange::{
    calculate_key, calculate_signature, g_pow_x_mod_p, transform_value, Challenge, Exchange,
    Initiator, Key, NotSet, Responder,
};

#[test]
fn roundtrip() {
    let initiator_private: u32 = rand::random();
    let (g, prime, initial): (u32, u32, Key) = (
        rand::random::<u32>() & 0x7FFFFFFF,
        (rand::random::<u32>() & 0x7FFFFFFF) | 1,
        rand::random(),
    );

    let initiator = Exchange::<NotSet>::default()
        .set_initial(initial)
        .set_generator(g)
        .set_prime(prime)
        .set_private(initiator_private);

    let responder = Exchange::<NotSet>::default()
        .set_initial(initial)
        .set_generator(g)
        .set_prime(prime)
        .set_private(initiator_private)
        .remote(initiator.get_local());

    let initiator = initiator.remote(responder.get_local());

    let responder_challenge = <Responder as Challenge>::create(&responder);
    assert!(<Initiator as Challenge>::verify(&initiator, responder_challenge).is_ok());

    let initiator_challenge = <Initiator as Challenge>::create(&initiator);
    assert!(<Responder as Challenge>::verify(&responder, initiator_challenge).is_ok());
}

#[test]
fn compare_with_known_result() {
    assert_eq!(g_pow_x_mod_p(10, 20, 30), 10);
}

#[test]
fn compare_transform_with_known_result() {
    let expected: [u8; 8] = [58, 49, 1, 1, 58, 49, 1, 1];
    let mut buf: [u8; 8] = [0; 8];
    let key = 12345;
    transform_value(&mut buf, key, (key & 7) as u8);

    assert_eq!(buf, expected);
}

#[test]
fn zero_exponent_yields_one_for_any_modulus() {
    assert_eq!(g_pow_x_mod_p(123456, 0, 1), 1);
    assert_eq!(g_pow_x_mod_p(0, 0, 97), 1);
    assert_eq!(g_pow_x_mod_p(7, 0, 0), 1);
}

#[test]
fn modular_exponentiation_matches_reference_values() {
    assert_eq!(g_pow_x_mod_p(2, 10, 1000), 24);
    assert_eq!(g_pow_x_mod_p(3, 7, 11), 9);
    assert_eq!(g_pow_x_mod_p(0xFFFF_FFFF, 2, 0xFFFF_FFFF), 0);
    assert_eq!(g_pow_x_mod_p(5, 1, 3), 2);
}

#[test]
fn paired_exchanges_agree_on_secret_signature_and_final_key() {
    let g = 10007u32;
    let p = 2147483647u32;
    let xa = 123456u32;
    let xb = 654321u32;
    let initial: Key = [1, 2, 3, 4, 5, 6, 7, 8];

    let a_builder = Exchange::<NotSet>::default()
        .set_initial(initial)
        .set_generator(g)
        .set_prime(p)
        .set_private(xa);
    let b_builder = Exchange::<NotSet>::default()
        .set_initial(initial)
        .set_generator(g)
        .set_prime(p)
        .set_private(xb);

    let a_side = a_builder.remote(b_builder.get_local());
    let b_side = b_builder.remote(a_builder.get_local());

    assert_eq!(a_side.shared(), b_side.shared());

    let from_a = <Initiator as Challenge>::create(&a_side);
    assert!(<Responder as Challenge>::verify(&b_side, from_a).is_ok());
    let from_b = <Responder as Challenge>::create(&b_side);
    assert!(<Initiator as Challenge>::verify(&a_side, from_b).is_ok());

    assert_eq!(
        <Initiator as Challenge>::finalize(&a_side),
        <Responder as Challenge>::finalize(&b_side)
    );
}

#[test]
fn tampered_challenge_is_refused() {
    let g = 10007u32;
    let p = 2147483647u32;
    let initial: Key = [0; 8];
    let a = Exchange::<NotSet>::default()
        .set_initial(initial)
        .set_generator(g)
        .set_prime(p)
        .set_private(111);
    let b = Exchange::<NotSet>::default()
        .set_initial(initial)
        .set_generator(g)
        .set_prime(p)
        .set_private(222);
    let a_side = a.remote(b.get_local());
    let b_side = b.remote(a.get_local());

    let mut challenge = <Initiator as Challenge>::create(&a_side);
    challenge[0] ^= 0xFF;
    assert!(<Responder as Challenge>::verify(&b_side, challenge).is_err());
}

#[test]
fn signature_and_key_derivations_differ_by_tweak() {
    let signature = calculate_signature(12345, 111, 222);
    let key = calculate_key(12345, 111, 222);
    assert_ne!(signature, key);
}
