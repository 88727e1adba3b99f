use silkrust::checksum::Checksum;
use silkrust::sequencer::{generate_value, Sequencer, DEFAULT_SEED};

#[test]
fn compare_init_with_known_sequencer_impl() {
    let sequencer = Sequencer::new(0x12345678);

    assert_eq!(sequencer.byte0, 129);
    assert_eq!(sequencer.byte1, 114);
    assert_eq!(sequencer.byte2, 243);
}

#[test]
fn compare_next_with_known_sequencer_impl() {
    let mut sequencer = Sequencer::new(0x1234);

    assert_eq!(sequencer.next(), 4);
    assert_eq!(sequencer.next(), 222);
}

#[test]
fn compare_generate_value_with_known_sequencer_impl() {
    let value = 0x12345678;

    let m0 = generate_value(value);
    let m1 = generate_value(m0);

    assert_eq!(m0, 1706579037);
    assert_eq!(m1, 1019020591);
}

#[test]
fn zero_seed_falls_back_to_default() {
    let mut from_zero = Sequencer::new(0);
    let mut from_default = Sequencer::new(DEFAULT_SEED);
    assert_eq!(from_zero, from_default);
    for _ in 0..64 {
        assert_eq!(from_zero.next(), from_default.next());
    }
}

#[test]
fn equal_seeds_emit_equal_streams() {
    let mut a = Sequencer::new(0xDEADBEEF);
    let mut b = Sequencer::new(0xDEADBEEF);
    for _ in 0..256 {
        assert_eq!(a.next(), b.next());
    }
}

#[test]
fn checksum_of_nothing_is_the_seed_fold() {
    let checksum = Checksum::new(0);
    assert_eq!(checksum.compute(&[], 0), 0);
}

#[test]
fn checksum_diffuses_one_byte() {
    // Seed 0 starts the accumulator at 0; absorbing 0x01 shifts it up
    // seven times and folds the polynomial once: 0x07.
    let checksum = Checksum::new(0);
    assert_eq!(checksum.compute(&[0x01], 1), 0x07);
}

#[test]
fn checksum_is_seeded() {
    let data = [1u8, 2, 3, 4];
    let a = Checksum::new(5).compute(&data, 4);
    let b = Checksum::new(6).compute(&data, 4);
    assert_ne!(a, b);
    assert_eq!(a, Checksum::new(5).compute(&data, 4));
}
