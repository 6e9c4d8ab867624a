use gfm_table::comparison::{Comparison, Rating, EVEN_BITS, INFINITY_BITS, ROCKET_BITS, SIGN_BIT};

fn rate(ratio: f64) -> Rating {
    Comparison::from_bits(ratio.to_bits()).rate()
}

#[test]
fn thresholds_are_the_bits_of_their_values() {
    assert_eq!(ROCKET_BITS, 1.8f64.to_bits());
    assert_eq!(EVEN_BITS, 0.9f64.to_bits());
    assert_eq!(INFINITY_BITS, f64::INFINITY.to_bits());
    assert_eq!(SIGN_BIT, (-0.0f64).to_bits());
}

#[test]
fn from_bits_keeps_the_bits() {
    assert_eq!(Comparison::from_bits(7).bits, 7);
    assert_eq!(Comparison::from_bits(1.0f64.to_bits()), Comparison { bits: 0x3FF0_0000_0000_0000 });
}

#[test]
fn ratings_of_the_named_ratios() {
    assert_eq!(rate(2.0), Rating::Rocket);
    assert_eq!(rate(1.8), Rating::Rocket);
    assert_eq!(rate(1.0), Rating::Check);
    assert_eq!(rate(0.9), Rating::Even);
    assert_eq!(rate(0.5), Rating::Cross);
}

#[test]
fn ratings_next_to_the_thresholds() {
    assert_eq!(rate(f64::from_bits(1.8f64.to_bits() - 1)), Rating::Check);
    assert_eq!(rate(f64::from_bits(1.8f64.to_bits() + 1)), Rating::Rocket);
    assert_eq!(rate(f64::from_bits(0.9f64.to_bits() - 1)), Rating::Cross);
    assert_eq!(rate(f64::from_bits(0.9f64.to_bits() + 1)), Rating::Check);
}

#[test]
fn ratings_at_the_ends() {
    assert_eq!(rate(f64::INFINITY), Rating::Rocket);
    assert_eq!(rate(f64::MAX), Rating::Rocket);
    assert_eq!(rate(0.0), Rating::Cross);
    assert_eq!(rate(-0.0), Rating::Cross);
    assert_eq!(rate(-3.0), Rating::Cross);
    assert_eq!(rate(f64::NEG_INFINITY), Rating::Cross);
    assert_eq!(rate(f64::MIN_POSITIVE), Rating::Cross);
}

#[test]
fn no_number_gets_no_decoration() {
    assert_eq!(rate(f64::NAN), Rating::Even);
    assert_eq!(rate(-f64::NAN), Rating::Even);
    assert_eq!(Comparison::from_bits(u64::MAX).rate(), Rating::Even);
    assert_eq!(Comparison::from_bits(INFINITY_BITS + 1).rate(), Rating::Even);
}

#[test]
fn rating_agrees_with_the_comparisons_on_the_values() {
    let samples = [
        0.0, 0.1, 0.5, 0.89, 0.8999999999999999, 0.9, 0.9000000000000001, 0.95, 1.0, 1.5,
        1.7999999999999998, 1.8, 1.8000000000000003, 2.0, 8.0, 1e300, -1.0, -0.9, -1.8,
    ];
    for ratio in samples {
        let expected = if ratio >= 1.8 {
            Rating::Rocket
        } else if ratio > 0.9 {
            Rating::Check
        } else if ratio < 0.9 {
            Rating::Cross
        } else {
            Rating::Even
        };
        assert_eq!(rate(ratio), expected);
    }
}
