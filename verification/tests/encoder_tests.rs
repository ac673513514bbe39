use octocore::midi_input::{encoder_to_param, encoder_to_shared, encoder_to_value};
use octocore::param::Param;
use octocore::units::{UNIT, VAL_LIMIT};

#[test]
fn encoder_byte_1_steps_up_one_unit() {
    assert_eq!(encoder_to_value(1, 0, 1), UNIT);
}

#[test]
fn encoder_byte_127_steps_down_one_unit() {
    assert_eq!(encoder_to_value(127, 0, 1), -UNIT);
}

#[test]
fn encoder_byte_64_takes_the_positive_branch() {
    assert_eq!(encoder_to_value(64, 0, 1), 64 * UNIT);
}

#[test]
fn encoder_byte_65_takes_the_negative_branch() {
    assert_eq!(encoder_to_value(65, 0, 1), -63 * UNIT);
}

#[test]
fn encoder_intensity_divides_the_step() {
    assert_eq!(encoder_to_value(1, 0, 32), UNIT / 32);
    assert_eq!(encoder_to_value(127, 0, 32), -(UNIT / 32));
    // an odd division truncates toward zero
    assert_eq!(encoder_to_value(1, 0, 512), 1953);
    assert_eq!(encoder_to_value(127, 0, 512), -1953);
}

#[test]
fn encoder_adds_to_the_current_value() {
    assert_eq!(encoder_to_value(2, 5 * UNIT, 1), 7 * UNIT);
    assert_eq!(encoder_to_value(126, 5 * UNIT, 1), 3 * UNIT);
}

#[test]
fn encoder_saturates_at_the_storage_bound() {
    assert_eq!(encoder_to_value(64, VAL_LIMIT - UNIT, 1), VAL_LIMIT);
    assert_eq!(encoder_to_value(65, -VAL_LIMIT + UNIT, 1), -VAL_LIMIT);
}

#[test]
fn encoder_to_shared_updates_the_cell() {
    let mut cell: i64 = 10_000;
    encoder_to_shared(1, &mut cell, 32);
    assert_eq!(cell, 10_000 + UNIT / 32);
    encoder_to_shared(127, &mut cell, 32);
    assert_eq!(cell, 10_000);
}

#[test]
fn encoder_to_param_clamps_at_the_range() {
    let mut p = Param::new(UNIT, (UNIT, 999 * UNIT));
    // stepping down from the minimum stays at the minimum
    encoder_to_param(127, &mut p, 1);
    assert_eq!(p.unmodulated_value(), UNIT);
    encoder_to_param(3, &mut p, 1);
    assert_eq!(p.unmodulated_value(), 4 * UNIT);
}
