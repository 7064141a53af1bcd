use split_flap_device::diagnostics::uppercase_prefix;
use split_flap_device::shaft_coordinator::ShaftCoordinator;
use split_flap_device::split_flap_bit_state::{
    BitState, HomedSteps, SensorCalibration, SensorState, SplitFlapBitState, Steps,
};
use split_flap_device::symbol_table::position_of;

fn calibration() -> SensorCalibration {
    SensorCalibration {
        trigger_value: 2000,
        untrigger_value: 1800,
    }
}

#[test]
fn first_triggered_edge_targets_home_offset() {
    let mut bit = SplitFlapBitState::new(calibration(), 58, 3);

    let needs_step = bit.process(2100);

    assert!(needs_step);
    assert_eq!(bit.target_steps.homed_steps, 3);
    assert!(bit.bit_state == BitState::SEEKING);
}

#[test]
fn seeking_settles_within_one_revolution_by_wrapping() {
    let mut bit = SplitFlapBitState::new(calibration(), 58, 3);
    let total_steps: u32 = 58 * 55;

    // Home and settle on the blank symbol at offset 3.
    while bit.process(2100) {}
    assert_eq!(bit.steps_since_home.homed_steps, 3);

    // Move to 'A', one flap further on.
    bit.set_target_character(b'A');
    while bit.process(2100) {}
    assert_eq!(bit.steps_since_home.homed_steps, 61);

    // Back to blank: the target now lies behind the drum position, so the
    // step count must wrap past the end of the revolution to reach it.
    bit.set_target_character(b' ');
    let mut calls: u32 = 0;
    while bit.process(2100) {
        calls += 1;
        assert!(calls <= total_steps, "bit did not settle within one revolution");
    }
    assert!(bit.bit_state == BitState::SETTLED);
    assert_eq!(bit.steps_since_home.homed_steps, 3);
    assert_eq!(calls, total_steps - 61 + 3);
}

#[test]
fn settled_bit_with_unchanged_target_stays_settled() {
    let mut bit = SplitFlapBitState::new(calibration(), 58, 3);
    while bit.process(2100) {}
    assert!(bit.bit_state == BitState::SETTLED);

    // The blank symbol is the one the drum already stands on.
    bit.set_target_character(b' ');
    let needs_step = bit.process(2100);

    assert!(!needs_step);
    assert!(bit.bit_state == BitState::SETTLED);
    assert_eq!(bit.steps_since_home.homed_steps, 3);
}

#[test]
fn unknown_symbol_targets_position_0() {
    assert_eq!(position_of(b'a'), 0);
    assert_eq!(position_of(0xFF), 0);

    let mut bit = SplitFlapBitState::new(calibration(), 58, 3);
    while bit.process(2100) {}

    bit.set_target_character(b'a');
    assert_eq!(bit.target_steps.homed_steps, 3);
}

#[test]
fn new_reduces_home_offset_modulo_revolution() {
    let bit = SplitFlapBitState::new(calibration(), 58, 58 * 55 + 5);
    assert_eq!(bit.offset_steps_to_first_position.homed_steps, 5);
}

#[test]
fn set_homed_leaves_state_unchanged() {
    let mut bit = SplitFlapBitState::new(calibration(), 58, 3);
    let _ = bit.process(2100);
    let before_steps = bit.steps_since_home;
    let before_target = bit.target_steps;

    bit.set_homed(true);

    assert!(bit.steps_since_home == before_steps);
    assert!(bit.target_steps == before_target);
    assert!(bit.bit_state == BitState::SEEKING);
}

#[test]
fn sensor_state_keeps_inside_dead_band() {
    let mut bit = SplitFlapBitState::new(calibration(), 58, 3);
    let _ = bit.process(2100);
    assert!(bit.sensor_state == SensorState::Triggered);

    // A sample strictly between the thresholds changes nothing.
    let _ = bit.process(1900);
    assert!(bit.sensor_state == SensorState::Triggered);

    let _ = bit.process(100);
    assert!(bit.sensor_state == SensorState::Untriggered);

    let _ = bit.process(1900);
    assert!(bit.sensor_state == SensorState::Untriggered);
}

#[test]
fn coordinator_advances_exactly_when_all_bits_settle() {
    let bits = vec![
        SplitFlapBitState::new(calibration(), 58, 3),
        SplitFlapBitState::new(calibration(), 58, 3),
    ];
    let message_rows = vec![vec![b'A', b'B'], vec![b'C', b'D']];
    let mut coordinator = ShaftCoordinator::new(bits, message_rows);
    let samples = vec![2100u32, 2100u32];

    // First cycle: both bits see their home edge and start seeking the
    // offset; nothing advances.
    let outcome = coordinator.process_cycle(&samples);
    assert_eq!(outcome.clutch_enables, vec![true, true]);
    assert!(!outcome.advanced);
    assert_eq!(coordinator.row_index, 0);

    let outcome = coordinator.process_cycle(&samples);
    assert_eq!(outcome.clutch_enables, vec![true, true]);
    assert!(!outcome.advanced);

    let outcome = coordinator.process_cycle(&samples);
    assert_eq!(outcome.clutch_enables, vec![true, true]);
    assert!(!outcome.advanced);

    // Fourth cycle: both drums stand on the offset, everything settles, and
    // the message advances once, re-targeting each bit with its column of
    // the new row ('C' is ordinal 3, 'D' is ordinal 4).
    let outcome = coordinator.process_cycle(&samples);
    assert_eq!(outcome.clutch_enables, vec![false, false]);
    assert!(outcome.advanced);
    assert_eq!(coordinator.row_index, 1);
    assert_eq!(coordinator.bits[0].target_steps.homed_steps, 3 + 58 * 3);
    assert_eq!(coordinator.bits[1].target_steps.homed_steps, 3 + 58 * 4);

    // The new targets differ from the positions, so the next cycle does not
    // advance again: the advance happens exactly once per settled cycle.
    let outcome = coordinator.process_cycle(&samples);
    assert_eq!(outcome.clutch_enables, vec![true, true]);
    assert!(!outcome.advanced);
    assert_eq!(coordinator.row_index, 1);
}

#[test]
fn coordinator_wraps_message_sequence() {
    let bits = vec![SplitFlapBitState::new(calibration(), 58, 0)];
    let message_rows = vec![vec![b' '], vec![b' ']];
    let mut coordinator = ShaftCoordinator::new(bits, message_rows);
    let samples = vec![2100u32];

    // With offset 0 the home edge itself settles the bit, so every cycle
    // advances; the row index must cycle 0 -> 1 -> 0.
    let outcome = coordinator.process_cycle(&samples);
    assert!(outcome.advanced);
    assert_eq!(coordinator.row_index, 1);
    let outcome = coordinator.process_cycle(&samples);
    assert!(outcome.advanced);
    assert_eq!(coordinator.row_index, 0);
}

#[test]
fn steps_arithmetic_wraps_at_revolution() {
    let total = Steps { steps: 3190 };

    let scaled = Steps { steps: 58 }.mul(53);
    assert_eq!(scaled.steps, 3074);

    let near_end = HomedSteps { homed_steps: 3000 };
    let wrapped = near_end.add(Steps { steps: 400 }, total);
    assert_eq!(wrapped.homed_steps, 210);

    let reduced = HomedSteps::from_offset(3422).rem(total);
    assert_eq!(reduced.homed_steps, 232);

    let summed = HomedSteps::from(Steps { steps: 100 }, HomedSteps::from_offset(3));
    assert_eq!(summed.homed_steps, 103);

    let mut position = HomedSteps { homed_steps: 3189 };
    position.inc(total);
    assert_eq!(position.homed_steps, 0);
    position.inc(total);
    assert_eq!(position.homed_steps, 1);

    position.clear();
    assert_eq!(position.homed_steps, 0);
    assert!(position == HomedSteps::empty());
}

#[test]
fn diagnostic_echo_uppercases_received_prefix() {
    let mut buffer: Vec<u8> = vec![b'a', b'z', b'!', b'5', b'b', b'c'];

    uppercase_prefix(&mut buffer, 4);

    assert_eq!(buffer, vec![b'A', b'Z', b'!', b'5', b'b', b'c']);
}
