use avr_flight::port::portb;
use avr_flight::port::Port;

#[test]
fn scenario_pin5_registers() {
    let mut port = Port::new(0x24, 0x25, 0x23);
    port.set_pin_mode(5, true);
    port.set_pin_state(5, true);
    assert_eq!(port.output_register(), 0b0010_0000);
    assert_eq!(port.direction_register(), 0b0010_0000);
}

#[test]
fn set_pin_mode_preserves_siblings() {
    let mut port = Port::new(1, 2, 3);
    for pin in 0..8u8 {
        port.set_pin_mode(pin, true);
    }
    assert_eq!(port.direction_register(), 0b1111_1111);
    port.set_pin_mode(4, false);
    assert_eq!(port.direction_register(), 0b1110_1111);
    port.set_pin_mode(4, true);
    assert_eq!(port.direction_register(), 0b1111_1111);
}

#[test]
fn set_pin_state_preserves_siblings() {
    let mut port = Port::new(1, 2, 3);
    port.set_pin_state(0, true);
    port.set_pin_state(7, true);
    assert_eq!(port.output_register(), 0b1000_0001);
    port.set_pin_state(3, true);
    assert_eq!(port.output_register(), 0b1000_1001);
    port.set_pin_state(3, false);
    assert_eq!(port.output_register(), 0b1000_0001);
}

#[test]
fn set_pin_state_twice_is_idempotent() {
    let mut once = Port::new(1, 2, 3);
    once.set_pin_state(6, true);
    let mut twice = Port::new(1, 2, 3);
    twice.set_pin_state(6, true);
    twice.set_pin_state(6, true);
    assert_eq!(once.output_register(), twice.output_register());
}

#[test]
fn output_pin_round_trip() {
    let mut port = Port::new(1, 2, 3);
    port.set_pin_mode(5, true);
    port.set_pin_state(5, true);
    assert!(port.read_pin(5));
    port.set_pin_state(5, false);
    assert!(!port.read_pin(5));
}

#[test]
fn input_pin_reads_external_line() {
    let mut port = Port::new(1, 2, 3);
    assert!(!port.read_pin(2));
    port.drive_line(2, true);
    assert!(port.read_pin(2));
    port.set_pin_state(2, false);
    assert!(port.read_pin(2));
    port.drive_line(2, false);
    assert!(!port.read_pin(2));
}

#[test]
fn output_state_on_input_pin_has_no_observed_effect() {
    let mut port = Port::new(1, 2, 3);
    port.set_pin_state(4, true);
    assert_eq!(port.output_register(), 0b0001_0000);
    assert!(!port.read_pin(4));
    port.set_pin_mode(4, true);
    assert!(port.read_pin(4));
}

#[test]
fn input_register_composes_driven_and_sensed_levels() {
    let mut port = Port::new(1, 2, 3);
    port.set_pin_mode(0, true);
    port.set_pin_state(0, true);
    port.drive_line(1, true);
    port.drive_line(0, false);
    assert_eq!(port.input_register(), 0b0000_0011);
}

#[test]
fn portb_init_starts_cleared() {
    let port = portb::init();
    assert_eq!(port.direction_register(), 0);
    assert_eq!(port.output_register(), 0);
    assert_eq!(port.input_register(), 0);
}
