use avr_flight::port::portb;
use avr_flight::port::Port;
use avr_flight::toggle::run_schedule_once;
use avr_flight::toggle::ToggleSchedule;

#[test]
fn uniform_schedule_has_two_equal_steps() {
    let schedule = ToggleSchedule::uniform(7);
    assert_eq!(schedule.steps.len(), 2);
    for step in &schedule.steps {
        assert!(step.toggle);
        assert_eq!(step.hold, 7);
    }
}

#[test]
fn patterned_schedule_is_a_burst_then_a_pause() {
    let schedule = ToggleSchedule::patterned(10, 500);
    assert_eq!(schedule.steps.len(), 5);
    for step in &schedule.steps[..4] {
        assert!(step.toggle);
        assert_eq!(step.hold, 10);
    }
    assert!(!schedule.steps[4].toggle);
    assert_eq!(schedule.steps[4].hold, 500);
}

#[test]
fn uniform_iteration_from_high_returns_to_high() {
    let mut port = portb::init();
    port.set_pin_mode(5, true);
    port.set_pin_state(5, true);
    let schedule = ToggleSchedule::uniform(100);
    let log = run_schedule_once(&mut port, 5, &schedule);
    assert_eq!(log.toggles, 2);
    assert_eq!(log.delays, vec![100, 100]);
    assert_eq!(log.levels, vec![false, true]);
    assert!(port.read_pin(5));
}

#[test]
fn patterned_iteration_from_high_ends_high() {
    let mut port = portb::init();
    port.set_pin_mode(5, true);
    port.set_pin_state(5, true);
    let schedule = ToggleSchedule::patterned(10, 500);
    let log = run_schedule_once(&mut port, 5, &schedule);
    assert_eq!(log.toggles, 4);
    assert_eq!(log.delays, vec![10, 10, 10, 10, 500]);
    assert_eq!(log.levels, vec![false, true, false, true, true]);
    assert!(port.read_pin(5));
}

#[test]
fn iteration_preserves_sibling_pins() {
    let mut port = Port::new(1, 2, 3);
    port.set_pin_mode(5, true);
    port.set_pin_mode(2, true);
    port.set_pin_state(2, true);
    port.set_pin_state(5, true);
    let schedule = ToggleSchedule::patterned(1, 2);
    run_schedule_once(&mut port, 5, &schedule);
    assert!(port.read_pin(2));
    assert_eq!(port.direction_register(), 0b0010_0100);
    assert_eq!(port.output_register(), 0b0010_0100);
}

#[test]
fn schedule_without_transitions_holds_the_level() {
    let mut port = Port::new(1, 2, 3);
    port.set_pin_mode(0, true);
    port.set_pin_state(0, true);
    let schedule = ToggleSchedule { steps: Vec::new() };
    let log = run_schedule_once(&mut port, 0, &schedule);
    assert_eq!(log.toggles, 0);
    assert!(log.delays.is_empty());
    assert!(log.levels.is_empty());
    assert!(port.read_pin(0));
}

#[test]
fn uniform_iteration_from_low_returns_to_low() {
    let mut port = Port::new(1, 2, 3);
    port.set_pin_mode(6, true);
    let schedule = ToggleSchedule::uniform(3);
    let log = run_schedule_once(&mut port, 6, &schedule);
    assert_eq!(log.toggles, 2);
    assert_eq!(log.levels, vec![true, false]);
    assert!(!port.read_pin(6));
}
