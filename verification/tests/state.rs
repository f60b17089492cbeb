use firmament::error::{McuError, RuntimeError};
use firmament::mcu::state::State;

#[test]
fn new_state_has_empty_budgets_and_full_meter() {
    let s = State::new(42u8);
    assert_eq!(s.mcu, 42);
    assert_eq!(s.compute.allocated(), 0);
    assert_eq!(s.compute.consumed(), 0);
    assert_eq!(s.cycles.allocated(), 0);
    assert_eq!(s.cycles.consumed(), 0);
    assert_eq!(s.last_fuel, u64::MAX);
    assert!(s.cycles.exhausted());
}

#[test]
fn fuel_since_saturates() {
    let mut s = State::new(());
    s.last_fuel = 1_000;
    assert_eq!(s.fuel_since(400), 600);
    assert_eq!(s.fuel_since(1_000), 0);
    assert_eq!(s.fuel_since(2_000), 0);
}

#[test]
fn meter_charges_burned_fuel_and_cycles() {
    let mut s = State::new(());
    s.refill(1_000, 2_000);
    s.meter(u64::MAX - 100, 50);
    assert_eq!(s.compute.consumed(), 100);
    assert_eq!(s.cycles.consumed(), 50);
    assert_eq!(s.last_fuel, u64::MAX - 100);
    s.meter(u64::MAX - 130, 15);
    assert_eq!(s.compute.consumed(), 130);
    assert_eq!(s.cycles.consumed(), 65);
    assert_eq!(s.compute.allocated(), 2_000);
    assert_eq!(s.cycles.allocated(), 1_000);
}

#[test]
fn meter_charges_each_unit_of_fuel_once() {
    let mut s = State::new(());
    let before = s.compute.consumed() as u128 + s.last_fuel as u128;
    for now in [u64::MAX - 10, u64::MAX - 25, u64::MAX - 25, u64::MAX - 1_000] {
        s.meter(now, 0);
        assert_eq!(s.compute.consumed() as u128 + s.last_fuel as u128, before);
    }
}

#[test]
fn meter_ignores_a_rising_fuel_level() {
    let mut s = State::new(());
    s.last_fuel = 10;
    s.meter(50, 0);
    assert_eq!(s.compute.consumed(), 0);
    assert_eq!(s.last_fuel, 50);
}

#[test]
fn settle_charges_successful_access_only() {
    let mut s = State::new(());
    s.refill(10, 20);
    assert_eq!(s.settle(Ok::<u32, McuError>(7), 4).ok(), Some(7));
    assert_eq!(s.cycles.consumed(), 4);
    assert_eq!(s.compute.consumed(), 0);
    let failed = s.settle(Err::<u32, McuError>(McuError::WidthMismatch { requested: 8, actual: 16 }), 3);
    assert!(matches!(failed, Err(RuntimeError::Mcu(McuError::WidthMismatch { requested: 8, actual: 16 }))));
    assert_eq!(s.cycles.consumed(), 4);
}

#[test]
fn refill_replaces_budgets() {
    let mut s = State::new(());
    s.refill(10, 20);
    assert!(s.settle(Ok::<(), McuError>(()), 10).is_ok());
    assert!(s.cycles.exhausted());
    s.refill(7, 9);
    assert_eq!(s.cycles.allocated(), 7);
    assert_eq!(s.cycles.consumed(), 0);
    assert_eq!(s.compute.allocated(), 9);
    assert_eq!(s.compute.consumed(), 0);
}

#[test]
fn idle_step_stops_at_next_event() {
    let mut s = State::new(());
    s.refill(100, 0);
    assert_eq!(s.idle_step(Some(30)), 30);
    assert_eq!(s.cycles.consumed(), 30);
    assert_eq!(s.idle_step(Some(70)), 70);
    assert!(s.cycles.exhausted());
}

#[test]
fn idle_step_without_event_uses_up_budget() {
    let mut s = State::new(());
    s.refill(100, 0);
    assert!(s.settle(Ok::<(), McuError>(()), 25).is_ok());
    assert_eq!(s.idle_step(None), 75);
    assert!(s.cycles.exhausted());
    assert_eq!(s.cycles.consumed(), 100);
}

#[test]
fn idle_step_caps_late_event_at_budget() {
    let mut s = State::new(());
    s.refill(100, 0);
    assert_eq!(s.idle_step(Some(500)), 100);
    assert_eq!(s.cycles.consumed(), s.cycles.allocated());
}

#[test]
fn idle_step_with_immediate_event_advances_nothing() {
    let mut s = State::new(());
    s.refill(100, 0);
    assert_eq!(s.idle_step(Some(0)), 0);
    assert_eq!(s.cycles.consumed(), 0);
}
