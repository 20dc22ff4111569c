use embedded_core::actuator::Blinker;
use embedded_core::actuator::led_after_edge;
use embedded_core::actuator::led_cycle;
use embedded_core::actuator::led_for_button_level;
use embedded_core::actuator::simulate_wake_times;
use embedded_core::control::Controller;
use embedded_core::control::next_delay;
use embedded_core::edge::EdgeKind;
use embedded_core::state_cell::StateCell;

#[test]
fn delay_update_mid_suspension_takes_effect_next_cycle() {
    // The cell starts at 2000 ms; at t=500 ms it is updated to 1700 ms.
    // The in-flight suspension still ends at t=2000; the next one uses the
    // new value and ends at t=3700.
    let wakes = simulate_wake_times(2000, &vec![(500, 1700)], 2);
    assert_eq!(wakes, vec![2000, 3700]);
}

#[test]
fn steady_delay_gives_evenly_spaced_wakes() {
    let wakes = simulate_wake_times(2000, &vec![], 3);
    assert_eq!(wakes, vec![2000, 4000, 6000]);
}

#[test]
fn write_at_wake_instant_is_seen_by_the_next_cycle() {
    // A write landing exactly when a suspension ends is read by the cycle
    // that begins at that instant.
    let wakes = simulate_wake_times(2000, &vec![(2000, 300)], 3);
    assert_eq!(wakes, vec![2000, 2300, 2600]);
}

#[test]
fn several_updates_each_take_effect_at_the_following_cycle() {
    let wakes = simulate_wake_times(1000, &vec![(100, 500), (1200, 200)], 4);
    // Cycle 1 still sleeps 1000; cycle 2 reads 500 at t=1000; cycle 3 reads
    // 200 at t=1500; cycle 4 reads 200 again.
    assert_eq!(wakes, vec![1000, 1500, 1700, 1900]);
}

#[test]
fn zero_delay_degenerates_to_back_to_back_cycles() {
    // A cell holding 0 makes the task busy-loop: every suspension ends the
    // instant it begins.
    let wakes = simulate_wake_times(0, &vec![], 3);
    assert_eq!(wakes, vec![0, 0, 0]);
    let wakes = simulate_wake_times(0, &vec![(1, 100)], 3);
    assert_eq!(wakes, vec![0, 0, 0]);
}

#[test]
fn six_presses_wrap_the_delay_back_to_start() {
    let mut cell = StateCell::new(2000);
    let mut ctrl = Controller::new();
    let expected = [1700, 1400, 1100, 800, 500, 2000];
    for (i, want) in expected.iter().enumerate() {
        let msg = ctrl.on_press(&mut cell);
        assert_eq!(ctrl.current_delay_ms(), *want);
        assert_eq!(cell.read(), *want);
        assert_eq!(msg, format!("{:02}\n", i).into_bytes());
    }
    // After exactly six presses the observable delay is 2000, not 200.
    assert_eq!(cell.read(), 2000);
    assert_eq!(ctrl.press_count(), 6);
}

#[test]
fn next_delay_steps_and_resets() {
    assert_eq!(next_delay(2000), 1700);
    assert_eq!(next_delay(1700), 1400);
    assert_eq!(next_delay(800), 500);
    // 500 - 300 = 200 is strictly below the floor: reset.
    assert_eq!(next_delay(500), 2000);
    // 799 - 300 = 499 is strictly below the floor: reset.
    assert_eq!(next_delay(799), 2000);
    // 800 - 300 = 500 is exactly the floor: no reset.
    assert_eq!(next_delay(800), 500);
}

#[test]
fn press_counter_wraps_modulo_256() {
    let mut cell = StateCell::new(2000);
    let mut ctrl = Controller::new();
    for _ in 0..256 {
        ctrl.on_press(&mut cell);
    }
    assert_eq!(ctrl.press_count(), 0);
    let msg = ctrl.on_press(&mut cell);
    assert_eq!(msg, b"00\n".to_vec());
}

#[test]
fn led_cycle_reads_cell_and_toggles() {
    let cell = StateCell::new(300);
    let mut led = Blinker::new(false);
    let sleep = led_cycle(&cell, &mut led);
    assert_eq!(sleep, 300);
    assert!(led.is_lit());
    let sleep = led_cycle(&cell, &mut led);
    assert_eq!(sleep, 300);
    assert!(!led.is_lit());
}

#[test]
fn polled_button_drives_led_by_level() {
    // Pull-down wiring: high means unpressed.
    assert!(!led_for_button_level(true));
    assert!(led_for_button_level(false));
}

#[test]
fn edges_drive_led_by_direction() {
    assert!(!led_after_edge(EdgeKind::Rising));
    assert!(led_after_edge(EdgeKind::Falling));
}

#[test]
fn blinker_set_overrides_state() {
    let mut led = Blinker::new(true);
    led.set(false);
    assert!(!led.is_lit());
    led.set(true);
    assert!(led.is_lit());
    led.toggle();
    assert!(!led.is_lit());
}
