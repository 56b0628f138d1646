use fan_controller::control::{
    run_tick, toggle_on_edge, EdgeDetector, TickFaults, TELEMETRY_FRAME_LEN,
};
use fan_controller::mode::Mode;
use fan_controller::output::{fan_power_for, frame_for, FanPower, Rgb, FAN_POWER_MAX};
use fan_controller::schedule::{next_deadline, TICK_PERIOD_MS};

fn deep_red() -> Rgb {
    Rgb { red: 128, green: 0, blue: 0 }
}

fn deep_blue() -> Rgb {
    Rgb { red: 0, green: 0, blue: 128 }
}

#[test]
fn outputs_are_total_and_in_range() {
    let auto_power = fan_power_for(Mode::Auto);
    let manual_power = fan_power_for(Mode::Manual);
    assert_eq!(auto_power.get(), 0);
    assert_eq!(manual_power.get(), 63);
    assert!(auto_power.get() <= FAN_POWER_MAX);
    assert!(manual_power.get() <= FAN_POWER_MAX);

    let auto_frame = frame_for(Mode::Auto);
    assert_eq!(auto_frame.first, deep_red());
    assert_eq!(auto_frame.second, deep_red());
    let manual_frame = frame_for(Mode::Manual);
    assert_eq!(manual_frame.first, deep_blue());
    assert_eq!(manual_frame.second, deep_blue());
}

#[test]
fn outputs_are_deterministic() {
    assert_eq!(fan_power_for(Mode::Auto), fan_power_for(Mode::Auto));
    assert_eq!(fan_power_for(Mode::Manual), fan_power_for(Mode::Manual));
    assert_eq!(frame_for(Mode::Auto), frame_for(Mode::Auto));
    assert_eq!(frame_for(Mode::Manual), frame_for(Mode::Manual));
}

#[test]
fn fan_power_rejects_out_of_range() {
    assert!(FanPower::new(64).is_none());
    assert!(FanPower::new(255).is_none());
    let p = FanPower::new(63).expect("63 is the largest legal duty");
    assert_eq!(p.get(), 63);
    let z = FanPower::new(0).expect("0 is a legal duty");
    assert_eq!(z.get(), 0);
}

#[test]
fn same_mode_twice_gives_identical_outputs() {
    for start in [Mode::Auto, Mode::Manual] {
        let first = run_tick(start, false, TickFaults::none());
        let second = run_tick(first.next_mode, false, TickFaults::none());
        assert_eq!(first.next_mode, start);
        assert_eq!(second.fan_power, first.fan_power);
        assert_eq!(second.frame, first.frame);
        assert_eq!(second.next_mode, first.next_mode);
    }
}

#[test]
fn even_number_of_toggles_round_trips() {
    for start in [Mode::Auto, Mode::Manual] {
        // via the level-polled variant
        let mut mode = start;
        for _ in 0..4 {
            mode = run_tick(mode, true, TickFaults::none()).next_mode;
        }
        assert_eq!(mode, start);

        // via the edge-triggered variant: two full presses
        let mut detector = EdgeDetector::new(false);
        let mut mode = start;
        for level in [true, false, true, false] {
            mode = toggle_on_edge(&mut detector, mode, level);
        }
        assert_eq!(mode, start);
    }
}

#[test]
fn level_held_toggles_once_per_tick() {
    // Holding the button asserted across N ticks toggles N times, not once:
    // the mode alternates every tick. Specified behavior, not a bug.
    let mut mode = Mode::Auto;
    let mut expected = Mode::Auto;
    for _ in 0..5 {
        mode = run_tick(mode, true, TickFaults::none()).next_mode;
        expected = match expected {
            Mode::Auto => Mode::Manual,
            Mode::Manual => Mode::Auto,
        };
        assert_eq!(mode, expected);
    }
}

#[test]
fn edge_variant_toggles_once_per_rising_edge() {
    // The line: low, then held high for four samples, low, high again.
    let levels = [false, true, true, true, true, false, true];
    let mut detector = EdgeDetector::new(false);
    let mut mode = Mode::Auto;
    for level in levels {
        mode = toggle_on_edge(&mut detector, mode, level);
    }
    // Two rising edges seen, so two toggles: back to Auto.
    assert_eq!(mode, Mode::Auto);

    // One edge then held asserted: exactly one toggle however long it stays.
    let mut detector = EdgeDetector::new(false);
    let mut mode = Mode::Auto;
    for level in [true, true, true, true, true] {
        mode = toggle_on_edge(&mut detector, mode, level);
    }
    assert_eq!(mode, Mode::Manual);
}

#[test]
fn edge_detector_ignores_line_already_asserted_at_startup() {
    let mut detector = EdgeDetector::new(true);
    let mut mode = Mode::Auto;
    mode = toggle_on_edge(&mut detector, mode, true);
    assert_eq!(mode, Mode::Auto);
    // Only after a release does the next assert count as an edge.
    mode = toggle_on_edge(&mut detector, mode, false);
    assert_eq!(mode, Mode::Auto);
    mode = toggle_on_edge(&mut detector, mode, true);
    assert_eq!(mode, Mode::Manual);
}

#[test]
fn sensor_fault_does_not_change_the_tick() {
    let all_faults = TickFaults {
        fan_power_write_failed: true,
        rpm_read_failed: true,
        internal_temp_read_failed: true,
        external_temp_read_failed: true,
    };
    let clean = run_tick(Mode::Auto, true, TickFaults::none());
    let faulty = run_tick(Mode::Auto, true, all_faults);
    // The faults reach the diagnostic log and nothing else.
    assert_eq!(faulty.logged_faults, all_faults);
    assert_eq!(faulty.fan_power, clean.fan_power);
    assert_eq!(faulty.frame, clean.frame);
    assert_eq!(faulty.next_mode, clean.next_mode);
    assert!(faulty.fan_write_issued);
    assert!(faulty.frame_write_issued);
    assert!(faulty.diagnostics_issued);
}

#[test]
fn cadence_is_anchored_to_deadlines_not_to_work() {
    // Mock clock: each tick's work takes a different while; the wake time is
    // computed from the previous deadline, so the gaps stay exactly one
    // period across ten consecutive ticks.
    let start: u64 = 17;
    let work_times: [u64; 10] = [0, 3, 250, 999, 1, 42, 7, 500, 100, 999];
    let mut deadline = start;
    let mut frame_write_times: Vec<u64> = Vec::new();
    for work in work_times {
        let now_after_work = deadline + work; // stays inside the period
        assert!(now_after_work < deadline + TICK_PERIOD_MS);
        frame_write_times.push(deadline);
        deadline = next_deadline(deadline);
    }
    for pair in frame_write_times.windows(2) {
        assert_eq!(pair[1] - pair[0], TICK_PERIOD_MS);
    }
    assert_eq!(deadline, start + 10 * TICK_PERIOD_MS);
}

#[test]
fn concrete_scenario() {
    // Mode starts Auto: fan idle, both pixels deep red.
    let mode = Mode::Auto;
    let tick0 = run_tick(mode, false, TickFaults::none());
    assert_eq!(tick0.next_mode, Mode::Auto);
    assert_eq!(tick0.fan_power.get(), 0);
    assert_eq!(tick0.frame.first, deep_red());
    assert_eq!(tick0.frame.second, deep_red());

    // Input asserted once: Manual, fan full, both pixels deep blue.
    let tick1 = run_tick(tick0.next_mode, true, TickFaults::none());
    assert_eq!(tick1.next_mode, Mode::Manual);
    assert_eq!(tick1.fan_power.get(), 63);
    assert_eq!(tick1.frame.first, deep_blue());
    assert_eq!(tick1.frame.second, deep_blue());

    // Fan-power write forced to fail once: the frame write is still issued
    // and the next tick proceeds normally.
    let faults = TickFaults {
        fan_power_write_failed: true,
        rpm_read_failed: false,
        internal_temp_read_failed: false,
        external_temp_read_failed: false,
    };
    let tick2 = run_tick(tick1.next_mode, false, faults);
    assert!(tick2.frame_write_issued);
    assert_eq!(tick2.next_mode, Mode::Manual);
    let tick3 = run_tick(tick2.next_mode, false, TickFaults::none());
    assert_eq!(tick3.next_mode, Mode::Manual);
    assert_eq!(tick3.fan_power.get(), 63);
    assert_eq!(tick3.frame.first, deep_blue());
}

#[test]
fn telemetry_frame_is_three_raw_bytes() {
    let frame = [0u8; TELEMETRY_FRAME_LEN];
    assert_eq!(frame.len(), 3);
}
