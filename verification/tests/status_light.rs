use weather_sensor::led::{blink_step, initial_level, level_line, toggled, BlinkStep, PinLevel, BLINK_PERIOD_MS};

#[test]
fn light_starts_off() {
    assert_eq!(initial_level(), PinLevel::High);
}

#[test]
fn toggling_changes_the_level() {
    assert_eq!(toggled(PinLevel::High), PinLevel::Low);
    assert_eq!(toggled(PinLevel::Low), PinLevel::High);
}

#[test]
fn toggling_twice_restores_the_level() {
    for level in [PinLevel::Low, PinLevel::High] {
        assert_eq!(toggled(toggled(level)), level);
    }
}

#[test]
fn level_lines_are_exact() {
    assert_eq!(level_line(PinLevel::High), "pin level is High");
    assert_eq!(level_line(PinLevel::Low), "pin level is Low");
}

#[test]
fn blink_round_pauses_toggles_and_tells() {
    assert_eq!(BLINK_PERIOD_MS, 1000);
    assert_eq!(
        blink_step(PinLevel::High),
        BlinkStep { sleep_ms: 1000, level: PinLevel::Low, line: String::from("pin level is Low") }
    );
    assert_eq!(
        blink_step(PinLevel::Low),
        BlinkStep { sleep_ms: 1000, level: PinLevel::High, line: String::from("pin level is High") }
    );
}

#[test]
fn blinker_alternates_from_the_start() {
    let mut level = initial_level();
    let mut lines = Vec::new();
    for _ in 0..4 {
        let step = blink_step(level);
        level = step.level;
        lines.push(step.line);
    }
    assert_eq!(
        lines,
        vec!["pin level is Low", "pin level is High", "pin level is Low", "pin level is High"]
    );
    assert_eq!(level, PinLevel::High);
}
