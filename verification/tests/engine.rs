use fall_detector::logic::{judge, DetectionEvent, FallDetector, BUFFER_DURATION_MS};
use fall_detector::magnitude::{calculate_g_force, detect_impact, is_fall, IMPACT_THRESHOLD_G};
use fall_detector::model::{Axis, SensorData};
use fall_detector::variance::{calculate_variance, STILLNESS_THRESHOLD_VARIANCE};
use std::collections::VecDeque;

/// Thousandths of a unit, from a value in units.
fn milli(v: f64) -> i32 {
    (v * 1000.0).round() as i32
}

fn sample(x: i32, y: i32, z: i32) -> SensorData {
    SensorData { x, y, z, timestamp: 0, wifi: 0, temp: 0 }
}

/// A sample along z whose g-force is `g` thousandths of standard gravity,
/// for `g` a multiple of 5.
fn at_g(g: i32) -> SensorData {
    sample(0, 0, g / 5 * 49)
}

#[test]
fn test_g_force_calculation() {
    // Flat on a table: gravity alone along z.
    let g = calculate_g_force(milli(0.0), milli(0.0), milli(9.8));
    assert_eq!(g, 1000);

    // Weightless.
    let g_freefall = calculate_g_force(milli(0.0), milli(0.0), milli(0.0));
    assert_eq!(g_freefall, 0);
}

#[test]
fn test_fall_trigger() {
    let impact_force = 3500;
    assert!(is_fall(impact_force), "3.5G should trigger a fall alert");

    let walking_force = 1200;
    assert!(!is_fall(walking_force), "1.2G should NOT trigger a fall alert");
}

#[test]
fn g_force_rounds_down() {
    // |(3, 4, 0)| = 5 m/s^2 = 0.5102.. g
    assert_eq!(calculate_g_force(3000, 4000, 0), 510);
    assert_eq!(calculate_g_force(-3000, 0, -4000), 510);
    // |(1, 2, 2)| = 3 m/s^2 = 0.3061.. g
    assert_eq!(calculate_g_force(1000, -2000, 2000), 306);
    assert_eq!(calculate_g_force(0, 0, 9799), 999);
    assert_eq!(calculate_g_force(0, 0, 9809), 1000);
    assert_eq!(calculate_g_force(0, 0, 9810), 1001);
}

#[test]
fn g_force_ignores_the_other_fields() {
    let a = SensorData { x: 1200, y: -3400, z: 5600, timestamp: 1, wifi: -40, temp: 21500 };
    let b = SensorData { x: 1200, y: -3400, z: 5600, timestamp: 99, wifi: 0, temp: 0 };
    assert_eq!(calculate_g_force(a.x, a.y, a.z), calculate_g_force(b.x, b.y, b.z));
    assert_eq!(a.component(Axis::X), 1200);
    assert_eq!(a.component(Axis::Y), -3400);
    assert_eq!(a.component(Axis::Z), 5600);
}

#[test]
fn g_force_at_the_ends_of_the_range() {
    for v in [i32::MIN, i32::MAX] {
        let g = calculate_g_force(v, v, v) as u128;
        let s = 3 * (v as i128 * v as i128) as u128;
        assert!((98 * g) * (98 * g) <= 100 * s);
        assert!(100 * s < (98 * (g + 1)) * (98 * (g + 1)));
    }
    assert_eq!(calculate_g_force(i32::MAX, 0, 0), 219_130_984);
}

#[test]
fn impact_threshold_is_strict() {
    assert_eq!(IMPACT_THRESHOLD_G, 1600);
    assert!(!is_fall(1600));
    assert!(is_fall(1601));
    assert!(!is_fall(0));
    // exactly 1.6 g along z
    assert_eq!(calculate_g_force(0, 0, 15680), 1600);
    assert!(!detect_impact(0, 0, 15680));
    assert!(!detect_impact(0, 0, -15680));
    // a thousandth of a m/s^2 more is above it, though it still rounds to 1.6 g
    assert_eq!(calculate_g_force(0, 0, 15681), 1600);
    assert!(detect_impact(0, 0, 15681));
    assert!(detect_impact(-15681, 0, 0));
    assert!(detect_impact(9100, 9100, 9100));
    assert!(!detect_impact(9000, 9000, 9000));
    assert!(detect_impact(i32::MIN, i32::MIN, i32::MIN));
    assert!(!detect_impact(0, 0, 0));
}

#[test]
fn an_impact_just_above_the_threshold_opens_an_episode() {
    let mut detector = FallDetector::new();
    assert_eq!(detector.process_at(sample(0, 0, 15680), 0), None);
    assert!(detector.is_monitoring());
    assert_eq!(detector.process_at(sample(0, 0, 15681), 0), Some(DetectionEvent::Validating));
    assert_eq!(detector.peak(), Some(1600));
}

#[test]
fn variance_of_an_empty_window_is_zero() {
    let buffer: VecDeque<SensorData> = VecDeque::new();
    assert_eq!(calculate_variance(&buffer), 0);
    assert_eq!(judge(&buffer, 1700), DetectionEvent::CriticalFall { g_force: 1700 });
}

#[test]
fn variance_of_one_sample_is_zero() {
    let mut buffer = VecDeque::new();
    buffer.push_back(sample(-7000, 12000, 900));
    assert_eq!(calculate_variance(&buffer), 0);
}

#[test]
fn variance_adds_the_axes() {
    // x: 0 and 2 m/s^2, population variance 1; y: 0 and 4, variance 4
    let mut buffer = VecDeque::new();
    buffer.push_back(sample(0, 0, 9800));
    buffer.push_back(sample(2000, 0, 9800));
    assert_eq!(calculate_variance(&buffer), 1_000_000);
    let mut buffer = VecDeque::new();
    buffer.push_back(sample(0, 0, 9800));
    buffer.push_back(sample(2000, 4000, 9800));
    assert_eq!(calculate_variance(&buffer), 5_000_000);
    assert_eq!(judge(&buffer, 2000), DetectionEvent::NearMiss);
}

#[test]
fn variance_rounds_down() {
    // x: 0, 0, 1 m/s^2: variance 2/9
    let mut buffer = VecDeque::new();
    buffer.push_back(sample(0, 5, 5));
    buffer.push_back(sample(0, 5, 5));
    buffer.push_back(sample(1000, 5, 5));
    assert_eq!(calculate_variance(&buffer), 222_222);
}

#[test]
fn variance_of_extreme_readings() {
    let mut buffer = VecDeque::new();
    buffer.push_back(sample(i32::MIN, i32::MIN, i32::MIN));
    buffer.push_back(sample(i32::MAX, i32::MAX, i32::MAX));
    // per axis: ((2^32 - 1) / 2)^2
    let d: u128 = (1u128 << 32) - 1;
    assert_eq!(calculate_variance(&buffer), 3 * d * d / 4);
}

#[test]
fn stillness_threshold_is_strict() {
    assert_eq!(STILLNESS_THRESHOLD_VARIANCE, 3_500_000);
    // x: +-a around 0 has variance a^2
    let mut buffer = VecDeque::new();
    buffer.push_back(sample(-1870, 0, 0));
    buffer.push_back(sample(1870, 0, 0));
    assert_eq!(calculate_variance(&buffer), 3_496_900);
    assert_eq!(judge(&buffer, 1800), DetectionEvent::CriticalFall { g_force: 1800 });
    let mut buffer = VecDeque::new();
    buffer.push_back(sample(-1871, 0, 0));
    buffer.push_back(sample(1871, 0, 0));
    assert_eq!(calculate_variance(&buffer), 3_500_641);
    assert_eq!(judge(&buffer, 1800), DetectionEvent::NearMiss);
}

#[test]
fn new_detector_is_monitoring() {
    let detector = FallDetector::new();
    assert!(detector.is_monitoring());
    assert_eq!(detector.buffered(), 0);
    assert_eq!(detector.peak(), None);
}

#[test]
fn quiet_samples_change_nothing() {
    let mut detector = FallDetector::new();
    assert_eq!(detector.process_at(at_g(1000), 0), None);
    assert_eq!(detector.process_at(at_g(1600), 5000), None);
    assert!(detector.is_monitoring());
}

#[test]
fn single_impact_then_one_late_sample_is_a_fall() {
    let mut detector = FallDetector::new();
    assert_eq!(detector.process_at(at_g(1700), 10_000), Some(DetectionEvent::Validating));
    assert!(!detector.is_monitoring());
    assert_eq!(detector.buffered(), 0);
    assert_eq!(detector.peak(), Some(1700));
    // the window then holds this one sample: variance 0
    assert_eq!(
        detector.process_at(at_g(1000), 10_000 + BUFFER_DURATION_MS),
        Some(DetectionEvent::CriticalFall { g_force: 1700 })
    );
    assert!(detector.is_monitoring());
}

#[test]
fn impact_then_stillness_is_a_critical_fall() {
    let mut detector = FallDetector::new();
    let mut events = Vec::new();
    events.push(detector.process_at(at_g(500), 0));
    events.push(detector.process_at(at_g(500), 100));
    events.push(detector.process_at(at_g(1800), 200));
    for i in 1..=4 {
        events.push(detector.process_at(sample(10, -10, 9800 + i), 200 + 500 * i as i64));
    }
    assert_eq!(
        events,
        vec![
            None,
            None,
            Some(DetectionEvent::Validating),
            None,
            None,
            None,
            Some(DetectionEvent::CriticalFall { g_force: 1800 }),
        ]
    );
}

#[test]
fn impact_then_movement_is_a_near_miss() {
    let mut detector = FallDetector::new();
    let mut events = Vec::new();
    events.push(detector.process_at(at_g(1000), 0));
    events.push(detector.process_at(at_g(2000), 50));
    for i in 1..=4 {
        let z = if i % 2 == 0 { 0 } else { 9800 };
        events.push(detector.process_at(sample(0, 0, z), 50 + 500 * i as i64));
    }
    assert_eq!(
        events,
        vec![None, Some(DetectionEvent::Validating), None, None, None, Some(DetectionEvent::NearMiss)]
    );
    assert!(detector.is_monitoring());
}

#[test]
fn verdict_waits_for_the_full_window() {
    let mut detector = FallDetector::new();
    assert_eq!(detector.process_at(at_g(1800), 1_000), Some(DetectionEvent::Validating));
    assert_eq!(detector.process_at(at_g(1000), 2_999), None);
    assert_eq!(detector.buffered(), 1);
    assert_eq!(
        detector.process_at(at_g(1000), 3_000),
        Some(DetectionEvent::CriticalFall { g_force: 1800 })
    );
}

#[test]
fn a_new_episode_can_start_right_after_a_verdict() {
    for moving in [false, true] {
        let mut detector = FallDetector::new();
        assert_eq!(detector.process_at(at_g(1800), 0), Some(DetectionEvent::Validating));
        let z = if moving { 0 } else { 9800 };
        assert_eq!(detector.process_at(sample(0, 0, z), 1000), None);
        let verdict = detector.process_at(sample(0, 0, 9800), 2000);
        if moving {
            assert_eq!(verdict, Some(DetectionEvent::NearMiss));
        } else {
            assert_eq!(verdict, Some(DetectionEvent::CriticalFall { g_force: 1800 }));
        }
        assert!(detector.is_monitoring());
        assert_eq!(detector.buffered(), 0);
        assert_eq!(detector.process_at(at_g(2200), 2000), Some(DetectionEvent::Validating));
        assert_eq!(detector.peak(), Some(2200));
    }
}

#[test]
fn critical_fall_reports_the_peak_of_the_episode() {
    let mut detector = FallDetector::new();
    assert_eq!(detector.process_at(at_g(1800), 0), Some(DetectionEvent::Validating));
    // a harder knock in the middle of the window, then rest
    assert_eq!(detector.process_at(at_g(2500), 20), None);
    assert_eq!(detector.peak(), Some(2500));
    for i in 2..100 {
        assert_eq!(detector.process_at(at_g(1000), 20 * i), None);
        assert_eq!(detector.peak(), Some(2500));
    }
    assert_eq!(detector.buffered(), 99);
    assert_eq!(
        detector.process_at(at_g(1000), 2000),
        Some(DetectionEvent::CriticalFall { g_force: 2500 })
    );
}

#[test]
fn peak_can_come_with_the_last_sample() {
    let mut detector = FallDetector::new();
    assert_eq!(detector.process_at(at_g(1700), 0), Some(DetectionEvent::Validating));
    assert_eq!(
        detector.process_at(at_g(1900), 2500),
        Some(DetectionEvent::CriticalFall { g_force: 1900 })
    );
}

#[test]
fn window_is_measured_on_the_given_clock_across_its_whole_range() {
    let mut detector = FallDetector::new();
    assert_eq!(detector.process_at(at_g(1800), i64::MIN), Some(DetectionEvent::Validating));
    assert_eq!(
        detector.process_at(at_g(1000), i64::MAX),
        Some(DetectionEvent::CriticalFall { g_force: 1800 })
    );
    assert_eq!(detector.process_at(at_g(1800), i64::MAX), Some(DetectionEvent::Validating));
    assert_eq!(detector.process_at(at_g(1000), i64::MIN), None);
}

#[test]
fn process_reads_the_wall_clock() {
    let mut detector = FallDetector::new();
    assert_eq!(detector.process(at_g(1000)), None);
    assert_eq!(detector.process(at_g(1800)), Some(DetectionEvent::Validating));
    // well within two seconds of the impact
    assert_eq!(detector.process(at_g(1000)), None);
    assert_eq!(detector.buffered(), 1);
    assert_eq!(detector.peak(), Some(1800));
}
