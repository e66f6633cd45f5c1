use shaderpg::SCALE;
use shaderpg::UpdateLoop;
use shaderpg::normalize_coord;

#[test]
fn clock_fires_at_zero_and_then_once_per_interval() {
    let mut clock = UpdateLoop::new(1000);
    assert!(clock.update(0));
    assert!(!clock.update(1));
    assert!(!clock.update(999));
    assert!(clock.update(1000));
    assert!(!clock.update(1500));
    assert!(clock.update(2500));
}

#[test]
fn clock_catches_up_after_a_long_gap() {
    let mut clock = UpdateLoop::new(1000);
    assert!(clock.update(5000));
    assert!(!clock.update(5999));
    assert!(clock.update(6000));
}

#[test]
fn normalization_is_exact_fixed_point() {
    assert_eq!(normalize_coord(300, 600), SCALE / 2);
    assert_eq!(normalize_coord(600, 600), SCALE);
    assert_eq!(normalize_coord(0, 600), 0);
    // truncating division, as the fixed-point contract states
    assert_eq!(normalize_coord(1, 3), 333_333);
}

#[test]
fn normalization_against_a_zero_extent_yields_zero() {
    assert_eq!(normalize_coord(42, 0), 0);
}
