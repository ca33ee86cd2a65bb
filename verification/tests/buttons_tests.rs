use ttgo_3::buttons::{ButtonMonitor, LineLevel, MonitorPhase};

#[test]
fn press_fires_exactly_once_while_held() {
    let mut monitor = ButtonMonitor::new(-10);
    assert_eq!(monitor.on_level(LineLevel::Active), Some(-10));
    // The line stays at the pressed level: no further click may fire.
    assert_eq!(monitor.on_level(LineLevel::Active), None);
    assert_eq!(monitor.on_level(LineLevel::Active), None);
    assert_eq!(monitor.on_level(LineLevel::Active), None);
    assert!(matches!(monitor.phase, MonitorPhase::WaitRelease));
}

#[test]
fn release_then_new_press_fires_exactly_once_more() {
    let mut monitor = ButtonMonitor::new(10);
    assert_eq!(monitor.on_level(LineLevel::Active), Some(10));
    assert_eq!(monitor.on_level(LineLevel::Active), None);
    assert_eq!(monitor.on_level(LineLevel::Inactive), None);
    assert!(matches!(monitor.phase, MonitorPhase::WaitPress));
    assert_eq!(monitor.on_level(LineLevel::Active), Some(10));
    assert_eq!(monitor.on_level(LineLevel::Active), None);
}

#[test]
fn inactive_level_never_fires_while_waiting_for_press() {
    let mut monitor = ButtonMonitor::new(-10);
    assert_eq!(monitor.on_level(LineLevel::Inactive), None);
    assert_eq!(monitor.on_level(LineLevel::Inactive), None);
    assert!(matches!(monitor.phase, MonitorPhase::WaitPress));
    assert_eq!(monitor.on_level(LineLevel::Active), Some(-10));
}

#[test]
fn fresh_monitor_waits_for_press_with_given_step() {
    let monitor = ButtonMonitor::new(7);
    assert!(matches!(monitor.phase, MonitorPhase::WaitPress));
    assert_eq!(monitor.step, 7);
}
