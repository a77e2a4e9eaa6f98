use rumble_tools::toasts::{Toast, ToastLevel, ToastManager, SECOND};

#[test]
fn toasts_last_by_their_level() {
    assert_eq!(ToastLevel::Success.default_duration(), 4 * SECOND);
    assert_eq!(ToastLevel::Info.default_duration(), 4 * SECOND);
    assert_eq!(ToastLevel::Error.default_duration(), 6 * SECOND);
    assert_eq!(ToastLevel::Warning.default_duration(), 6 * SECOND);
    assert_eq!(ToastLevel::Error.color(), (0xF4, 0x43, 0x36));
}

#[test]
fn toasts_fade_in_their_last_second() {
    let toast = Toast::new("hello".to_string(), ToastLevel::Info, 10 * SECOND);
    assert_eq!(toast.elapsed(9 * SECOND), 0);
    assert_eq!(toast.opacity(10 * SECOND), SECOND);
    assert_eq!(toast.opacity(13 * SECOND), SECOND);
    assert_eq!(toast.opacity(13 * SECOND + SECOND / 2), SECOND / 2);
    assert!(!toast.is_expired(14 * SECOND - 1));
    assert!(toast.is_expired(14 * SECOND));
    assert_eq!(toast.opacity(20 * SECOND), 0);
}

#[test]
fn toasts_go_away_in_order() {
    let mut manager = ToastManager::new();
    manager.success("a".to_string(), 0);
    manager.error("b".to_string(), 0);
    manager.info("c".to_string(), SECOND);
    manager.warning("d".to_string(), SECOND);
    let texts = |toasts: &Vec<Toast>| -> Vec<String> {
        toasts.iter().map(|t| t.message.clone()).collect()
    };
    assert_eq!(texts(manager.render(3 * SECOND)), vec!["a", "b", "c", "d"]);
    assert_eq!(texts(manager.render(4 * SECOND)), vec!["b", "c", "d"]);
    assert_eq!(texts(manager.render(5 * SECOND)), vec!["b", "d"]);
    assert_eq!(texts(manager.render(6 * SECOND)), vec!["d"]);
    assert!(manager.render(7 * SECOND).is_empty());
}

#[test]
fn frames_follow_while_a_toast_is_left() {
    let mut manager = ToastManager::new();
    assert_eq!(manager.repaint_after(), None);
    manager.info("hello".to_string(), 0);
    manager.render(0);
    assert_eq!(manager.repaint_after(), Some(50));
    manager.render(3_600 * SECOND);
    assert_eq!(manager.repaint_after(), None);
}
