use kaspa_ng::notifications::{Glyph, Notifications, Tone, UserNotification, UserNotifyKind};

#[test]
fn user_notification_defaults() {
    let n = UserNotification::info("hello".to_string());
    assert_eq!(n.kind, UserNotifyKind::Info);
    assert_eq!(n.message, "hello");
    assert_eq!(n.duration, Some(3500));
    assert!(n.progress);
    assert!(!n.closable);
    assert!(!n.is_toast());
    let d = UserNotification::default();
    assert_eq!(d.kind, UserNotifyKind::Info);
    assert_eq!(d.message, "");
    assert_eq!(d.duration, Some(3500));
}

#[test]
fn user_notification_builders() {
    let e = UserNotification::error("boom".to_string());
    assert_eq!(e.kind, UserNotifyKind::Error);
    assert_eq!(e.duration, Some(5000));
    let s = UserNotification::success("ok".to_string()).short();
    assert_eq!(s.kind, UserNotifyKind::Success);
    assert_eq!(s.duration, Some(1500));
    let w = UserNotification::warning("careful".to_string()).duration(42).as_toast();
    assert_eq!(w.kind, UserNotifyKind::Warning);
    assert_eq!(w.duration, Some(42));
    assert!(w.is_toast());
    assert_eq!(w.message, "careful");
}

#[test]
fn user_notification_icon_and_text() {
    assert_eq!(UserNotification::info("a".to_string()).icon(), (Glyph::Info, Tone::Info));
    assert_eq!(UserNotification::success("a".to_string()).icon(), (Glyph::Info, Tone::Strong));
    assert_eq!(UserNotification::warning("a".to_string()).icon(), (Glyph::Warning, Tone::Warning));
    assert_eq!(UserNotification::error("a".to_string()).icon(), (Glyph::SealWarning, Tone::Error));
    assert_eq!(UserNotification::info("m".to_string()).text(), ("m".to_string(), Tone::Plain));
    assert_eq!(UserNotification::success("m".to_string()).text(), ("m".to_string(), Tone::Plain));
    assert_eq!(UserNotification::warning("m".to_string()).text(), ("m".to_string(), Tone::Warning));
    assert_eq!(UserNotification::error("m".to_string()).text(), ("m".to_string(), Tone::Error));
}

#[test]
fn user_notify_kind_texts() {
    assert_eq!(UserNotifyKind::Info.to_string(), "info");
    assert_eq!(UserNotifyKind::Success.to_string(), "success");
    assert_eq!(UserNotifyKind::Warning.to_string(), "warning");
    assert_eq!(UserNotifyKind::Error.to_string(), "error");
    assert_eq!(UserNotifyKind::Error.label(), "ERROR");
}

#[test]
fn notifications_push_sets_flags() {
    let mut list = Notifications::new();
    assert!(!list.has_some());
    assert_eq!(list.indicator(), (Glyph::Info, Tone::Plain));
    list.push(UserNotification::success("done".to_string()));
    assert!(list.has_some());
    assert!(!list.errors && !list.warnings && !list.infos);
    list.push(UserNotification::info("fyi".to_string()));
    assert!(list.infos);
    assert_eq!(list.indicator(), (Glyph::Info, Tone::Info));
    list.push(UserNotification::warning("hmm".to_string()));
    assert_eq!(list.indicator(), (Glyph::Warning, Tone::Warning));
    list.push(UserNotification::error("bad".to_string()));
    assert_eq!(list.indicator(), (Glyph::SealWarning, Tone::Error));
    list.push(UserNotification::info("more".to_string()));
    assert_eq!(list.indicator(), (Glyph::SealWarning, Tone::Error));
    assert_eq!(list.notifications.len(), 5);
}

#[test]
fn notifications_clear_resets() {
    let mut list = Notifications::default();
    list.push(UserNotification::error("bad".to_string()));
    assert!(list.take_popup_request());
    list.clear();
    assert!(!list.has_some());
    assert!(!list.errors && !list.warnings && !list.infos);
    assert_eq!(list.indicator(), (Glyph::Info, Tone::Plain));
    // the popup last saw one notification; now there are none
    assert_eq!(list.last_notification, 1);
    assert!(list.take_popup_request());
    assert!(!list.take_popup_request());
}

#[test]
fn notifications_popup_request() {
    let mut list = Notifications::new();
    assert!(!list.take_popup_request());
    list.push(UserNotification::info("a".to_string()));
    list.push(UserNotification::info("b".to_string()));
    assert!(list.take_popup_request());
    assert_eq!(list.last_notification, 2);
    assert!(!list.take_popup_request());
}

#[test]
fn notifications_clipboard_text() {
    let mut list = Notifications::new();
    assert_eq!(list.clipboard_text(), "");
    list.push(UserNotification::info("first".to_string()));
    assert_eq!(list.clipboard_text(), "[INFO] first");
    list.push(UserNotification::error("second".to_string()));
    list.push(UserNotification::success("third".to_string()));
    assert_eq!(list.clipboard_text(), "[INFO] first\n[ERROR] second\n[SUCCESS] third");
}
