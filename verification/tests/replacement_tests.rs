use vnkey::replacement::{
    deliver_replacement, replace_with_fallback, should_reset_for_keycode, BackendCall,
    ReplacementBackend,
    ReplacementCapabilityCache, ReplacementPolicy,
};

#[derive(Default)]
struct FakeBackend {
    accessibility_succeeds: bool,
    accessibility_calls: usize,
    cgevent_calls: usize,
}

impl ReplacementBackend for FakeBackend {
    fn calls(&self) -> vstd::seq::Seq<BackendCall> {
        unreachable!()
    }

    fn try_accessibility(&mut self, _backspaces: usize, _text: &str) -> bool {
        self.accessibility_calls += 1;
        self.accessibility_succeeds
    }

    fn send_cgevent(&mut self, _backspaces: usize, _text: &str) {
        self.cgevent_calls += 1;
    }
}

#[test]
fn macos_replacement_tries_accessibility_for_text_fields() {
    let cache = ReplacementCapabilityCache::new(4);
    assert!(ReplacementPolicy::should_try_accessibility(
        &cache,
        "com.apple.TextEdit",
        Some("AXTextArea"),
        false,
    ));
}

#[test]
fn macos_replacement_rejects_secure_fields_and_forced_fallback() {
    let cache = ReplacementCapabilityCache::new(4);
    assert!(!ReplacementPolicy::should_try_accessibility(
        &cache,
        "com.apple.Safari",
        Some("AXSecureTextField"),
        false,
    ));
    assert!(!ReplacementPolicy::should_try_accessibility(
        &cache,
        "com.apple.TextEdit",
        Some("AXTextArea"),
        true,
    ));
}

#[test]
fn macos_replacement_cache_tracks_failures_and_app_changes() {
    let mut cache = ReplacementCapabilityCache::new(2);
    cache.mark_unsupported("app.one", "AXTextArea");
    assert!(cache.is_unsupported("app.one", "AXTextArea"));

    cache.invalidate_for_app("app.two");
    assert!(!cache.is_unsupported("app.one", "AXTextArea"));

    cache.mark_unsupported("app.two", "role.one");
    cache.mark_unsupported("app.two", "role.two");
    cache.mark_unsupported("app.two", "role.three");
    assert!(!cache.is_unsupported("app.two", "role.one"));
    assert!(cache.is_unsupported("app.two", "role.three"));
    assert_eq!(cache.len(), 2);
}

#[test]
fn replacement_strategy_stops_after_accessibility_success() {
    let mut backend = FakeBackend {
        accessibility_succeeds: true,
        ..Default::default()
    };
    assert!(replace_with_fallback(&mut backend, true, 1, "ờ"));
    assert_eq!(backend.accessibility_calls, 1);
    assert_eq!(backend.cgevent_calls, 0);
}

#[test]
fn replacement_strategy_falls_back_once_after_accessibility_failure() {
    let mut backend = FakeBackend::default();
    assert!(!replace_with_fallback(&mut backend, true, 1, "ờ"));
    assert_eq!(backend.accessibility_calls, 1);
    assert_eq!(backend.cgevent_calls, 1);
}

#[test]
fn replacement_strategy_skips_accessibility_when_policy_rejects_it() {
    let mut backend = FakeBackend::default();
    assert!(!replace_with_fallback(&mut backend, false, 1, "ờ"));
    assert_eq!(backend.accessibility_calls, 0);
    assert_eq!(backend.cgevent_calls, 1);
}

#[test]
fn reset_for_keycode_covers_navigation_and_editing() {
    let reset_keycodes = [51, 36, 48, 53, 117, 123, 124, 125, 126, 115, 119, 116, 121];
    for keycode in reset_keycodes {
        assert!(should_reset_for_keycode(keycode), "keycode={keycode}");
    }
    assert!(!should_reset_for_keycode(0));
}

#[test]
fn delivery_records_failed_accessibility_and_falls_back() {
    let mut cache = ReplacementCapabilityCache::new(4);
    let mut backend = FakeBackend::default();
    assert!(!deliver_replacement(&mut backend, &mut cache, "app.one", Some("AXTextArea"), false, 1, "â"));
    assert_eq!((backend.accessibility_calls, backend.cgevent_calls), (1, 1));
    assert!(cache.is_unsupported("app.one", "AXTextArea"));
    assert!(!deliver_replacement(&mut backend, &mut cache, "app.one", Some("AXTextArea"), false, 1, "â"));
    assert_eq!((backend.accessibility_calls, backend.cgevent_calls), (1, 2));
    backend.accessibility_succeeds = true;
    assert!(deliver_replacement(&mut backend, &mut cache, "app.two", Some("AXTextArea"), false, 1, "â"));
    assert_eq!((backend.accessibility_calls, backend.cgevent_calls), (2, 2));
    assert!(!cache.is_unsupported("app.one", "AXTextArea"));
    assert!(!deliver_replacement(&mut backend, &mut cache, "app.two", None, false, 1, "â"));
    assert_eq!((backend.accessibility_calls, backend.cgevent_calls), (2, 3));
    assert_eq!(cache.len(), 0);
}
