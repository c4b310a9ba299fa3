use settings_audit::settings::Settings;
use settings_audit::text::same_text;

#[test]
fn new_settings_are_empty() {
    let settings = Settings::new();
    assert_eq!(settings.len(), 0);
    assert_eq!(settings.get("anything"), None);
    assert_eq!(settings.get(""), None);
}

#[test]
fn insert_then_get() {
    let mut settings = Settings::new();
    assert_eq!(settings.insert("a".to_string(), "1".to_string()), None);
    assert_eq!(settings.insert("b".to_string(), "2".to_string()), None);
    assert_eq!(settings.len(), 2);
    assert_eq!(settings.get("a"), Some(&"1".to_string()));
    assert_eq!(settings.get("b"), Some(&"2".to_string()));
    assert_eq!(settings.get("c"), None);
}

#[test]
fn insert_replaces_and_returns_the_old_value() {
    let mut settings = Settings::new();
    settings.insert("a".to_string(), "1".to_string());
    settings.insert("b".to_string(), "2".to_string());
    assert_eq!(
        settings.insert("a".to_string(), "3".to_string()),
        Some("1".to_string())
    );
    assert_eq!(settings.len(), 2);
    assert_eq!(settings.get("a"), Some(&"3".to_string()));
    assert_eq!(settings.get("b"), Some(&"2".to_string()));
}

#[test]
fn a_replaced_key_keeps_its_place() {
    let mut settings = Settings::new();
    settings.insert("package_verifier_enable".to_string(), "1".to_string());
    settings.insert("upload_apk_enable".to_string(), "0".to_string());
    settings.insert("package_verifier_enable".to_string(), "0".to_string());
    let found = settings.audit();
    assert_eq!(found.len(), 2);
    assert_eq!(found[0].description, "Google Play Protect is turned off");
    assert_eq!(
        found[1].description,
        "Automatic upload of suspicious apps to Google Play has been disabled"
    );
}

#[test]
fn clone_keeps_the_entries() {
    let mut settings = Settings::new();
    settings.insert("a".to_string(), "1".to_string());
    settings.insert("upload_apk_enable".to_string(), "0".to_string());
    let mut copy = settings.clone();
    assert_eq!(copy.len(), 2);
    assert_eq!(copy.get("a"), Some(&"1".to_string()));
    assert_eq!(copy.audit(), settings.audit());
    copy.insert("a".to_string(), "2".to_string());
    assert_eq!(settings.get("a"), Some(&"1".to_string()));
    assert_eq!(copy.get("a"), Some(&"2".to_string()));
}

#[test]
fn keys_may_hold_any_text() {
    let mut settings = Settings::new();
    settings.insert("".to_string(), "empty".to_string());
    settings.insert("cl\u{e9}".to_string(), "\u{1f600}".to_string());
    settings.insert("cle\u{301}".to_string(), "other".to_string());
    assert_eq!(settings.len(), 3);
    assert_eq!(settings.get(""), Some(&"empty".to_string()));
    assert_eq!(settings.get("cl\u{e9}"), Some(&"\u{1f600}".to_string()));
    assert_eq!(settings.get("cle\u{301}"), Some(&"other".to_string()));
    assert_eq!(settings.get("cle"), None);
}

#[test]
fn same_text_compares_characters() {
    assert!(same_text("", ""));
    assert!(same_text("abc", "abc"));
    assert!(!same_text("abc", "abd"));
    assert!(!same_text("abc", "ab"));
    assert!(!same_text("ab", "abc"));
    assert!(!same_text("", "a"));
    assert!(same_text("\u{e9}\u{1f600}", "\u{e9}\u{1f600}"));
    assert!(!same_text("\u{e9}", "e\u{301}"));
    assert!(!same_text("1", "\u{661}"));
}
