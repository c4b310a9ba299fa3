use settings_audit::ioc::{Suspicion, SuspicionLevel};
use settings_audit::rules::{evaluate, standard_rules, Condition, Rule};
use settings_audit::settings::Settings;

fn single(key: &str, value: &str) -> Settings {
    let mut settings = Settings::new();
    settings.insert(key.to_string(), value.to_string());
    settings
}

fn sorted(mut found: Vec<Suspicion>) -> Vec<(u8, String)> {
    let mut out: Vec<(u8, String)> =
        found.drain(..).map(|s| (s.level.rank(), s.description)).collect();
    out.sort();
    out
}

#[test]
fn verifier_disabled_is_high() {
    let found = single("package_verifier_enable", "0").audit();
    assert_eq!(found.len(), 1);
    assert_eq!(found[0].level, SuspicionLevel::High);
    assert_eq!(found[0].description, "Google Play Protect is turned off");
}

#[test]
fn verifier_enabled_raises_nothing() {
    let found = single("package_verifier_enable", "1").audit();
    assert!(found.is_empty());
}

#[test]
fn consent_given_is_good() {
    let found = single("package_verifier_user_consent", "1").audit();
    assert_eq!(found.len(), 1);
    assert_eq!(found[0].level, SuspicionLevel::Good);
    assert_eq!(
        found[0].description,
        "Scanning apps with Google Play Protect is enabled"
    );
}

#[test]
fn consent_withheld_is_high() {
    let found = single("package_verifier_user_consent", "0").audit();
    assert_eq!(found.len(), 1);
    assert_eq!(found[0].level, SuspicionLevel::High);
    assert_eq!(
        found[0].description,
        "Scanning apps with Google Play Protect is disabled"
    );
}

#[test]
fn upload_disabled_is_high() {
    let found = single("upload_apk_enable", "0").audit();
    assert_eq!(found.len(), 1);
    assert_eq!(found[0].level, SuspicionLevel::High);
    assert_eq!(
        found[0].description,
        "Automatic upload of suspicious apps to Google Play has been disabled"
    );
}

#[test]
fn upload_enabled_raises_nothing() {
    assert!(single("upload_apk_enable", "1").audit().is_empty());
}

#[test]
fn unknown_key_raises_nothing() {
    assert!(single("unknown_key", "1").audit().is_empty());
    assert!(single("unknown_key", "0").audit().is_empty());
}

#[test]
fn empty_settings_raise_nothing() {
    assert!(Settings::new().audit().is_empty());
}

#[test]
fn odd_values_count_as_not_one() {
    for value in ["", "true", "01", "1 ", " 1", "11", "-1", "\u{661}"] {
        let found = single("package_verifier_enable", value).audit();
        assert_eq!(found.len(), 1, "value {:?}", value);
        assert_eq!(found[0].level, SuspicionLevel::High);
        let found = single("package_verifier_user_consent", value).audit();
        assert_eq!(found.len(), 1);
        assert_eq!(found[0].level, SuspicionLevel::High);
        let found = single("upload_apk_enable", value).audit();
        assert_eq!(found.len(), 1);
        assert_eq!(found[0].level, SuspicionLevel::High);
    }
}

#[test]
fn keys_match_exactly() {
    for key in [
        "package_verifier_enabl",
        "package_verifier_enable ",
        "Package_verifier_enable",
        "package_verifier_enabled",
        "upload_apk_enabl\u{e9}",
        "",
    ] {
        assert!(single(key, "0").audit().is_empty(), "key {:?}", key);
    }
}

#[test]
fn findings_follow_the_order_of_the_entries() {
    let mut settings = Settings::new();
    settings.insert("upload_apk_enable".to_string(), "0".to_string());
    settings.insert("adb_enabled".to_string(), "1".to_string());
    settings.insert("package_verifier_user_consent".to_string(), "1".to_string());
    settings.insert("package_verifier_enable".to_string(), "0".to_string());
    let found = settings.audit();
    assert_eq!(found.len(), 3);
    assert_eq!(
        found[0],
        Suspicion {
            level: SuspicionLevel::High,
            description: "Automatic upload of suspicious apps to Google Play has been disabled"
                .to_string(),
        }
    );
    assert_eq!(
        found[1],
        Suspicion {
            level: SuspicionLevel::Good,
            description: "Scanning apps with Google Play Protect is enabled".to_string(),
        }
    );
    assert_eq!(
        found[2],
        Suspicion {
            level: SuspicionLevel::High,
            description: "Google Play Protect is turned off".to_string(),
        }
    );
}

#[test]
fn audit_twice_gives_the_same() {
    let mut a = Settings::new();
    let mut b = Settings::new();
    for (key, value) in [
        ("package_verifier_enable", "0"),
        ("package_verifier_user_consent", "-1"),
        ("upload_apk_enable", "1"),
        ("other", "x"),
    ] {
        a.insert(key.to_string(), value.to_string());
        b.insert(key.to_string(), value.to_string());
    }
    assert_eq!(a.audit(), a.audit());
    assert_eq!(a.audit(), b.audit());
    assert_eq!(a.audit(), a.clone().audit());
}

#[test]
fn equal_mappings_give_the_same_findings_order_aside() {
    let mut a = Settings::new();
    a.insert("package_verifier_enable".to_string(), "0".to_string());
    a.insert("package_verifier_user_consent".to_string(), "1".to_string());
    let mut b = Settings::new();
    b.insert("package_verifier_user_consent".to_string(), "1".to_string());
    b.insert("package_verifier_enable".to_string(), "0".to_string());
    assert_ne!(a.audit(), b.audit());
    assert_eq!(sorted(a.audit()), sorted(b.audit()));
}

#[test]
fn audit_of_a_union_is_the_union_of_the_audits() {
    let cases = [
        (("package_verifier_enable", "0"), ("upload_apk_enable", "0")),
        (("package_verifier_enable", "1"), ("package_verifier_user_consent", "1")),
        (("package_verifier_user_consent", "0"), ("unknown_key", "1")),
        (("a", "1"), ("b", "0")),
    ];
    for (first, second) in cases {
        let a = single(first.0, first.1);
        let b = single(second.0, second.1);
        let mut both = single(first.0, first.1);
        both.insert(second.0.to_string(), second.1.to_string());
        let mut other_way = single(second.0, second.1);
        other_way.insert(first.0.to_string(), first.1.to_string());
        let mut apart = a.audit();
        apart.extend(b.audit());
        assert_eq!(sorted(both.audit()), sorted(apart.clone()));
        assert_eq!(sorted(other_way.audit()), sorted(apart));
    }
}

#[test]
fn each_entry_raises_at_most_one_finding() {
    let mut settings = Settings::new();
    settings.insert("package_verifier_user_consent".to_string(), "1".to_string());
    assert_eq!(settings.audit().len(), 1);
    settings.insert("package_verifier_user_consent".to_string(), "0".to_string());
    assert_eq!(settings.audit().len(), 1);
    assert_eq!(settings.audit()[0].level, SuspicionLevel::High);
}

#[test]
fn standard_table_has_the_four_rows() {
    let table = standard_rules();
    assert_eq!(table.len(), 4);
    let rows: Vec<(&str, Condition, &str, SuspicionLevel)> = table
        .iter()
        .map(|r| (r.key, r.condition, r.expected, r.level))
        .collect();
    assert_eq!(
        rows,
        vec![
            ("package_verifier_enable", Condition::Differs, "1", SuspicionLevel::High),
            ("package_verifier_user_consent", Condition::Equals, "1", SuspicionLevel::Good),
            ("package_verifier_user_consent", Condition::Differs, "1", SuspicionLevel::High),
            ("upload_apk_enable", Condition::Differs, "1", SuspicionLevel::High),
        ]
    );
}

#[test]
fn evaluate_takes_the_first_rule_that_fires() {
    let table = vec![
        Rule {
            key: "adb_enabled",
            condition: Condition::Equals,
            expected: "1",
            level: SuspicionLevel::Medium,
            description: "first",
        },
        Rule {
            key: "adb_enabled",
            condition: Condition::Differs,
            expected: "0",
            level: SuspicionLevel::Low,
            description: "second",
        },
    ];
    let found = evaluate(&table, "adb_enabled", "1").unwrap();
    assert_eq!(found.level, SuspicionLevel::Medium);
    assert_eq!(found.description, "first");
    let found = evaluate(&table, "adb_enabled", "2").unwrap();
    assert_eq!(found.level, SuspicionLevel::Low);
    assert_eq!(found.description, "second");
    assert_eq!(evaluate(&table, "adb_enabled", "0"), None);
    assert_eq!(evaluate(&table, "adb", "1"), None);
    assert_eq!(evaluate(&Vec::new(), "adb_enabled", "1"), None);
}

#[test]
fn rule_fires_on_its_key_and_condition() {
    let rule = Rule {
        key: "k",
        condition: Condition::Equals,
        expected: "yes",
        level: SuspicionLevel::Low,
        description: "d",
    };
    assert!(rule.fires("k", "yes"));
    assert!(!rule.fires("k", "no"));
    assert!(!rule.fires("j", "yes"));
    let rule = Rule { condition: Condition::Differs, ..rule };
    assert!(!rule.fires("k", "yes"));
    assert!(rule.fires("k", "no"));
    assert!(!rule.fires("j", "no"));
    assert_eq!(
        rule.finding(),
        Suspicion { level: SuspicionLevel::Low, description: "d".to_string() }
    );
}

#[test]
fn audit_with_a_table_of_ones_own() {
    let table = vec![Rule {
        key: "adb_enabled",
        condition: Condition::Equals,
        expected: "1",
        level: SuspicionLevel::Medium,
        description: "USB debugging is on",
    }];
    let mut settings = Settings::new();
    settings.insert("package_verifier_enable".to_string(), "0".to_string());
    settings.insert("adb_enabled".to_string(), "1".to_string());
    let found = settings.audit_with(&table);
    assert_eq!(
        found,
        vec![Suspicion {
            level: SuspicionLevel::Medium,
            description: "USB debugging is on".to_string(),
        }]
    );
    assert!(settings.audit_with(&Vec::new()).is_empty());
    assert_eq!(settings.audit_with(&standard_rules()), settings.audit());
}

#[test]
fn levels_are_ordered() {
    assert!(SuspicionLevel::Good < SuspicionLevel::Low);
    assert!(SuspicionLevel::Low < SuspicionLevel::Medium);
    assert!(SuspicionLevel::Medium < SuspicionLevel::High);
    assert_eq!(SuspicionLevel::Good.rank(), 0);
    assert_eq!(SuspicionLevel::Low.rank(), 1);
    assert_eq!(SuspicionLevel::Medium.rank(), 2);
    assert_eq!(SuspicionLevel::High.rank(), 3);
    assert!(!SuspicionLevel::Good.is_risk());
    assert!(SuspicionLevel::Low.is_risk());
    assert!(SuspicionLevel::Medium.is_risk());
    assert!(SuspicionLevel::High.is_risk());
}
