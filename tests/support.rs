use deploy_sim::config::{default_limit, CacheConfig, ListAbTestsQuery};
use deploy_sim::decimal::decimal_string;
use deploy_sim::monitor::{
    determine_update_type, format_notification_message, should_notify, SemanticVersion, UpdateInfo, UpdateType,
};
use deploy_sim::text::{str_contains, str_equal, str_starts_with};

fn version(major: u64, minor: u64, patch: u64) -> SemanticVersion {
    SemanticVersion { major, minor, patch }
}

fn update(update_type: UpdateType, is_security: bool) -> UpdateInfo {
    UpdateInfo {
        contract_name: "token".to_string(),
        current_version: "1.0.0".to_string(),
        latest_version: "2.0.0".to_string(),
        update_type,
        is_security,
    }
}

#[test]
fn decimal_rendering() {
    assert_eq!(decimal_string(0), "0");
    assert_eq!(decimal_string(7), "7");
    assert_eq!(decimal_string(1234), "1234");
    assert_eq!(decimal_string(u64::MAX), u64::MAX.to_string());
}

#[test]
fn text_searches() {
    assert!(str_contains("a_view_b", "_view"));
    assert!(!str_contains("view", "_view"));
    assert!(str_contains("abc", ""));
    assert!(str_starts_with("get_admin", "get_"));
    assert!(!str_starts_with("ge", "get_"));
    assert!(str_equal("mint", "mint"));
    assert!(!str_equal("mint", "mints"));
}

#[test]
fn update_grades() {
    assert_eq!(determine_update_type(&version(1, 2, 3), &version(2, 0, 0)), UpdateType::Major);
    assert_eq!(determine_update_type(&version(1, 2, 3), &version(1, 3, 0)), UpdateType::Minor);
    assert_eq!(determine_update_type(&version(1, 2, 3), &version(1, 2, 4)), UpdateType::Patch);
}

#[test]
fn notification_filters() {
    assert!(should_notify(&update(UpdateType::Patch, true), "Security"));
    assert!(!should_notify(&update(UpdateType::Major, false), "Security"));
    assert!(should_notify(&update(UpdateType::Major, false), "Major"));
    assert!(!should_notify(&update(UpdateType::Minor, false), "Major"));
    assert!(should_notify(&update(UpdateType::Minor, false), "Minor"));
    assert!(should_notify(&update(UpdateType::Major, false), "Minor"));
    assert!(!should_notify(&update(UpdateType::Patch, false), "Minor"));
    assert!(should_notify(&update(UpdateType::Patch, false), "All"));
    assert!(should_notify(&update(UpdateType::Patch, false), "anything"));
}

#[test]
fn notification_message_lists_each_update() {
    assert_eq!(format_notification_message(&[]), "<h1>Contract Dependency Updates</h1>");
    let html = format_notification_message(&[update(UpdateType::Major, true), update(UpdateType::Patch, false)]);
    let block = |badge: &str, kind: &str| {
        format!(
            "<div style='margin: 20px 0; padding: 15px; border-left: 4px solid #0066cc;'>\n                <h3>token {}</h3>\n                <p>Current: 1.0.0 \u{2192} Latest: 2.0.0</p>\n                <p>Update Type: {}</p>\n            </div>",
            badge, kind
        )
    };
    let expected = format!(
        "<h1>Contract Dependency Updates</h1>{}{}",
        block("<span style='color: red; font-weight: bold;'>\u{1f512} SECURITY UPDATE</span>", "Major"),
        block("", "Patch")
    );
    assert_eq!(html, expected);
}

#[test]
fn configuration_defaults() {
    let c = CacheConfig::default();
    assert!(c.enabled);
    assert_eq!(c.max_capacity, 10_000);
    assert_eq!(default_limit(), 20);
    let q = ListAbTestsQuery { limit: default_limit(), offset: 0, status: None };
    assert_eq!(q.limit, 20);
}
