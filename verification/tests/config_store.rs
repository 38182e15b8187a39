use ironpass::cli::{subscriptions_to_update, SplitTunnelActionArg, SplitTunnelTargetArg};
use ironpass::config::{
    build_config_manager, resolve_url, set_config_value, AppConfig, ConfigManager, StoredSubscription,
    SubscriptionsStore,
};
use ironpass::error::Error;
use ironpass::cli::{arg_to_output_format, export_format, map_action, map_target, ExportTarget, OutputFormatArg};
use ironpass::models::OutputFormat;
use ironpass::split_tunnel::{SplitTunnelAction, SplitTunnelTarget};

#[test]
fn defaults_match_the_documented_values() {
    let c = AppConfig::default();
    assert_eq!(c.general.user_agent, "v2rayN/6.0");
    assert_eq!(c.general.timeout_secs, 30);
    assert_eq!(c.general.max_retries, 3);
    assert!(c.subscription.auto_update);
    assert_eq!(c.subscription.update_interval_hours, 24);
    assert!(c.hwid.enabled);
    assert_eq!(c.output.format, "clash");
    assert!(c.output.pretty);
    assert_eq!(c.logging.level, "info");
    assert!(c.logging.file);
}

#[test]
fn set_config_value_reads_back() {
    let mut c = AppConfig::default();
    set_config_value(&mut c, "general.timeout_secs", "45").unwrap();
    assert_eq!(c.general.timeout_secs, 45);
    set_config_value(&mut c, "subscription.default_url", "https://example.com/sub").unwrap();
    assert_eq!(c.subscription.default_url.as_deref(), Some("https://example.com/sub"));
    set_config_value(&mut c, "hwid.enabled", "false").unwrap();
    assert!(!c.hwid.enabled);
    set_config_value(&mut c, "general.max_retries", "+7").unwrap();
    assert_eq!(c.general.max_retries, 7);
    set_config_value(&mut c, "logging.level", "debug").unwrap();
    assert_eq!(c.logging.level, "debug");
}

#[test]
fn set_config_value_errors() {
    let mut c = AppConfig::default();
    assert_eq!(set_config_value(&mut c, "nope", "1"), Err("Unknown config key: nope".to_string()));
    assert_eq!(
        set_config_value(&mut c, "general.timeout_secs", "ten"),
        Err("invalid digit found in string".to_string())
    );
    assert_eq!(
        set_config_value(&mut c, "general.timeout_secs", ""),
        Err("cannot parse integer from empty string".to_string())
    );
    assert_eq!(
        set_config_value(&mut c, "general.max_retries", "4294967296"),
        Err("number too large to fit in target type".to_string())
    );
    assert_eq!(
        set_config_value(&mut c, "output.pretty", "yes"),
        Err("provided string was not `true` or `false`".to_string())
    );
    assert_eq!(c.general.timeout_secs, 30);
    assert!(c.output.pretty);
}

#[test]
fn resolve_url_prefers_the_argument() {
    let mut c = AppConfig::default();
    assert_eq!(
        resolve_url(None, &c),
        Err("No subscription URL provided. Pass a URL or set default_url in config.".to_string())
    );
    c.subscription.default_url = Some("https://d".into());
    assert_eq!(resolve_url(None, &c), Ok("https://d".to_string()));
    assert_eq!(resolve_url(Some("https://u".into()), &c), Ok("https://u".to_string()));
}

#[test]
fn config_paths_join_the_directories() {
    let m = ConfigManager::with_dirs("/etc/ip".into(), "/var/ip/".into());
    assert_eq!(m.config_path(), "/etc/ip/config.toml");
    assert_eq!(m.subscriptions_path(), "/var/ip/subscriptions.json");
    let dir = "/tmp/cfg".to_string();
    let b = build_config_manager(Some(&dir));
    assert_eq!(b.config_dir_display(), "/tmp/cfg");
    assert_eq!(b.data_dir_display(), "/tmp/cfg");
}

#[test]
fn saved_subscriptions_are_found_and_unique() {
    let mut store = SubscriptionsStore::new();
    let added = store.add_subscription("https://a", Some("A".into()), None, 1000).unwrap();
    assert_eq!(added.url, "https://a");
    assert_eq!(added.added_at, 1000);
    assert!(added.is_active);
    store.add_subscription("https://b", None, Some("hw".into()), 2000).unwrap();
    match store.add_subscription("https://a", None, None, 3000) {
        Err(Error::Custom(m)) => assert_eq!(m, "Subscription already exists"),
        other => panic!("unexpected {:?}", other),
    }
    let urls: Vec<String> = store.list_subscriptions().into_iter().map(|s| s.url).collect();
    assert_eq!(urls, vec!["https://a".to_string(), "https://b".to_string()]);
}

#[test]
fn removing_a_url_keeps_the_others() {
    let mut store = SubscriptionsStore::new();
    store.add_subscription("https://a", None, None, 1).unwrap();
    store.add_subscription("https://b", None, None, 2).unwrap();
    store.add_subscription("https://c", None, None, 3).unwrap();
    store.remove_subscription("https://b");
    let urls: Vec<String> = store.list_subscriptions().into_iter().map(|s| s.url).collect();
    assert_eq!(urls, vec!["https://a".to_string(), "https://c".to_string()]);
    assert!(store.update_subscription_timestamp("https://c", 99));
    assert!(!store.update_subscription_timestamp("https://b", 99));
    assert_eq!(store.list_subscriptions()[1].last_updated, Some(99));
}

fn saved(url: &str, name: Option<&str>, active: bool) -> StoredSubscription {
    StoredSubscription {
        url: url.into(),
        name: name.map(|n| n.into()),
        added_at: 0,
        last_updated: None,
        hwid: None,
        is_active: active,
    }
}

#[test]
fn update_targets_by_url_name_or_activity() {
    let subs = vec![saved("https://a", Some("home"), true), saved("https://b", None, false), saved("https://c", Some("work"), true)];
    let by_name: Vec<String> = subscriptions_to_update(&subs, Some("work")).into_iter().map(|s| s.url).collect();
    assert_eq!(by_name, vec!["https://c".to_string()]);
    let by_url: Vec<String> = subscriptions_to_update(&subs, Some("https://b")).into_iter().map(|s| s.url).collect();
    assert_eq!(by_url, vec!["https://b".to_string()]);
    let active: Vec<String> = subscriptions_to_update(&subs, None).into_iter().map(|s| s.url).collect();
    assert_eq!(active, vec!["https://a".to_string(), "https://c".to_string()]);
}

#[test]
fn cli_rule_arguments_map_onto_rules() {
    assert_eq!(map_target(SplitTunnelTargetArg::Cidr), SplitTunnelTarget::Cidr);
    assert_eq!(map_target(SplitTunnelTargetArg::App), SplitTunnelTarget::App);
    assert_eq!(map_action(SplitTunnelActionArg::Proxy), SplitTunnelAction::Proxy);
}

#[test]
fn output_and_export_formats() {
    assert_eq!(arg_to_output_format(&OutputFormatArg::Table), OutputFormat::Raw);
    assert_eq!(arg_to_output_format(&OutputFormatArg::SingBox), OutputFormat::SingBox);
    assert_eq!(export_format(ExportTarget::Hiddify), (OutputFormat::SingBox, "Hiddify"));
    assert_eq!(export_format(ExportTarget::ClashMeta), (OutputFormat::Clash, "Clash Meta / mihomo"));
    assert_eq!(export_format(ExportTarget::QuantumultX), (OutputFormat::QuantumultX, "Quantumult X"));
}

#[test]
fn adding_then_removing_a_new_url_restores_the_store() {
    let mut store = SubscriptionsStore::new();
    store.add_subscription("https://a", None, None, 1).ok().unwrap();
    let before: Vec<String> = store.list_subscriptions().into_iter().map(|s| s.url).collect();
    store.add_subscription("https://new", Some("n".into()), None, 2).ok().unwrap();
    store.remove_subscription("https://new");
    let after: Vec<String> = store.list_subscriptions().into_iter().map(|s| s.url).collect();
    assert_eq!(before, after);
}

#[test]
fn sort_field_is_a_settable_key() {
    let mut c = AppConfig::default();
    set_config_value(&mut c, "output.sort_by", "name").unwrap();
    assert_eq!(c.output.sort_by.as_deref(), Some("name"));
    assert_eq!(c.output.format, "clash");
    assert!(c.output.pretty);
    assert_eq!(c.general.timeout_secs, 30);
}

#[test]
fn removing_by_name_drops_the_named_subscription() {
    let mut store = SubscriptionsStore::new();
    store.add_subscription("https://example.com/sub/TOKEN", Some("My Subscription".into()), None, 1).unwrap();
    store.add_subscription("https://b", Some("other".into()), None, 2).unwrap();
    store.remove_subscription("My Subscription");
    let urls: Vec<String> = store.list_subscriptions().into_iter().map(|s| s.url).collect();
    assert_eq!(urls, vec!["https://b".to_string()]);
}
