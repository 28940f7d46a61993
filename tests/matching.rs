use shuul::descriptor::NewRequest;
use shuul::ignored::{CacheIgnored, Ignored};
use shuul::rule::{CacheRule, Rule};
use shuul::ruleset::{IgnoredSet, RuleSet};

fn text(s: &str) -> Option<String> {
    Some(s.to_string())
}

fn request(ip: Option<&str>, path: Option<&str>) -> NewRequest {
    NewRequest {
        ip_address: ip.map(|s| s.to_string()),
        protocol: None,
        fqdn: None,
        path: path.map(|s| s.to_string()),
        query: None,
        city_name: None,
        country_name: None,
        country_code: None,
        rule_id: None,
        created_at: 0,
    }
}

fn rule(id: i32, weight: i32, path: Option<&str>, allow: bool, store: bool) -> Rule {
    Rule {
        id,
        weight,
        allow,
        store,
        ip_address: None,
        protocol: None,
        fqdn: None,
        path: path.map(|s| s.to_string()),
        query: None,
        city_name: None,
        country_name: None,
        country_code: None,
        active: true,
        created_at: 0,
        updated_at: 0,
    }
}

fn ignored(id: i32, ip: Option<&str>) -> Ignored {
    Ignored {
        id,
        ip_address: ip.map(|s| s.to_string()),
        protocol: None,
        fqdn: None,
        path: None,
        query: None,
        city_name: None,
        country_name: None,
        country_code: None,
        active: true,
        created_at: 0,
        updated_at: 0,
    }
}

#[test]
fn pattern_matches_anywhere_in_value() {
    let r = CacheRule::from_rule(rule(1, 1, Some("admin"), false, true));
    assert!(r.matches(&request(None, Some("/x/admin/y"))));
    assert!(!r.matches(&request(None, Some("/public"))));
}

#[test]
fn anchored_pattern_respects_anchor() {
    let r = CacheRule::from_rule(rule(1, 1, Some("^/admin"), false, true));
    assert!(r.matches(&request(None, Some("/admin/users"))));
    assert!(!r.matches(&request(None, Some("/x/admin"))));
}

#[test]
fn absent_pattern_always_passes() {
    let r = CacheRule::from_rule(rule(1, 1, None, false, true));
    assert!(r.matches(&request(Some("9.9.9.9"), Some("/anything"))));
    assert!(r.matches(&request(None, None)));
}

#[test]
fn absent_value_never_falsifies() {
    let mut base = rule(1, 1, Some("^/admin"), false, true);
    base.country_code = text("^ES$");
    let r = CacheRule::from_rule(base);
    assert!(r.matches(&request(Some("1.2.3.4"), None)));
    let mut req = request(None, Some("/admin"));
    assert!(r.matches(&req));
    req.country_code = text("FR");
    assert!(!r.matches(&req));
    req.country_code = text("ES");
    assert!(r.matches(&req));
}

#[test]
fn invalid_pattern_leaves_field_unconstrained() {
    let mut base = rule(1, 1, Some("("), false, true);
    base.ip_address = text("^10\\.");
    let r = CacheRule::from_rule(base);
    assert!(r.patterns.path.is_none());
    assert!(r.matches(&request(Some("10.0.0.1"), Some("/whatever"))));
    assert!(!r.matches(&request(Some("11.0.0.1"), Some("/whatever"))));
}

#[test]
fn empty_pattern_leaves_field_unconstrained() {
    let r = CacheRule::from_rule(rule(1, 1, Some(""), false, true));
    assert!(r.patterns.path.is_none());
    assert!(r.matches(&request(None, Some("/x"))));
}

#[test]
fn all_fields_must_pass() {
    let mut base = rule(1, 1, Some("^/admin"), false, true);
    base.ip_address = text("^1\\.2\\.");
    let r = CacheRule::from_rule(base);
    assert!(r.matches(&request(Some("1.2.3.4"), Some("/admin"))));
    assert!(!r.matches(&request(Some("5.6.7.8"), Some("/admin"))));
    assert!(!r.matches(&request(Some("1.2.3.4"), Some("/home"))));
}

#[test]
fn first_match_stops_at_first_matching_rule() {
    let set = RuleSet::new(vec![
        rule(1, 1, Some("^/public"), true, true),
        rule(2, 2, Some("^/admin"), false, true),
        rule(3, 3, Some("admin"), true, true),
        rule(4, 4, None, true, true),
    ]);
    let (found, evaluated) = set.first_match_counted(&request(None, Some("/admin")));
    assert_eq!(found, Some(1));
    assert_eq!(evaluated, 2);
    assert_eq!(set.first_match(&request(None, Some("/admin"))).unwrap().rule.id, 2);
}

#[test]
fn first_match_counts_every_rule_when_none_matches() {
    let set = RuleSet::new(vec![
        rule(1, 1, Some("^/public"), true, true),
        rule(2, 2, Some("^/admin"), false, true),
    ]);
    let (found, evaluated) = set.first_match_counted(&request(None, Some("/other")));
    assert_eq!(found, None);
    assert_eq!(evaluated, 2);
    assert!(set.first_match(&request(None, Some("/other"))).is_none());
}

#[test]
fn rule_set_orders_by_weight_keeping_load_order_on_ties() {
    let set = RuleSet::new(vec![
        rule(1, 5, None, true, true),
        rule(2, 1, None, false, true),
        rule(3, 1, None, true, false),
        rule(4, 0, Some("^/never"), true, true),
    ]);
    assert_eq!(set.len(), 4);
    let first = set.first_match(&request(None, Some("/x"))).unwrap();
    assert_eq!(first.rule.id, 2);
    let (found, evaluated) = set.first_match_counted(&request(None, Some("/x")));
    assert_eq!(found, Some(1));
    assert_eq!(evaluated, 2);
}

#[test]
fn rule_set_skips_inactive_rules() {
    let mut off = rule(1, 1, None, false, true);
    off.active = false;
    let set = RuleSet::new(vec![off, rule(2, 2, None, true, true)]);
    assert_eq!(set.len(), 1);
    assert_eq!(set.first_match(&request(None, None)).unwrap().rule.id, 2);
}

#[test]
fn reload_replaces_whole_set() {
    let mut set = RuleSet::new(vec![rule(1, 1, None, false, true)]);
    set.reload(vec![rule(7, 1, Some("^/admin"), true, true), rule(8, 2, None, false, false)]);
    assert_eq!(set.len(), 2);
    assert_eq!(set.first_match(&request(None, Some("/home"))).unwrap().rule.id, 8);
}

#[test]
fn suppression_set_matches_any_entry() {
    let set = IgnoredSet::new(vec![ignored(1, Some("^10\\.")), ignored(2, Some("^192\\.168\\."))]);
    assert!(set.suppress(&request(Some("192.168.1.1"), None)));
    assert!(set.suppress(&request(Some("10.1.1.1"), None)));
    assert!(!set.suppress(&request(Some("8.8.8.8"), None)));
    assert!(!IgnoredSet::empty().suppress(&request(Some("10.1.1.1"), None)));
}

#[test]
fn suppression_set_skips_inactive_entries() {
    let mut off = ignored(1, Some("^10\\."));
    off.active = false;
    let mut set = IgnoredSet::new(vec![off.clone()]);
    assert!(!set.suppress(&request(Some("10.1.1.1"), None)));
    off.active = true;
    set.reload(vec![off]);
    assert!(set.suppress(&request(Some("10.1.1.1"), None)));
}

#[test]
fn ignored_entry_matches_per_call() {
    let entry = ignored(1, Some("^10\\."));
    assert!(entry.matches(&request(Some("10.0.0.1"), None)));
    assert!(!entry.matches(&request(Some("11.0.0.1"), None)));
    assert!(entry.matches(&request(None, None)));
    let broken = ignored(2, Some("(["));
    assert!(broken.matches(&request(Some("11.0.0.1"), None)));
    let compiled = CacheIgnored::from_ignored(ignored(3, Some("^10\\.")));
    assert!(compiled.matches(&request(Some("10.0.0.1"), None)));
    assert!(!compiled.matches(&request(Some("11.0.0.1"), None)));
}
