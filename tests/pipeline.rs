use shuul::cache::{Persist, WriteBehindCache};
use shuul::decision::{decide, evaluate, Verdict};
use shuul::descriptor::NewRequest;
use shuul::geo::IPData;
use shuul::ignored::Ignored;
use shuul::rule::Rule;
use shuul::ruleset::{IgnoredSet, RuleSet};

fn request(ip: &str, path: &str) -> NewRequest {
    NewRequest {
        ip_address: Some(ip.to_string()),
        protocol: None,
        fqdn: None,
        path: Some(path.to_string()),
        query: None,
        city_name: None,
        country_name: None,
        country_code: None,
        rule_id: None,
        created_at: 1_700_000_000_000,
    }
}

fn rule(id: i32, weight: i32, path: &str, allow: bool, store: bool) -> Rule {
    Rule {
        id,
        weight,
        allow,
        store,
        ip_address: None,
        protocol: None,
        fqdn: None,
        path: Some(path.to_string()),
        query: None,
        city_name: None,
        country_name: None,
        country_code: None,
        active: true,
        created_at: 0,
        updated_at: 0,
    }
}

fn ignore_ip(id: i32, ip: &str) -> Ignored {
    Ignored {
        id,
        ip_address: Some(ip.to_string()),
        protocol: None,
        fqdn: None,
        path: None,
        query: None,
        city_name: None,
        country_name: None,
        country_code: None,
        active: true,
        created_at: 0,
        updated_at: 0,
    }
}

#[test]
fn deny_rule_on_admin_path() {
    let rules = RuleSet::new(vec![rule(42, 1, "^/admin", false, true)]);
    let (verdict, record) = evaluate(&rules, &IgnoredSet::empty(), request("1.2.3.4", "/admin"));
    assert!(!verdict.allow);
    assert_eq!(verdict.rule_id, Some(42));
    assert_eq!(verdict.status(), 403);
    assert_eq!(verdict.message(), "Ko");
    assert_eq!(record.unwrap().rule_id, Some(42));
}

#[test]
fn no_rules_allows_and_stores() {
    let (verdict, record) = evaluate(&RuleSet::empty(), &IgnoredSet::empty(), request("1.2.3.4", "/x"));
    assert_eq!(verdict, Verdict { allow: true, rule_id: None, store: true });
    assert_eq!(verdict.status(), 200);
    assert_eq!(verdict.message(), "Ok");
    let record = record.unwrap();
    assert_eq!(record.rule_id, None);
    assert_eq!(record.path, Some("/x".to_string()));
}

#[test]
fn rule_without_store_keeps_no_record() {
    let rules = RuleSet::new(vec![rule(5, 1, "^/health", true, false)]);
    let (verdict, record) = evaluate(&rules, &IgnoredSet::empty(), request("1.2.3.4", "/health"));
    assert!(verdict.allow);
    assert_eq!(verdict.rule_id, Some(5));
    assert!(!verdict.store);
    assert!(record.is_none());
    let deny = RuleSet::new(vec![rule(6, 1, "^/health", false, false)]);
    let (verdict, record) = evaluate(&deny, &IgnoredSet::empty(), request("1.2.3.4", "/health"));
    assert_eq!(verdict.status(), 403);
    assert!(record.is_none());
}

#[test]
fn suppression_overrides_store() {
    let rules = RuleSet::new(vec![rule(9, 1, "^/admin", false, true)]);
    let ignored = IgnoredSet::new(vec![ignore_ip(1, "^1\\.2\\.3\\.")]);
    let (verdict, record) = evaluate(&rules, &ignored, request("1.2.3.4", "/admin"));
    assert!(!verdict.allow);
    assert_eq!(verdict.rule_id, Some(9));
    assert!(!verdict.store);
    assert!(record.is_none());
    let (verdict, record) = evaluate(&rules, &ignored, request("5.6.7.8", "/admin"));
    assert!(verdict.store);
    assert!(record.is_some());
}

#[test]
fn suppression_does_not_apply_without_matching_rule() {
    let rules = RuleSet::new(vec![rule(9, 1, "^/admin", false, true)]);
    let ignored = IgnoredSet::new(vec![ignore_ip(1, "^1\\.2\\.3\\.")]);
    let (verdict, record) = evaluate(&rules, &ignored, request("1.2.3.4", "/home"));
    assert_eq!(verdict, Verdict { allow: true, rule_id: None, store: true });
    assert!(record.is_some());
}

#[test]
fn evaluation_is_idempotent() {
    let rules = RuleSet::new(vec![
        rule(1, 1, "^/public", true, true),
        rule(2, 2, "^/admin", false, true),
    ]);
    let ignored = IgnoredSet::empty();
    let first = decide(&rules, &ignored, &request("1.2.3.4", "/admin"));
    let second = decide(&rules, &ignored, &request("1.2.3.4", "/admin"));
    assert_eq!(first, second);
    let (verdict, record) = evaluate(&rules, &ignored, request("1.2.3.4", "/admin"));
    let (again, _) = evaluate(&rules, &ignored, record.unwrap());
    assert_eq!(verdict, again);
    assert_eq!(again.rule_id, Some(2));
}

#[test]
fn unplaced_address_still_gets_verdict() {
    let geo = IPData::complete("not-an-ip", None);
    assert_eq!(geo.country_code, None);
    let headers = vec![
        ("x-forwarded-for".to_string(), "not-an-ip".to_string()),
        ("x-forwarded-uri".to_string(), "/admin".to_string()),
    ];
    let req = NewRequest::build(&headers, geo, 0);
    assert_eq!(req.country_code, None);
    assert_eq!(req.city_name, None);
    let rules = RuleSet::new(vec![rule(3, 1, "^/admin", false, true)]);
    let (verdict, _) = evaluate(&rules, &IgnoredSet::empty(), req);
    assert_eq!(verdict.status(), 403);
}

#[test]
fn decisions_flow_into_cache() {
    let rules = RuleSet::new(vec![rule(1, 1, "^/quiet", true, false)]);
    let ignored = IgnoredSet::empty();
    let mut cache = WriteBehindCache::new(true, 2);
    let mut flushed = Vec::new();
    for path in ["/a", "/quiet", "/b", "/c"] {
        let (_, record) = evaluate(&rules, &ignored, request("1.1.1.1", path));
        if let Some(record) = record {
            if let Persist::WriteBulk(batch) = cache.record(record) {
                flushed.push(batch);
            }
        }
    }
    assert_eq!(flushed.len(), 1);
    assert_eq!(flushed[0].len(), 2);
    assert_eq!(flushed[0][1].path, Some("/b".to_string()));
    assert_eq!(cache.len(), 1);
}
