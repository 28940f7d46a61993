use shuul::descriptor::NewRequest;
use shuul::geo::{GeoCity, IPData};
use shuul::request::uri_fields;

fn pairs(items: &[(&str, &str)]) -> Vec<(String, String)> {
    items.iter().map(|(k, v)| (k.to_string(), v.to_string())).collect()
}

fn no_geo(ip: &str) -> IPData {
    IPData::complete(ip, None)
}

#[test]
fn headers_fill_descriptor() {
    let headers = pairs(&[
        ("x-forwarded-proto", "https"),
        ("x-forwarded-host", "example.org"),
        ("x-forwarded-uri", "/admin/users?page=2"),
        ("x-forwarded-for", "1.2.3.4"),
    ]);
    let req = NewRequest::build(&headers, no_geo("1.2.3.4"), 77);
    assert_eq!(req.protocol, Some("https".to_string()));
    assert_eq!(req.fqdn, Some("example.org".to_string()));
    assert_eq!(req.path, Some("/admin/users".to_string()));
    assert_eq!(req.query, Some("page=2".to_string()));
    assert_eq!(req.ip_address, Some("1.2.3.4".to_string()));
    assert_eq!(req.rule_id, None);
    assert_eq!(req.created_at, 77);
}

#[test]
fn missing_and_empty_headers_become_none() {
    let headers = pairs(&[("x-forwarded-proto", ""), ("x-other", "v")]);
    let req = NewRequest::build(&headers, no_geo(""), 0);
    assert_eq!(req.protocol, None);
    assert_eq!(req.fqdn, None);
    assert_eq!(req.path, None);
    assert_eq!(req.query, None);
    assert_eq!(req.ip_address, None);
}

#[test]
fn first_header_of_a_name_counts() {
    let headers = pairs(&[("x-forwarded-host", "a.org"), ("x-forwarded-host", "b.org")]);
    let req = NewRequest::build(&headers, no_geo(""), 0);
    assert_eq!(req.fqdn, Some("a.org".to_string()));
}

#[test]
fn malformed_uri_leaves_path_and_query_absent() {
    assert_eq!(uri_fields(Some("/a b".to_string())), (None, None));
    assert_eq!(uri_fields(Some("".to_string())), (None, None));
    assert_eq!(uri_fields(None), (None, None));
    assert_eq!(uri_fields(Some("/x?".to_string())), (Some("/x".to_string()), None));
    assert_eq!(
        uri_fields(Some("https://h.org/p/q?k=v".to_string())),
        (Some("/p/q".to_string()), Some("k=v".to_string()))
    );
}

#[test]
fn geo_names_in_english() {
    let found = GeoCity {
        city_names: pairs(&[("de", "München"), ("en", "Munich")]),
        country_names: pairs(&[("en", "Germany"), ("fr", "Allemagne")]),
        country_code: Some("DE".to_string()),
    };
    let geo = IPData::complete("5.6.7.8", Some(found));
    assert_eq!(geo.ip_address, "5.6.7.8");
    assert_eq!(geo.city_name, Some("Munich".to_string()));
    assert_eq!(geo.country_name, Some("Germany".to_string()));
    assert_eq!(geo.country_code, Some("DE".to_string()));
}

#[test]
fn geo_without_english_or_empty_names() {
    let found = GeoCity {
        city_names: pairs(&[("de", "München")]),
        country_names: pairs(&[("en", "")]),
        country_code: Some("".to_string()),
    };
    let geo = IPData::complete("5.6.7.8", Some(found));
    assert_eq!(geo.city_name, None);
    assert_eq!(geo.country_name, Some("".to_string()));
    assert_eq!(geo.country_code, Some("".to_string()));
    let req = NewRequest::build(&pairs(&[("x-forwarded-for", "5.6.7.8")]), geo, 0);
    assert_eq!(req.city_name, None);
    assert_eq!(req.country_name, None);
    assert_eq!(req.country_code, None);
}

#[test]
fn geo_fields_flow_into_descriptor() {
    let found = GeoCity {
        city_names: pairs(&[("en", "Lyon")]),
        country_names: pairs(&[("en", "France")]),
        country_code: Some("FR".to_string()),
    };
    let headers = pairs(&[("x-forwarded-for", "5.6.7.8")]);
    let req = NewRequest::build(&headers, IPData::complete("5.6.7.8", Some(found)), 0);
    assert_eq!(req.city_name, Some("Lyon".to_string()));
    assert_eq!(req.country_name, Some("France".to_string()));
    assert_eq!(req.country_code, Some("FR".to_string()));
}

#[test]
fn request_captures_headers_and_lookup() {
    let headers = pairs(&[
        ("x-forwarded-for", "5.6.7.8"),
        ("x-forwarded-proto", "http"),
        ("x-forwarded-uri", "/a?b=c"),
    ]);
    assert_eq!(NewRequest::forwarded_ip(&headers), "5.6.7.8");
    assert_eq!(NewRequest::forwarded_ip(&pairs(&[])), "");
    let found = GeoCity {
        city_names: pairs(&[("en", "Porto")]),
        country_names: pairs(&[("en", "Portugal")]),
        country_code: Some("PT".to_string()),
    };
    let req = NewRequest::from_request(&headers, Some(found));
    assert_eq!(req.ip_address, Some("5.6.7.8".to_string()));
    assert_eq!(req.protocol, Some("http".to_string()));
    assert_eq!(req.path, Some("/a".to_string()));
    assert_eq!(req.query, Some("b=c".to_string()));
    assert_eq!(req.city_name, Some("Porto".to_string()));
    assert_eq!(req.country_code, Some("PT".to_string()));
    assert_eq!(req.rule_id, None);
    assert!(req.created_at > 0);
    let unknown = NewRequest::from_request(&pairs(&[("x-forwarded-for", "not-an-ip")]), None);
    assert_eq!(unknown.country_code, None);
    assert_eq!(unknown.city_name, None);
}
