//! Rebuilds the descriptor of the client's request from the headers the
//! reverse proxy forwards. Missing or malformed headers never fail: they
//! leave fields absent.

use vstd::prelude::*;
use crate::descriptor::{opt_view, NewRequest};
use crate::geo::{enriched, GeoCity, IPData};
use crate::text::{find_first, first_value, non_empty, non_empty_opt, non_empty_view, pairs_view};

verus! {

pub const HEADER_PROTO: &'static str = "x-forwarded-proto";

pub const HEADER_HOST: &'static str = "x-forwarded-host";

pub const HEADER_URI: &'static str = "x-forwarded-uri";

pub const HEADER_FOR: &'static str = "x-forwarded-for";

/// Whether the text parses as an `http::Uri`.
pub uninterp spec fn uri_parses(text: Seq<char>) -> bool;

/// `http::Uri::path` of the URI parsed from the text.
pub uninterp spec fn uri_path_of(text: Seq<char>) -> Seq<char>;

/// `http::Uri::query` of the URI parsed from the text.
pub uninterp spec fn uri_query_of(text: Seq<char>) -> Option<Seq<char>>;

/// Relies on `http::Uri`'s `FromStr`, `Uri::path` and `Uri::query`: `None`
/// when the text is no URI, otherwise its path and its query.
#[verifier::external_body]
fn split_uri(text: &str) -> (r: Option<(String, Option<String>)>)
    ensures
        r.is_some() == uri_parses(text@),
        r matches Some(p) ==> p.0@ == uri_path_of(text@) && opt_view(&p.1) == uri_query_of(text@),
{
    let uri = text.parse::<axum::http::Uri>().ok()?;
    Some((uri.path().to_string(), uri.query().map(|q| q.to_string())))
}

/// Relies on `chrono::Utc::now`: the current time in milliseconds since the
/// Unix epoch. Nothing is stated of it.
#[verifier::external_body]
fn now_millis() -> (r: i64) {
    chrono::Utc::now().timestamp_millis()
}

/// Path and query of the forwarded URI: both absent when the header is
/// missing or does not parse, each absent when empty.
pub open spec fn uri_parts(uri: Option<Seq<char>>) -> (Option<Seq<char>>, Option<Seq<char>>) {
    match uri {
        Some(u) => if uri_parses(u) {
            (non_empty_view(Some(uri_path_of(u))), non_empty_view(uri_query_of(u)))
        } else {
            (None, None)
        },
        None => (None, None),
    }
}

/// The value of a forwarded header, absent when missing or empty.
pub open spec fn header(headers: Seq<(String, String)>, name: &str) -> Option<Seq<char>> {
    non_empty_view(first_value(pairs_view(headers), name@))
}

/// Path and query of the URI given in a header value.
pub fn uri_fields(uri: Option<String>) -> (r: (Option<String>, Option<String>))
    ensures
        (opt_view(&r.0), opt_view(&r.1)) == uri_parts(opt_view(&uri)),
{
    match uri {
        Some(u) => match split_uri(u.as_str()) {
            Some((path, query)) => (non_empty(path.as_str()), non_empty_opt(query)),
            None => (None, None),
        },
        None => (None, None),
    }
}

impl NewRequest {
    /// Builds the descriptor from the forwarded headers (name, value pairs,
    /// names in lower case; the first pair of a name counts), the geo data of
    /// the client address, and the capture time.
    pub fn build(headers: &Vec<(String, String)>, ip_data: IPData, created_at: i64) -> (r: NewRequest)
        ensures
            opt_view(&r.ip_address) == header(headers@, HEADER_FOR),
            opt_view(&r.protocol) == header(headers@, HEADER_PROTO),
            opt_view(&r.fqdn) == header(headers@, HEADER_HOST),
            (opt_view(&r.path), opt_view(&r.query)) == uri_parts(
                first_value(pairs_view(headers@), HEADER_URI@),
            ),
            opt_view(&r.city_name) == non_empty_view(opt_view(&ip_data.city_name)),
            opt_view(&r.country_name) == non_empty_view(opt_view(&ip_data.country_name)),
            opt_view(&r.country_code) == non_empty_view(opt_view(&ip_data.country_code)),
            r.rule_id is None,
            r.created_at == created_at,
    {
        let (path, query) = uri_fields(find_first(headers, HEADER_URI));
        NewRequest {
            ip_address: non_empty_opt(find_first(headers, HEADER_FOR)),
            protocol: non_empty_opt(find_first(headers, HEADER_PROTO)),
            fqdn: non_empty_opt(find_first(headers, HEADER_HOST)),
            path,
            query,
            city_name: non_empty_opt(ip_data.city_name),
            country_name: non_empty_opt(ip_data.country_name),
            country_code: non_empty_opt(ip_data.country_code),
            rule_id: None,
            created_at,
        }
    }

    /// The client address the proxy forwarded, as the geo lookup takes it:
    /// the first `x-forwarded-for` value, or empty text when there is none.
    pub fn forwarded_ip(headers: &Vec<(String, String)>) -> (r: String)
        ensures
            r@ == match first_value(pairs_view(headers@), HEADER_FOR@) {
                Some(v) => v,
                None => Seq::<char>::empty(),
            },
    {
        match find_first(headers, HEADER_FOR) {
            Some(v) => v,
            None => String::new(),
        }
    }

    /// Captures the descriptor of an inbound request from the forwarded
    /// headers and what the geo lookup found for `forwarded_ip(headers)`
    /// (`None` when the address does not parse, is unknown, or the lookup
    /// failed), and stamps the current time. It never fails.
    pub fn from_request(headers: &Vec<(String, String)>, found: Option<GeoCity>) -> (r: NewRequest)
        ensures
            opt_view(&r.ip_address) == header(headers@, HEADER_FOR),
            opt_view(&r.protocol) == header(headers@, HEADER_PROTO),
            opt_view(&r.fqdn) == header(headers@, HEADER_HOST),
            (opt_view(&r.path), opt_view(&r.query)) == uri_parts(
                first_value(pairs_view(headers@), HEADER_URI@),
            ),
            opt_view(&r.city_name) == non_empty_view(enriched(found).0),
            opt_view(&r.country_name) == non_empty_view(enriched(found).1),
            opt_view(&r.country_code) == non_empty_view(enriched(found).2),
            r.rule_id is None,
    {
        let ip = NewRequest::forwarded_ip(headers);
        let ip_data = IPData::complete(ip.as_str(), found);
        let created_at = now_millis();
        NewRequest::build(headers, ip_data, created_at)
    }
}

} // verus!
