//! The request descriptor: what the decision pipeline knows of one inbound
//! request, and what is kept of it for audit.

use vstd::prelude::*;

verus! {

/// The view of an optional text: its characters, if any.
pub open spec fn opt_view(o: &Option<String>) -> Option<Seq<char>> {
    match o {
        Some(s) => Some(s@),
        None => None,
    }
}

/// Number of fields that rules and suppression entries can constrain.
pub const MATCHABLE_FIELDS: usize = 8;

/// One inbound request, normalised. Every text field is `None` rather than
/// empty. `created_at` is in milliseconds since the Unix epoch.
#[derive(Clone, Debug, PartialEq, Eq)]
pub struct NewRequest {
    pub ip_address: Option<String>,
    pub protocol: Option<String>,
    pub fqdn: Option<String>,
    pub path: Option<String>,
    pub query: Option<String>,
    pub city_name: Option<String>,
    pub country_name: Option<String>,
    pub country_code: Option<String>,
    pub rule_id: Option<i32>,
    pub created_at: i64,
}

/// The descriptor as the per-record audit table stores it.
pub type NewRecord = NewRequest;

impl NewRequest {
    /// The matchable fields, in the order ip address, protocol, host, path,
    /// query, city name, country name, country code.
    pub open spec fn fields(&self) -> Seq<Option<Seq<char>>> {
        seq![
            opt_view(&self.ip_address),
            opt_view(&self.protocol),
            opt_view(&self.fqdn),
            opt_view(&self.path),
            opt_view(&self.query),
            opt_view(&self.city_name),
            opt_view(&self.country_name),
            opt_view(&self.country_code),
        ]
    }
}

} // verus!
