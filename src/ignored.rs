//! Suppression entries: predicates that keep an audit record from being
//! stored, whatever the verdict.

use vstd::prelude::*;
use crate::admin::{
    filters_view,
    limit_of,
    limit_offset,
    listing_columns,
    listing_filters,
    page_of,
    present_filters,
    sort_order,
    sort_spec,
    entry_sort_columns,
    entry_sort_columns_list,
};
use crate::descriptor::{opt_view, NewRecord, NewRequest};
use crate::matcher::{all_fields_pass, compiled_sources, FieldPatterns};

verus! {

/// A stored suppression entry. Timestamps are milliseconds since the Unix
/// epoch.
#[derive(Clone, Debug, PartialEq, Eq)]
pub struct Ignored {
    pub id: i32,
    pub ip_address: Option<String>,
    pub protocol: Option<String>,
    pub fqdn: Option<String>,
    pub path: Option<String>,
    pub query: Option<String>,
    pub city_name: Option<String>,
    pub country_name: Option<String>,
    pub country_code: Option<String>,
    pub active: bool,
    pub created_at: i64,
    pub updated_at: i64,
}

impl Ignored {
    /// The stored patterns, in the order of `NewRequest::fields`.
    pub open spec fn patterns(&self) -> Seq<Option<Seq<char>>> {
        seq![
            opt_view(&self.ip_address),
            opt_view(&self.protocol),
            opt_view(&self.fqdn),
            opt_view(&self.path),
            opt_view(&self.query),
            opt_view(&self.city_name),
            opt_view(&self.country_name),
            opt_view(&self.country_code),
        ]
    }

    fn compile(&self) -> (r: FieldPatterns)
        ensures
            r@ == compiled_sources(self.patterns()),
    {
        FieldPatterns::from_sources(
            &self.ip_address,
            &self.protocol,
            &self.fqdn,
            &self.path,
            &self.query,
            &self.city_name,
            &self.country_name,
            &self.country_code,
        )
    }

    /// Matches the entry against a record, compiling its patterns for this
    /// one call; an empty or invalid pattern leaves its field unconstrained.
    pub fn matches(&self, record: &NewRecord) -> (r: bool)
        ensures
            r == ignored_matches(*self, *record),
    {
        self.compile().matches(record)
    }
}

/// Whether a suppression entry matches a descriptor, by the same per-field
/// rule as a policy rule.
pub open spec fn ignored_matches(entry: Ignored, request: NewRequest) -> bool {
    all_fields_pass(compiled_sources(entry.patterns()), request.fields())
}

/// A suppression entry with its patterns compiled once.
pub struct CacheIgnored {
    pub ignored: Ignored,
    pub patterns: FieldPatterns,
}

impl CacheIgnored {
    /// The compiled patterns are those of `ignored`.
    pub open spec fn wf(&self) -> bool {
        self.patterns@ == compiled_sources(self.ignored.patterns())
    }

    pub fn from_ignored(ignored: Ignored) -> (r: CacheIgnored)
        ensures
            r.ignored == ignored,
            r.wf(),
    {
        let patterns = ignored.compile();
        CacheIgnored { ignored, patterns }
    }

    pub fn matches(&self, request: &NewRequest) -> (r: bool)
        requires
            self.wf(),
        ensures
            r == ignored_matches(self.ignored, *request),
    {
        self.patterns.matches(request)
    }
}

/// A suppression entry to be created.
#[derive(Clone, Debug, PartialEq, Eq)]
pub struct NewIgnored {
    pub ip_address: Option<String>,
    pub protocol: Option<String>,
    pub fqdn: Option<String>,
    pub path: Option<String>,
    pub query: Option<String>,
    pub city_name: Option<String>,
    pub country_name: Option<String>,
    pub country_code: Option<String>,
    pub active: bool,
}

/// A full replacement of the suppression entry with the given id.
#[derive(Clone, Debug, PartialEq, Eq)]
pub struct UpdateIgnored {
    pub id: i32,
    pub ip_address: Option<String>,
    pub protocol: Option<String>,
    pub fqdn: Option<String>,
    pub path: Option<String>,
    pub query: Option<String>,
    pub city_name: Option<String>,
    pub country_name: Option<String>,
    pub country_code: Option<String>,
    pub active: bool,
}

/// Filters, paging and sorting of a suppression-entry listing.
#[derive(Clone, Debug, PartialEq, Eq)]
pub struct ReadIgnoredParams {
    pub id: Option<i32>,
    pub ip_address: Option<String>,
    pub protocol: Option<String>,
    pub fqdn: Option<String>,
    pub path: Option<String>,
    pub query: Option<String>,
    pub city_name: Option<String>,
    pub country_name: Option<String>,
    pub country_code: Option<String>,
    pub active: Option<bool>,
    pub page: Option<u32>,
    pub limit: Option<u32>,
    pub sort_by: Option<String>,
    pub asc: Option<bool>,
}

impl ReadIgnoredParams {
    /// The filter values, in the order of `listing_columns`.
    pub open spec fn filter_values(&self) -> Seq<Option<Seq<char>>> {
        seq![
            opt_view(&self.ip_address),
            opt_view(&self.protocol),
            opt_view(&self.fqdn),
            opt_view(&self.path),
            opt_view(&self.query),
            opt_view(&self.city_name),
            opt_view(&self.country_name),
            opt_view(&self.country_code),
        ]
    }

    /// The filters that are present, as (column, pattern) pairs.
    pub fn filters(&self) -> (r: Vec<(&'static str, String)>)
        ensures
            filters_view(r@) == present_filters(listing_columns(), self.filter_values()),
    {
        listing_filters(
            &self.ip_address,
            &self.protocol,
            &self.fqdn,
            &self.path,
            &self.query,
            &self.city_name,
            &self.country_name,
            &self.country_code,
        )
    }

    /// The sort column and direction, when the column asked for is allowed.
    pub fn order(&self) -> (r: Option<(&'static str, bool)>)
        ensures
            match r {
                Some((c, up)) => Some((c@, up)),
                None => None,
            } == sort_spec(opt_view(&self.sort_by), None, entry_sort_columns(), self.asc),
    {
        sort_order(&self.sort_by, None, &entry_sort_columns_list(), self.asc)
    }

    /// Row limit and row offset of the page asked for.
    pub fn rows(&self) -> (r: (u64, u64))
        ensures
            r.0 == limit_of(self.limit),
            r.1 == (page_of(self.page) - 1) * limit_of(self.limit),
    {
        limit_offset(self.page, self.limit)
    }
}

} // verus!
