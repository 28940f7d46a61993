//! Policy rules and their compiled form.

use vstd::prelude::*;
use crate::admin::{
    filters_view,
    limit_of,
    limit_offset,
    listing_columns,
    listing_filters,
    page_of,
    present_filters,
    sort_order,
    sort_spec,
    entry_sort_columns,
    entry_sort_columns_list,
};
use crate::descriptor::{opt_view, NewRequest, MATCHABLE_FIELDS};
use crate::matcher::{all_fields_pass, compiled_sources, field_passes, FieldPatterns};

verus! {

/// A stored policy rule. Timestamps are milliseconds since the Unix epoch.
#[derive(Clone, Debug, PartialEq, Eq)]
pub struct Rule {
    pub id: i32,
    pub weight: i32,
    pub allow: bool,
    pub store: bool,
    pub ip_address: Option<String>,
    pub protocol: Option<String>,
    pub fqdn: Option<String>,
    pub path: Option<String>,
    pub query: Option<String>,
    pub city_name: Option<String>,
    pub country_name: Option<String>,
    pub country_code: Option<String>,
    pub active: bool,
    pub created_at: i64,
    pub updated_at: i64,
}

impl Rule {
    /// The stored patterns, in the order of `NewRequest::fields`.
    pub open spec fn patterns(&self) -> Seq<Option<Seq<char>>> {
        seq![
            opt_view(&self.ip_address),
            opt_view(&self.protocol),
            opt_view(&self.fqdn),
            opt_view(&self.path),
            opt_view(&self.query),
            opt_view(&self.city_name),
            opt_view(&self.country_name),
            opt_view(&self.country_code),
        ]
    }
}

/// Whether a rule matches a descriptor: every field whose pattern compiled
/// and whose value is present must be found by the pattern.
pub open spec fn rule_matches(rule: Rule, request: NewRequest) -> bool {
    all_fields_pass(compiled_sources(rule.patterns()), request.fields())
}

/// A field without a pattern always passes, and so does a field whose value
/// the descriptor lacks: a rule is never falsified by missing data.
pub proof fn lemma_absent_field_passes(pattern: Option<Seq<char>>, value: Option<Seq<char>>)
    ensures
        field_passes(None, value),
        field_passes(pattern, None),
{
}

/// A rule matches every descriptor in which each field either has no usable
/// pattern in the rule or no value in the descriptor.
pub proof fn lemma_unconstrained_rule_matches(rule: Rule, request: NewRequest)
    requires
        forall|i: int|
            0 <= i < MATCHABLE_FIELDS ==> (#[trigger] compiled_sources(rule.patterns())[i]) is None
                || request.fields()[i] is None,
    ensures
        rule_matches(rule, request),
{
    assert forall|i: int| 0 <= i < MATCHABLE_FIELDS implies #[trigger] field_passes(
        compiled_sources(rule.patterns())[i],
        request.fields()[i],
    ) by {
        assert(compiled_sources(rule.patterns())[i] is None || request.fields()[i] is None);
    }
}

/// A rule with its patterns compiled once, for repeated matching.
pub struct CacheRule {
    pub rule: Rule,
    pub patterns: FieldPatterns,
}

impl CacheRule {
    /// The compiled patterns are those of `rule`.
    pub open spec fn wf(&self) -> bool {
        self.patterns@ == compiled_sources(self.rule.patterns())
    }

    pub fn from_rule(rule: Rule) -> (r: CacheRule)
        ensures
            r.rule == rule,
            r.wf(),
    {
        let patterns = FieldPatterns::from_sources(
            &rule.ip_address,
            &rule.protocol,
            &rule.fqdn,
            &rule.path,
            &rule.query,
            &rule.city_name,
            &rule.country_name,
            &rule.country_code,
        );
        CacheRule { rule, patterns }
    }

    pub fn matches(&self, request: &NewRequest) -> (r: bool)
        requires
            self.wf(),
        ensures
            r == rule_matches(self.rule, *request),
    {
        self.patterns.matches(request)
    }
}

/// A rule to be created.
#[derive(Clone, Debug, PartialEq, Eq)]
pub struct NewRule {
    pub weight: i32,
    pub allow: bool,
    pub store: bool,
    pub ip_address: Option<String>,
    pub protocol: Option<String>,
    pub fqdn: Option<String>,
    pub path: Option<String>,
    pub query: Option<String>,
    pub city_name: Option<String>,
    pub country_name: Option<String>,
    pub country_code: Option<String>,
    pub active: bool,
}

/// A full replacement of the rule with the given id.
#[derive(Clone, Debug, PartialEq, Eq)]
pub struct UpdateRule {
    pub id: i32,
    pub weight: i32,
    pub allow: bool,
    pub store: bool,
    pub ip_address: Option<String>,
    pub protocol: Option<String>,
    pub fqdn: Option<String>,
    pub path: Option<String>,
    pub query: Option<String>,
    pub city_name: Option<String>,
    pub country_name: Option<String>,
    pub country_code: Option<String>,
    pub active: bool,
}

/// Filters, paging and sorting of a rule listing.
#[derive(Clone, Debug, PartialEq, Eq)]
pub struct ReadRuleParams {
    pub id: Option<i32>,
    pub weight: Option<i32>,
    pub allow: Option<bool>,
    pub store: Option<bool>,
    pub ip_address: Option<String>,
    pub protocol: Option<String>,
    pub fqdn: Option<String>,
    pub path: Option<String>,
    pub query: Option<String>,
    pub city_name: Option<String>,
    pub country_name: Option<String>,
    pub country_code: Option<String>,
    pub active: Option<bool>,
    pub page: Option<u32>,
    pub limit: Option<u32>,
    pub sort_by: Option<String>,
    pub asc: Option<bool>,
}

impl ReadRuleParams {
    /// The filter values, in the order of `listing_columns`.
    pub open spec fn filter_values(&self) -> Seq<Option<Seq<char>>> {
        seq![
            opt_view(&self.ip_address),
            opt_view(&self.protocol),
            opt_view(&self.fqdn),
            opt_view(&self.path),
            opt_view(&self.query),
            opt_view(&self.city_name),
            opt_view(&self.country_name),
            opt_view(&self.country_code),
        ]
    }

    /// The filters that are present, as (column, pattern) pairs.
    pub fn filters(&self) -> (r: Vec<(&'static str, String)>)
        ensures
            filters_view(r@) == present_filters(listing_columns(), self.filter_values()),
    {
        listing_filters(
            &self.ip_address,
            &self.protocol,
            &self.fqdn,
            &self.path,
            &self.query,
            &self.city_name,
            &self.country_name,
            &self.country_code,
        )
    }

    /// The sort column and direction, when the column asked for is allowed.
    pub fn order(&self) -> (r: Option<(&'static str, bool)>)
        ensures
            match r {
                Some((c, up)) => Some((c@, up)),
                None => None,
            } == sort_spec(opt_view(&self.sort_by), None, entry_sort_columns(), self.asc),
    {
        sort_order(&self.sort_by, None, &entry_sort_columns_list(), self.asc)
    }

    /// Row limit and row offset of the page asked for.
    pub fn rows(&self) -> (r: (u64, u64))
        ensures
            r.0 == limit_of(self.limit),
            r.1 == (page_of(self.page) - 1) * limit_of(self.limit),
    {
        limit_offset(self.page, self.limit)
    }
}

} // verus!
