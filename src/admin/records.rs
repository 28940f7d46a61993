//! Parameters of the per-record audit history.

use vstd::prelude::*;
use crate::descriptor::opt_view;
use crate::admin::{
    filters_view,
    limit_of,
    limit_offset,
    listing_columns,
    listing_filters,
    page_of,
    present_filters,
    sort_order,
    sort_spec,
    record_sort_columns,
    record_sort_columns_list,
};
use crate::admin::{parse_info, InfoError, InfoOption};

verus! {

/// Count query on records: "total" or "filtered".
#[derive(Clone, Debug, PartialEq, Eq)]
pub struct ReadInfoParams {
    pub option: Option<String>,
}

impl ReadInfoParams {
    pub fn info(&self) -> (r: Result<InfoOption, InfoError>)
        ensures
            self.option is None ==> r == Err::<InfoOption, InfoError>(InfoError::Missing),
            self.option matches Some(o) ==> r == (if o@ == "total"@ {
                Ok::<InfoOption, InfoError>(InfoOption::Total)
            } else if o@ == "filtered"@ {
                Ok(InfoOption::Filtered)
            } else {
                Err(InfoError::Unknown)
            }),
    {
        parse_info(&self.option, "filtered", InfoOption::Filtered)
    }
}

/// Deletion of the records older than the given number of days.
#[derive(Clone, Debug, PartialEq, Eq)]
pub struct DeleteParams {
    pub days: Option<i32>,
}

/// Filters, paging and sorting of a record listing.
#[derive(Clone, Debug, PartialEq, Eq)]
pub struct ReadRecordParams {
    pub id: Option<i32>,
    pub ip_address: Option<String>,
    pub protocol: Option<String>,
    pub fqdn: Option<String>,
    pub path: Option<String>,
    pub query: Option<String>,
    pub city_name: Option<String>,
    pub country_name: Option<String>,
    pub country_code: Option<String>,
    pub page: Option<u32>,
    pub limit: Option<u32>,
    pub sort_by: Option<String>,
    pub asc: Option<bool>,
}

impl ReadRecordParams {
    /// The filter values, in the order of `listing_columns`.
    pub open spec fn filter_values(&self) -> Seq<Option<Seq<char>>> {
        seq![
            opt_view(&self.ip_address),
            opt_view(&self.protocol),
            opt_view(&self.fqdn),
            opt_view(&self.path),
            opt_view(&self.query),
            opt_view(&self.city_name),
            opt_view(&self.country_name),
            opt_view(&self.country_code),
        ]
    }

    /// The filters that are present, as (column, pattern) pairs.
    pub fn filters(&self) -> (r: Vec<(&'static str, String)>)
        ensures
            filters_view(r@) == present_filters(listing_columns(), self.filter_values()),
    {
        listing_filters(
            &self.ip_address,
            &self.protocol,
            &self.fqdn,
            &self.path,
            &self.query,
            &self.city_name,
            &self.country_name,
            &self.country_code,
        )
    }

    /// The sort column and direction, when the column asked for is allowed.
    pub fn order(&self) -> (r: Option<(&'static str, bool)>)
        ensures
            match r {
                Some((c, up)) => Some((c@, up)),
                None => None,
            } == sort_spec(opt_view(&self.sort_by), Some("created_at"@), record_sort_columns(), self.asc),
    {
        sort_order(&self.sort_by, Some("created_at"), &record_sort_columns_list(), self.asc)
    }

    /// Row limit and row offset of the page asked for.
    pub fn rows(&self) -> (r: (u64, u64))
        ensures
            r.0 == limit_of(self.limit),
            r.1 == (page_of(self.page) - 1) * limit_of(self.limit),
    {
        limit_offset(self.page, self.limit)
    }
}

} // verus!
