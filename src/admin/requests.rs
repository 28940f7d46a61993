//! Parameters of the request audit history.

use vstd::prelude::*;
use crate::descriptor::opt_view;
use crate::admin::{
    filters_view,
    limit_of,
    limit_offset,
    listing_columns,
    listing_filters,
    page_of,
    present_filters,
    sort_order,
    sort_spec,
    request_sort_columns,
    request_sort_columns_list,
};
use crate::admin::{parse_info, InfoError, InfoOption};
use crate::text::text_eq;

verus! {

/// Count query on requests: "total" or "filtered".
#[derive(Clone, Debug, PartialEq, Eq)]
pub struct ReadInfoParams {
    pub option: Option<String>,
}

impl ReadInfoParams {
    pub fn info(&self) -> (r: Result<InfoOption, InfoError>)
        ensures
            self.option is None ==> r == Err::<InfoOption, InfoError>(InfoError::Missing),
            self.option matches Some(o) ==> r == (if o@ == "total"@ {
                Ok::<InfoOption, InfoError>(InfoOption::Total)
            } else if o@ == "filtered"@ {
                Ok(InfoOption::Filtered)
            } else {
                Err(InfoError::Unknown)
            }),
    {
        parse_info(&self.option, "filtered", InfoOption::Filtered)
    }
}

/// Deletion of the requests older than the given number of days.
#[derive(Clone, Debug, PartialEq, Eq)]
pub struct DeleteParams {
    pub days: Option<i32>,
}

/// Filters, paging and sorting of a request listing.
#[derive(Clone, Debug, PartialEq, Eq)]
pub struct ReadRequestParams {
    pub id: Option<i32>,
    pub ip_address: Option<String>,
    pub protocol: Option<String>,
    pub fqdn: Option<String>,
    pub path: Option<String>,
    pub query: Option<String>,
    pub city_name: Option<String>,
    pub country_name: Option<String>,
    pub country_code: Option<String>,
    pub page: Option<u32>,
    pub limit: Option<u32>,
    pub sort_by: Option<String>,
    pub asc: Option<bool>,
}

/// Time bucket of a history query.
#[derive(Clone, Copy, PartialEq, Eq, Structural, Debug)]
pub enum TimeUnit {
    Hour,
    Day,
}

/// Bucket count used when a history query names none.
pub const DEFAULT_LAST: i32 = 7;

/// History query: requests per country over the last `last` units.
#[derive(Clone, Debug, PartialEq, Eq)]
pub struct EvolutionParams {
    pub unit: Option<String>,
    pub last: Option<i32>,
}

impl EvolutionParams {
    /// The unit ("hour" or "day", by default "day") and the bucket count
    /// (by default 7); `None` for any other unit.
    pub fn resolve(&self) -> (r: Option<(TimeUnit, i32)>)
        ensures
            r matches Some(p) ==> p.1 == (match self.last {
                Some(n) => n,
                None => DEFAULT_LAST,
            }),
            r.is_some() == (match self.unit {
                Some(u) => u@ == "hour"@ || u@ == "day"@,
                None => true,
            }),
            r matches Some(p) ==> (p.0 == TimeUnit::Hour) == (self.unit matches Some(u) && u@
                == "hour"@),
    {
        let last = match self.last {
            Some(n) => n,
            None => DEFAULT_LAST,
        };
        match &self.unit {
            None => Some((TimeUnit::Day, last)),
            Some(u) => {
                if text_eq(u.as_str(), "hour") {
                    Some((TimeUnit::Hour, last))
                } else if text_eq(u.as_str(), "day") {
                    proof {
                        reveal_strlit("hour");
                        reveal_strlit("day");
                    }
                    Some((TimeUnit::Day, last))
                } else {
                    None
                }
            },
        }
    }
}

/// One point of a history series: a time bucket and its request count.
#[derive(Clone, Debug, PartialEq, Eq)]
pub struct TimeSeriesPoint {
    pub x: String,
    pub y: i64,
}

/// The history series of one country (or of all others together).
#[derive(Clone, Debug, PartialEq, Eq)]
pub struct TimeSeries {
    pub id: String,
    pub data: Vec<TimeSeriesPoint>,
}

impl ReadRequestParams {
    /// The filter values, in the order of `listing_columns`.
    pub open spec fn filter_values(&self) -> Seq<Option<Seq<char>>> {
        seq![
            opt_view(&self.ip_address),
            opt_view(&self.protocol),
            opt_view(&self.fqdn),
            opt_view(&self.path),
            opt_view(&self.query),
            opt_view(&self.city_name),
            opt_view(&self.country_name),
            opt_view(&self.country_code),
        ]
    }

    /// The filters that are present, as (column, pattern) pairs.
    pub fn filters(&self) -> (r: Vec<(&'static str, String)>)
        ensures
            filters_view(r@) == present_filters(listing_columns(), self.filter_values()),
    {
        listing_filters(
            &self.ip_address,
            &self.protocol,
            &self.fqdn,
            &self.path,
            &self.query,
            &self.city_name,
            &self.country_name,
            &self.country_code,
        )
    }

    /// The sort column and direction, when the column asked for is allowed.
    pub fn order(&self) -> (r: Option<(&'static str, bool)>)
        ensures
            match r {
                Some((c, up)) => Some((c@, up)),
                None => None,
            } == sort_spec(opt_view(&self.sort_by), Some("created_at"@), request_sort_columns(), self.asc),
    {
        sort_order(&self.sort_by, Some("created_at"), &request_sort_columns_list(), self.asc)
    }

    /// Row limit and row offset of the page asked for.
    pub fn rows(&self) -> (r: (u64, u64))
        ensures
            r.0 == limit_of(self.limit),
            r.1 == (page_of(self.page) - 1) * limit_of(self.limit),
    {
        limit_offset(self.page, self.limit)
    }
}

} // verus!
