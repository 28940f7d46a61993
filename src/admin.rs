//! Parameters and small computations of the administration surface:
//! listing pages, count queries, history queries.

use vstd::prelude::*;
use crate::descriptor::opt_view;
use crate::text::text_eq;

pub mod ignored;
pub mod records;
pub mod requests;
pub mod rules;
pub mod users;

verus! {

/// Page shown when a listing names none.
pub const DEFAULT_PAGE: u32 = 1;

/// Entries per page when a listing names no limit.
pub const DEFAULT_LIMIT: u32 = 10;

/// The character of one decimal digit.
pub open spec fn digit_char(d: nat) -> char {
    if d == 0 {
        '0'
    } else if d == 1 {
        '1'
    } else if d == 2 {
        '2'
    } else if d == 3 {
        '3'
    } else if d == 4 {
        '4'
    } else if d == 5 {
        '5'
    } else if d == 6 {
        '6'
    } else if d == 7 {
        '7'
    } else if d == 8 {
        '8'
    } else {
        '9'
    }
}

/// The decimal notation of a number, without leading zeros.
pub open spec fn decimal(n: nat) -> Seq<char>
    decreases n,
{
    if n < 10 {
        seq![digit_char(n)]
    } else {
        decimal(n / 10) + seq![digit_char(n % 10)]
    }
}

fn digit_text(d: u64) -> (r: &'static str)
    requires
        d < 10,
    ensures
        r@ == seq![digit_char(d as nat)],
{
    proof {
        reveal_strlit("0");
        reveal_strlit("1");
        reveal_strlit("2");
        reveal_strlit("3");
        reveal_strlit("4");
        reveal_strlit("5");
        reveal_strlit("6");
        reveal_strlit("7");
        reveal_strlit("8");
        reveal_strlit("9");
    }
    let r = if d == 0 {
        "0"
    } else if d == 1 {
        "1"
    } else if d == 2 {
        "2"
    } else if d == 3 {
        "3"
    } else if d == 4 {
        "4"
    } else if d == 5 {
        "5"
    } else if d == 6 {
        "6"
    } else if d == 7 {
        "7"
    } else if d == 8 {
        "8"
    } else {
        "9"
    };
    assert(r@ =~= seq![digit_char(d as nat)]);
    r
}

/// Appends the decimal notation of `n`.
pub fn push_decimal(s: &mut String, n: u64)
    ensures
        final(s)@ == old(s)@ + decimal(n as nat),
    decreases n,
{
    if n >= 10 {
        push_decimal(s, n / 10);
    }
    s.append(digit_text(n % 10));
    assert(final(s)@ =~= old(s)@ + decimal(n as nat));
}

/// The link to one page of a listing: `<base>?page=<page>&limit=<limit>`.
pub open spec fn page_link(base: Seq<char>, page: nat, limit: nat) -> Seq<char> {
    base + "?page="@ + decimal(page) + "&limit="@ + decimal(limit)
}

pub fn make_page_link(base: &str, page: u32, limit: u32) -> (r: String)
    ensures
        r@ == page_link(base@, page as nat, limit as nat),
{
    let mut s = base.to_owned();
    s.append("?page=");
    push_decimal(&mut s, page as u64);
    s.append("&limit=");
    push_decimal(&mut s, limit as u64);
    assert(s@ =~= page_link(base@, page as nat, limit as nat));
    s
}

/// Number of pages that `records` entries fill at `limit` per page, rounded
/// up and held within `u32`. A limit of zero leaves no page when there is
/// nothing to show and the largest count otherwise.
pub open spec fn pages_for(records: int, limit: nat) -> nat {
    if records <= 0 {
        0
    } else if limit == 0 {
        u32::MAX as nat
    } else {
        let p = ((records + limit - 1) / (limit as int)) as nat;
        if p > u32::MAX {
            u32::MAX as nat
        } else {
            p
        }
    }
}

pub fn page_count(records: i64, limit: u32) -> (r: u32)
    ensures
        r == pages_for(records as int, limit as nat),
{
    if records <= 0 {
        0
    } else if limit == 0 {
        u32::MAX
    } else {
        let r: i128 = (records as i128 + limit as i128 - 1) / (limit as i128);
        if r > u32::MAX as i128 {
            u32::MAX
        } else {
            r as u32
        }
    }
}

/// The page asked for, counted from one; an absent or zero page means the
/// first.
pub open spec fn page_of(page: Option<u32>) -> nat {
    match page {
        Some(p) => if p == 0 {
            1
        } else {
            p as nat
        },
        None => DEFAULT_PAGE as nat,
    }
}

/// The page size asked for, or the default.
pub open spec fn limit_of(limit: Option<u32>) -> nat {
    match limit {
        Some(l) => l as nat,
        None => DEFAULT_LIMIT as nat,
    }
}

/// Row limit and row offset of the page a listing asks for.
pub fn limit_offset(page: Option<u32>, limit: Option<u32>) -> (r: (u64, u64))
    ensures
        r.0 == limit_of(limit),
        r.1 == (page_of(page) - 1) * limit_of(limit),
{
    let p: u32 = match page {
        Some(p) => if p == 0 {
            1
        } else {
            p
        },
        None => DEFAULT_PAGE,
    };
    let l: u32 = match limit {
        Some(l) => l,
        None => DEFAULT_LIMIT,
    };
    let skipped: u64 = (p - 1) as u64;
    assert(skipped * (l as u64) <= 0xffff_ffff * 0xffff_ffff) by (nonlinear_arith)
        requires skipped <= 0xffff_ffff, l <= 0xffff_ffff;
    (l as u64, skipped * (l as u64))
}

/// The paging block of a listing response.
#[derive(Clone, Debug, PartialEq, Eq)]
pub struct Pagination {
    pub page: u32,
    pub limit: u32,
    pub pages: u32,
    pub records: i64,
    /// Link to the previous page, if there is one.
    pub prev: Option<String>,
    /// Link to the next page, if there is one.
    pub next: Option<String>,
}

impl Pagination {
    /// Paging of a listing of `records` entries at the page and limit asked
    /// for; the links lead to `base`.
    pub fn create(base: &str, page: Option<u32>, limit: Option<u32>, records: i64) -> (r: Pagination)
        ensures
            r.page == page_of(page),
            r.limit == limit_of(limit),
            r.pages == pages_for(records as int, limit_of(limit)),
            r.records == records,
            opt_view(&r.prev) == (if page_of(page) > 1 {
                Some(page_link(base@, (page_of(page) - 1) as nat, limit_of(limit)))
            } else {
                None
            }),
            opt_view(&r.next) == (if page_of(page) < pages_for(records as int, limit_of(limit)) {
                Some(page_link(base@, page_of(page) + 1, limit_of(limit)))
            } else {
                None
            }),
    {
        let p: u32 = match page {
            Some(p) => if p == 0 {
                1
            } else {
                p
            },
            None => DEFAULT_PAGE,
        };
        let l: u32 = match limit {
            Some(l) => l,
            None => DEFAULT_LIMIT,
        };
        let pages = page_count(records, l);
        let prev = if p > 1 {
            Some(make_page_link(base, p - 1, l))
        } else {
            None
        };
        let next = if p < pages {
            Some(make_page_link(base, p + 1, l))
        } else {
            None
        };
        Pagination { page: p, limit: l, pages, records, prev, next }
    }
}

/// Which count a count query asks for.
#[derive(Clone, Copy, PartialEq, Eq, Structural, Debug)]
pub enum InfoOption {
    /// Every row.
    Total,
    /// Rules or suppression entries that are active.
    Active,
    /// Requests that some rule governed.
    Filtered,
}

/// Why a count query was refused.
#[derive(Clone, Copy, PartialEq, Eq, Structural, Debug)]
pub enum InfoError {
    /// No option was given.
    Missing,
    /// The option is not one this listing knows.
    Unknown,
}

/// Reads the option of a count query: "total", or the one other option
/// `other` under its name `other_name`.
pub fn parse_info(option: &Option<String>, other_name: &str, other: InfoOption) -> (r: Result<
    InfoOption,
    InfoError,
>)
    ensures
        option is None ==> r == Err::<InfoOption, InfoError>(InfoError::Missing),
        option matches Some(o) ==> r == (if o@ == "total"@ {
            Ok::<InfoOption, InfoError>(InfoOption::Total)
        } else if o@ == other_name@ {
            Ok(other)
        } else {
            Err(InfoError::Unknown)
        }),
{
    match option {
        None => Err(InfoError::Missing),
        Some(o) => {
            if text_eq(o.as_str(), "total") {
                Ok(InfoOption::Total)
            } else if text_eq(o.as_str(), other_name) {
                Ok(other)
            } else {
                Err(InfoError::Unknown)
            }
        },
    }
}

/// The columns a listing filters on, in the order the filters apply.
pub open spec fn listing_columns() -> Seq<Seq<char>> {
    seq![
        "ip_address"@,
        "protocol"@,
        "fqdn"@,
        "path"@,
        "query"@,
        "city_name"@,
        "country_name"@,
        "country_code"@,
    ]
}

/// The (column, value) pairs of the filters that are present, in column
/// order.
pub open spec fn present_filters(columns: Seq<Seq<char>>, values: Seq<Option<Seq<char>>>) -> Seq<
    (Seq<char>, Seq<char>),
>
    decreases values.len(),
{
    if values.len() == 0 || columns.len() == 0 {
        Seq::empty()
    } else {
        let rest = present_filters(columns.drop_last(), values.drop_last());
        match values.last() {
            Some(v) => rest.push((columns.last(), v)),
            None => rest,
        }
    }
}

/// The view of a list of filters.
pub open spec fn filters_view(f: Seq<(&'static str, String)>) -> Seq<(Seq<char>, Seq<char>)> {
    f.map_values(|p: (&'static str, String)| (p.0@, p.1@))
}

fn push_filter(out: &mut Vec<(&'static str, String)>, column: &'static str, value: &Option<String>)
    ensures
        filters_view(final(out)@) == match opt_view(value) {
            Some(v) => filters_view(old(out)@).push((column@, v)),
            None => filters_view(old(out)@),
        },
{
    if let Some(v) = value {
        out.push((column, v.clone()));
    }
    assert(filters_view(final(out)@) =~= match opt_view(value) {
        Some(v) => filters_view(old(out)@).push((column@, v)),
        None => filters_view(old(out)@),
    });
}

proof fn lemma_present_step(cols: Seq<Seq<char>>, vals: Seq<Option<Seq<char>>>, k: int)
    requires
        0 <= k < cols.len(),
        k < vals.len(),
    ensures
        present_filters(cols.take(k + 1), vals.take(k + 1)) == match vals[k] {
            Some(v) => present_filters(cols.take(k), vals.take(k)).push((cols[k], v)),
            None => present_filters(cols.take(k), vals.take(k)),
        },
{
    assert(cols.take(k + 1).drop_last() =~= cols.take(k));
    assert(vals.take(k + 1).drop_last() =~= vals.take(k));
}

/// The filters of a listing whose field values are given in column order.
pub fn listing_filters(
    ip_address: &Option<String>,
    protocol: &Option<String>,
    fqdn: &Option<String>,
    path: &Option<String>,
    query: &Option<String>,
    city_name: &Option<String>,
    country_name: &Option<String>,
    country_code: &Option<String>,
) -> (r: Vec<(&'static str, String)>)
    ensures
        filters_view(r@) == present_filters(
            listing_columns(),
            seq![
                opt_view(ip_address),
                opt_view(protocol),
                opt_view(fqdn),
                opt_view(path),
                opt_view(query),
                opt_view(city_name),
                opt_view(country_name),
                opt_view(country_code),
            ],
        ),
{
    let ghost vals = seq![
        opt_view(ip_address),
        opt_view(protocol),
        opt_view(fqdn),
        opt_view(path),
        opt_view(query),
        opt_view(city_name),
        opt_view(country_name),
        opt_view(country_code),
    ];
    let ghost cols = listing_columns();
    let mut out: Vec<(&'static str, String)> = Vec::new();
    proof {
        assert(cols.take(0) =~= Seq::<Seq<char>>::empty());
        assert(filters_view(out@) =~= present_filters(cols.take(0), vals.take(0)));
    }
    push_filter(&mut out, "ip_address", ip_address);
    proof { lemma_present_step(cols, vals, 0); }
    push_filter(&mut out, "protocol", protocol);
    proof { lemma_present_step(cols, vals, 1); }
    push_filter(&mut out, "fqdn", fqdn);
    proof { lemma_present_step(cols, vals, 2); }
    push_filter(&mut out, "path", path);
    proof { lemma_present_step(cols, vals, 3); }
    push_filter(&mut out, "query", query);
    proof { lemma_present_step(cols, vals, 4); }
    push_filter(&mut out, "city_name", city_name);
    proof { lemma_present_step(cols, vals, 5); }
    push_filter(&mut out, "country_name", country_name);
    proof { lemma_present_step(cols, vals, 6); }
    push_filter(&mut out, "country_code", country_code);
    proof {
        lemma_present_step(cols, vals, 7);
        assert(cols.take(8) =~= cols);
        assert(vals.take(8) =~= vals);
    }
    out
}

/// The view of a list of column names.
pub open spec fn columns_view(cols: Seq<&'static str>) -> Seq<Seq<char>> {
    cols.map_values(|c: &'static str| c@)
}

/// The ordering a listing asks for: the named column, or `default` when none
/// is named, provided it is one of `allowed`; ascending unless `asc` says
/// otherwise.
pub open spec fn sort_spec(
    sort_by: Option<Seq<char>>,
    default: Option<Seq<char>>,
    allowed: Seq<Seq<char>>,
    asc: Option<bool>,
) -> Option<(Seq<char>, bool)> {
    let chosen = match sort_by {
        Some(s) => Some(s),
        None => default,
    };
    match chosen {
        Some(c) => if allowed.contains(c) {
            Some(
                (
                    c,
                    match asc {
                        Some(a) => a,
                        None => true,
                    },
                ),
            )
        } else {
            None
        },
        None => None,
    }
}

/// Picks the sort column of a listing from the allowed ones.
pub fn sort_order(
    sort_by: &Option<String>,
    default: Option<&'static str>,
    allowed: &Vec<&'static str>,
    asc: Option<bool>,
) -> (r: Option<(&'static str, bool)>)
    ensures
        match r {
            Some((c, up)) => Some((c@, up)),
            None => None,
        } == sort_spec(
            opt_view(sort_by),
            match default {
                Some(d) => Some(d@),
                None => None,
            },
            columns_view(allowed@),
            asc,
        ),
{
    let up = match asc {
        Some(a) => a,
        None => true,
    };
    let target: &str = match sort_by {
        Some(s) => s.as_str(),
        None => match default {
            Some(d) => d,
            None => {
                return None;
            },
        },
    };
    let ghost cols = columns_view(allowed@);
    let mut i: usize = 0;
    while i < allowed.len()
        invariant
            i <= allowed@.len(),
            cols == columns_view(allowed@),
            forall|k: int| 0 <= k < i ==> #[trigger] cols[k] != target@,
            match sort_by {
                Some(s) => target@ == s@,
                None => default matches Some(d) && target@ == d@,
            },
            up == match asc {
                Some(a) => a,
                None => true,
            },
        decreases allowed@.len() - i,
    {
        let c = allowed[i];
        assert(cols[i as int] == c@);
        if text_eq(c, target) {
            assert(cols[i as int] == target@);
            assert(cols.contains(target@));
            return Some((c, up));
        }
        i = i + 1;
    }
    assert(!cols.contains(target@));
    None
}

/// Columns that rule and suppression-entry listings sort on.
pub open spec fn entry_sort_columns() -> Seq<Seq<char>> {
    seq![
        "ip_address"@,
        "protocol"@,
        "fqdn"@,
        "path"@,
        "city_name"@,
        "country_name"@,
        "country_code"@,
    ]
}

pub fn entry_sort_columns_list() -> (r: Vec<&'static str>)
    ensures
        columns_view(r@) == entry_sort_columns(),
{
    let r: Vec<&'static str> = vec!["ip_address", "protocol", "fqdn", "path", "city_name", "country_name", "country_code"];
    assert(columns_view(r@) =~= entry_sort_columns());
    r
}

/// Columns that record listings sort on.
pub open spec fn record_sort_columns() -> Seq<Seq<char>> {
    seq![
        "created_at"@,
        "ip_address"@,
        "protocol"@,
        "fqdn"@,
        "path"@,
        "city_name"@,
        "country_name"@,
        "country_code"@,
    ]
}

pub fn record_sort_columns_list() -> (r: Vec<&'static str>)
    ensures
        columns_view(r@) == record_sort_columns(),
{
    let r: Vec<&'static str> = vec!["created_at", "ip_address", "protocol", "fqdn", "path", "city_name", "country_name", "country_code"];
    assert(columns_view(r@) =~= record_sort_columns());
    r
}

/// Columns that request listings sort on.
pub open spec fn request_sort_columns() -> Seq<Seq<char>> {
    seq![
        "created_at"@,
        "ip_address"@,
        "protocol"@,
        "fqdn"@,
        "path"@,
        "query"@,
        "city_name"@,
        "country_name"@,
        "country_code"@,
    ]
}

pub fn request_sort_columns_list() -> (r: Vec<&'static str>)
    ensures
        columns_view(r@) == request_sort_columns(),
{
    let r: Vec<&'static str> = vec!["created_at", "ip_address", "protocol", "fqdn", "path", "query", "city_name", "country_name", "country_code"];
    assert(columns_view(r@) =~= request_sort_columns());
    r
}

/// Query of the geo-enrichment utility.
#[derive(Clone, Debug, PartialEq, Eq)]
pub struct IPParam {
    pub ip: Option<String>,
}

} // verus!
