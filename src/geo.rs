//! Geo enrichment: city and country of a client address, from what a
//! MaxMind GeoIP2 city lookup found. Every failure degrades to absent fields.

use vstd::prelude::*;
use crate::descriptor::opt_view;
use crate::text::{find_first, first_value, pairs_view};

verus! {

/// The locale whose names are reported.
pub const GEO_LOCALE: &'static str = "en";

/// A city record as the database holds it: the names of the city and of the
/// country, each as (locale, name) pairs, and the country's ISO code.
#[derive(Clone, Debug, PartialEq, Eq)]
pub struct GeoCity {
    pub city_names: Vec<(String, String)>,
    pub country_names: Vec<(String, String)>,
    pub country_code: Option<String>,
}

/// Geo data of one client address.
#[derive(Clone, Debug, PartialEq, Eq)]
pub struct IPData {
    pub ip_address: String,
    pub city_name: Option<String>,
    pub country_name: Option<String>,
    pub country_code: Option<String>,
}

/// What enrichment yields from a lookup result: the English city and country
/// names and the country code, as the database holds them (absent when
/// missing); all absent when nothing was found.
pub open spec fn enriched(found: Option<GeoCity>) -> (Option<Seq<char>>, Option<Seq<char>>, Option<Seq<char>>) {
    match found {
        Some(c) => (
            first_value(pairs_view(c.city_names@), GEO_LOCALE@),
            first_value(pairs_view(c.country_names@), GEO_LOCALE@),
            opt_view(&c.country_code),
        ),
        None => (None, None, None),
    }
}

impl IPData {
    /// The geo data of `ip_address` from what the database lookup found:
    /// `None` when the address does not parse, is not in the database, or the
    /// lookup failed. It never fails.
    pub fn complete(ip_address: &str, found: Option<GeoCity>) -> (r: IPData)
        ensures
            r.ip_address@ == ip_address@,
            (opt_view(&r.city_name), opt_view(&r.country_name), opt_view(&r.country_code))
                == enriched(found),
    {
        match found {
            Some(c) => {
                let city_name = find_first(&c.city_names, GEO_LOCALE);
                let country_name = find_first(&c.country_names, GEO_LOCALE);
                let country_code = c.country_code;
                IPData { ip_address: ip_address.to_owned(), city_name, country_name, country_code }
            },
            None => IPData {
                ip_address: ip_address.to_owned(),
                city_name: None,
                country_name: None,
                country_code: None,
            },
        }
    }
}

} // verus!
