//! Per-field regex constraints shared by rules and suppression entries.

use vstd::prelude::*;
use crate::descriptor::{opt_view, NewRequest, MATCHABLE_FIELDS};
use crate::pattern::{regex_compiles, regex_finds, Pattern};

verus! {

/// The source of an optional compiled pattern.
pub open spec fn pattern_view(p: &Option<Pattern>) -> Option<Seq<char>> {
    match p {
        Some(q) => Some(q@),
        None => None,
    }
}

/// What a stored pattern becomes once compiled: an empty or invalid pattern
/// is dropped and leaves its field unconstrained.
pub open spec fn compiled_source(s: Option<Seq<char>>) -> Option<Seq<char>> {
    match s {
        Some(t) => if t.len() > 0 && regex_compiles(t) {
            Some(t)
        } else {
            None
        },
        None => None,
    }
}

/// One field constraint: it fails only when both a pattern and a value are
/// present and the pattern finds no match in the value.
pub open spec fn field_passes(p: Option<Seq<char>>, v: Option<Seq<char>>) -> bool {
    match (p, v) {
        (Some(src), Some(text)) => regex_finds(src, text),
        _ => true,
    }
}

/// All matchable fields pass.
pub open spec fn all_fields_pass(ps: Seq<Option<Seq<char>>>, vs: Seq<Option<Seq<char>>>) -> bool {
    forall|i: int| 0 <= i < MATCHABLE_FIELDS ==> #[trigger] field_passes(ps[i], vs[i])
}

/// The compiled form of a stored pattern list, field by field.
pub open spec fn compiled_sources(s: Seq<Option<Seq<char>>>) -> Seq<Option<Seq<char>>> {
    s.map_values(|x: Option<Seq<char>>| compiled_source(x))
}

/// Compiles one stored pattern; an empty or invalid one yields `None`.
pub fn compile_field(source: &Option<String>) -> (r: Option<Pattern>)
    ensures
        pattern_view(&r) == compiled_source(opt_view(source)),
{
    match source {
        Some(s) => {
            if s.as_str().is_empty() {
                None
            } else {
                Pattern::compile(s.as_str())
            }
        },
        None => None,
    }
}

/// Evaluates one field constraint.
pub fn field_matches(p: &Option<Pattern>, v: &Option<String>) -> (r: bool)
    ensures
        r == field_passes(pattern_view(p), opt_view(v)),
{
    match (p, v) {
        (Some(q), Some(text)) => q.is_match(text.as_str()),
        _ => true,
    }
}

/// The compiled patterns of the eight matchable fields.
pub struct FieldPatterns {
    pub ip_address: Option<Pattern>,
    pub protocol: Option<Pattern>,
    pub fqdn: Option<Pattern>,
    pub path: Option<Pattern>,
    pub query: Option<Pattern>,
    pub city_name: Option<Pattern>,
    pub country_name: Option<Pattern>,
    pub country_code: Option<Pattern>,
}

impl FieldPatterns {
    /// The pattern sources in the order of `NewRequest::fields`.
    pub open spec fn view(&self) -> Seq<Option<Seq<char>>> {
        seq![
            pattern_view(&self.ip_address),
            pattern_view(&self.protocol),
            pattern_view(&self.fqdn),
            pattern_view(&self.path),
            pattern_view(&self.query),
            pattern_view(&self.city_name),
            pattern_view(&self.country_name),
            pattern_view(&self.country_code),
        ]
    }

    /// Compiles the eight stored patterns, in the order of
    /// `NewRequest::fields`.
    pub fn from_sources(
        ip_address: &Option<String>,
        protocol: &Option<String>,
        fqdn: &Option<String>,
        path: &Option<String>,
        query: &Option<String>,
        city_name: &Option<String>,
        country_name: &Option<String>,
        country_code: &Option<String>,
    ) -> (r: FieldPatterns)
        ensures
            r@ == compiled_sources(
                seq![
                    opt_view(ip_address),
                    opt_view(protocol),
                    opt_view(fqdn),
                    opt_view(path),
                    opt_view(query),
                    opt_view(city_name),
                    opt_view(country_name),
                    opt_view(country_code),
                ],
            ),
    {
        let r = FieldPatterns {
            ip_address: compile_field(ip_address),
            protocol: compile_field(protocol),
            fqdn: compile_field(fqdn),
            path: compile_field(path),
            query: compile_field(query),
            city_name: compile_field(city_name),
            country_name: compile_field(country_name),
            country_code: compile_field(country_code),
        };
        assert(r@ =~= compiled_sources(
            seq![
                opt_view(ip_address),
                opt_view(protocol),
                opt_view(fqdn),
                opt_view(path),
                opt_view(query),
                opt_view(city_name),
                opt_view(country_name),
                opt_view(country_code),
            ],
        ));
        r
    }

    /// True when every field constraint passes for the descriptor.
    pub fn matches(&self, request: &NewRequest) -> (r: bool)
        ensures
            r == all_fields_pass(self@, request.fields()),
    {
        let r = field_matches(&self.ip_address, &request.ip_address)
            && field_matches(&self.protocol, &request.protocol)
            && field_matches(&self.fqdn, &request.fqdn)
            && field_matches(&self.path, &request.path)
            && field_matches(&self.query, &request.query)
            && field_matches(&self.city_name, &request.city_name)
            && field_matches(&self.country_name, &request.country_name)
            && field_matches(&self.country_code, &request.country_code);
        proof {
            let ps = self@;
            let vs = request.fields();
            if r {
                assert forall|i: int| 0 <= i < MATCHABLE_FIELDS implies #[trigger] field_passes(ps[i], vs[i]) by {
                    assert(0 <= i < 8);
                }
            } else {
                assert(!field_passes(ps[0], vs[0]) || !field_passes(ps[1], vs[1])
                    || !field_passes(ps[2], vs[2]) || !field_passes(ps[3], vs[3])
                    || !field_passes(ps[4], vs[4]) || !field_passes(ps[5], vs[5])
                    || !field_passes(ps[6], vs[6]) || !field_passes(ps[7], vs[7]));
            }
        }
        r
    }
}

} // verus!
