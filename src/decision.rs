//! The decision: match, suppression check, verdict, and what is kept.

use vstd::prelude::*;
use crate::descriptor::NewRequest;
use crate::ignored::{ignored_matches, Ignored};
use crate::rule::{rule_matches, Rule};
use crate::ruleset::{
    first_match_from,
    first_match_index,
    lemma_first_match_is_least,
    suppressed,
    IgnoredSet,
    RuleSet,
};

verus! {

/// Status sent when the request is allowed.
pub const STATUS_ALLOW: u16 = 200;

/// Status sent when the request is denied.
pub const STATUS_DENY: u16 = 403;

/// The outcome of evaluating one descriptor.
#[derive(Clone, Copy, PartialEq, Eq, Structural, Debug)]
pub struct Verdict {
    /// Whether the request may pass.
    pub allow: bool,
    /// The id of the rule that governed the request, if one matched.
    pub rule_id: Option<i32>,
    /// Whether the audit record is to be kept.
    pub store: bool,
}

/// The verdict for a descriptor. With no matching rule the request is
/// allowed and recorded. With one, the first match decides: its `allow` is
/// the verdict, and the record is kept only if the rule stores and no
/// suppression entry matches.
pub open spec fn decision(rules: Seq<Rule>, entries: Seq<Ignored>, request: NewRequest) -> Verdict {
    match first_match_index(rules, request) {
        Some(i) => Verdict {
            allow: rules[i].allow,
            rule_id: Some(rules[i].id),
            store: rules[i].store && !suppressed(entries, request),
        },
        None => Verdict { allow: true, rule_id: None, store: true },
    }
}

impl Verdict {
    /// The HTTP status: 200 to allow, 403 to deny.
    pub fn status(&self) -> (r: u16)
        ensures
            r == (if self.allow { STATUS_ALLOW } else { STATUS_DENY }),
    {
        if self.allow {
            STATUS_ALLOW
        } else {
            STATUS_DENY
        }
    }

    /// The response body: "Ok" to allow, "Ko" to deny. It says nothing of
    /// which rule fired.
    pub fn message(&self) -> (r: &'static str)
        ensures
            r@ == (if self.allow { "Ok"@ } else { "Ko"@ }),
    {
        if self.allow {
            "Ok"
        } else {
            "Ko"
        }
    }
}

/// Evaluates a descriptor: finds the governing rule, consults the
/// suppression set only when that rule would store, and returns the verdict.
pub fn decide(rules: &RuleSet, ignored: &IgnoredSet, request: &NewRequest) -> (r: Verdict)
    ensures
        r == decision(rules@, ignored@, *request),
{
    proof {
        lemma_first_match_is_least(rules@, *request, 0);
    }
    match rules.first_match(request) {
        Some(rule) => {
            let store = rule.rule.store && !ignored.suppress(request);
            Verdict { allow: rule.rule.allow, rule_id: Some(rule.rule.id), store }
        },
        None => Verdict { allow: true, rule_id: None, store: true },
    }
}

/// The descriptor with the governing rule's id written into it.
pub open spec fn tagged(request: NewRequest, rule_id: Option<i32>) -> NewRequest {
    NewRequest { rule_id, ..request }
}

/// Runs the decision on a descriptor and hands back the verdict together
/// with the record to persist: the descriptor tagged with the rule id when
/// the verdict keeps it, nothing otherwise.
pub fn evaluate(rules: &RuleSet, ignored: &IgnoredSet, request: NewRequest) -> (r: (
    Verdict,
    Option<NewRequest>,
))
    ensures
        r.0 == decision(rules@, ignored@, request),
        r.0.store ==> r.1 == Some(tagged(request, r.0.rule_id)),
        !r.0.store ==> r.1 is None,
{
    let verdict = decide(rules, ignored, &request);
    if verdict.store {
        let mut record = request;
        record.rule_id = verdict.rule_id;
        (verdict, Some(record))
    } else {
        (verdict, None)
    }
}

/// The first match depends on the matchable fields alone.
proof fn lemma_first_match_same_fields(rules: Seq<Rule>, a: NewRequest, b: NewRequest, from: int)
    requires
        a.fields() == b.fields(),
    ensures
        first_match_from(rules, a, from) == first_match_from(rules, b, from),
    decreases rules.len() - from,
{
    if 0 <= from < rules.len() {
        assert(rule_matches(rules[from], a) == rule_matches(rules[from], b));
        lemma_first_match_same_fields(rules, a, b, from + 1);
    }
}

/// Evaluation is idempotent: the record it tags, run through the same rule
/// and suppression sets again, gets the same rule id and the same verdict.
/// (The verdict is a function of the sets and the descriptor, so repeating
/// a call on an unchanged set repeats its result.)
pub proof fn lemma_decision_idempotent(rules: Seq<Rule>, entries: Seq<Ignored>, request: NewRequest)
    ensures
        decision(rules, entries, tagged(request, decision(rules, entries, request).rule_id))
            == decision(rules, entries, request),
{
    let again = tagged(request, decision(rules, entries, request).rule_id);
    assert(again.fields() =~= request.fields());
    lemma_first_match_same_fields(rules, again, request, 0);
    assert forall|j: int| 0 <= j < entries.len() implies #[trigger] ignored_matches(entries[j], again)
        == ignored_matches(entries[j], request) by {}
    if suppressed(entries, again) {
        let j = choose|j: int| 0 <= j < entries.len() && #[trigger] ignored_matches(entries[j], again);
        assert(ignored_matches(entries[j], request));
    }
    if suppressed(entries, request) {
        let j = choose|j: int| 0 <= j < entries.len() && #[trigger] ignored_matches(entries[j], request);
        assert(ignored_matches(entries[j], again));
    }
}

/// Suppression overrides a rule's `store`: when the governing rule stores
/// but a suppression entry matches the descriptor, nothing is kept.
pub proof fn lemma_suppression_overrides_store(
    rules: Seq<Rule>,
    entries: Seq<Ignored>,
    request: NewRequest,
    j: int,
)
    requires
        first_match_index(rules, request) matches Some(i) && rules[i].store,
        0 <= j < entries.len(),
        ignored_matches(entries[j], request),
    ensures
        !decision(rules, entries, request).store,
{
    assert(suppressed(entries, request));
}

} // verus!
