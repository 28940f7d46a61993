//! The ordered rule set (first match wins) and the suppression set.

use vstd::prelude::*;
use crate::descriptor::NewRequest;
use crate::ignored::{ignored_matches, CacheIgnored, Ignored};
use crate::rule::{rule_matches, CacheRule, Rule};

verus! {

broadcast use vstd::seq_lib::group_seq_properties;

/// The first index at or after `from` whose rule matches the descriptor.
pub open spec fn first_match_from(rules: Seq<Rule>, request: NewRequest, from: int) -> Option<int>
    decreases rules.len() - from,
{
    if from < 0 || from >= rules.len() {
        None
    } else if rule_matches(rules[from], request) {
        Some(from)
    } else {
        first_match_from(rules, request, from + 1)
    }
}

/// The position of the rule that governs the descriptor: the first one, in
/// evaluation order, that matches.
pub open spec fn first_match_index(rules: Seq<Rule>, request: NewRequest) -> Option<int> {
    first_match_from(rules, request, 0)
}

/// Whether any suppression entry matches the descriptor.
pub open spec fn suppressed(entries: Seq<Ignored>, request: NewRequest) -> bool {
    exists|i: int| 0 <= i < entries.len() && #[trigger] ignored_matches(entries[i], request)
}

/// The first match is the least matching position, and there is none when no
/// rule matches.
pub proof fn lemma_first_match_is_least(rules: Seq<Rule>, request: NewRequest, from: int)
    requires
        0 <= from,
    ensures
        first_match_from(rules, request, from) matches Some(i) ==> {
            &&& from <= i < rules.len()
            &&& rule_matches(rules[i], request)
            &&& forall|j: int| from <= j < i ==> !#[trigger] rule_matches(rules[j], request)
        },
        first_match_from(rules, request, from) is None ==> forall|j: int|
            from <= j < rules.len() ==> !#[trigger] rule_matches(rules[j], request),
    decreases rules.len() - from,
{
    if from < rules.len() && !rule_matches(rules[from], request) {
        lemma_first_match_is_least(rules, request, from + 1);
    }
}

/// The active rules of a sequence, in their order.
pub open spec fn active_rules(s: Seq<Rule>) -> Seq<Rule>
    decreases s.len(),
{
    if s.len() == 0 {
        s
    } else if s.last().active {
        active_rules(s.drop_last()).push(s.last())
    } else {
        active_rules(s.drop_last())
    }
}

/// The active suppression entries of a sequence, in their order.
pub open spec fn active_entries(s: Seq<Ignored>) -> Seq<Ignored>
    decreases s.len(),
{
    if s.len() == 0 {
        s
    } else if s.last().active {
        active_entries(s.drop_last()).push(s.last())
    } else {
        active_entries(s.drop_last())
    }
}

/// Inserts a rule into a sequence ordered by weight, after every rule of
/// equal or lower weight.
pub open spec fn insert_by_weight(s: Seq<Rule>, r: Rule) -> Seq<Rule>
    decreases s.len(),
{
    if s.len() == 0 {
        seq![r]
    } else if s.last().weight <= r.weight {
        s.push(r)
    } else {
        insert_by_weight(s.drop_last(), r).push(s.last())
    }
}

/// The rules ordered by ascending weight; rules of equal weight keep their
/// relative order.
pub open spec fn by_weight(s: Seq<Rule>) -> Seq<Rule>
    decreases s.len(),
{
    if s.len() == 0 {
        s
    } else {
        insert_by_weight(by_weight(s.drop_last()), s.last())
    }
}

/// The weights never decrease along the sequence.
pub open spec fn weight_ordered(s: Seq<Rule>) -> bool {
    forall|i: int, j: int| 0 <= i < j < s.len() ==> s[i].weight <= s[j].weight
}

/// Insertion at the first position from which every rule weighs more.
proof fn lemma_insert_at(s: Seq<Rule>, r: Rule, pos: int)
    requires
        0 <= pos <= s.len(),
        pos > 0 ==> s[pos - 1].weight <= r.weight,
        forall|k: int| pos <= k < s.len() ==> s[k].weight > r.weight,
    ensures
        insert_by_weight(s, r) == s.insert(pos, r),
    decreases s.len(),
{
    if s.len() == 0 {
        assert(s.insert(pos, r) =~= seq![r]);
    } else if s.last().weight <= r.weight {
        assert(s.insert(pos, r) =~= s.push(r));
    } else {
        lemma_insert_at(s.drop_last(), r, pos);
        assert(s.drop_last().insert(pos, r).push(s.last()) =~= s.insert(pos, r));
    }
}

/// Inserting by weight keeps a sequence ordered.
proof fn lemma_insert_ordered(s: Seq<Rule>, r: Rule)
    requires
        weight_ordered(s),
    ensures
        weight_ordered(insert_by_weight(s, r)),
        insert_by_weight(s, r).len() == s.len() + 1,
        forall|k: int| 0 <= k < insert_by_weight(s, r).len() ==> {
            ||| #[trigger] insert_by_weight(s, r)[k] == r
            ||| s.contains(insert_by_weight(s, r)[k])
        },
    decreases s.len(),
{
    if s.len() > 0 && s.last().weight > r.weight {
        let t = s.drop_last();
        lemma_insert_ordered(t, r);
        let u = insert_by_weight(t, r);
        assert forall|k: int| 0 <= k < u.len() implies (#[trigger] u[k]).weight <= s.last().weight by {
            if u[k] != r {
                let m = choose|m: int| 0 <= m < t.len() && t[m] == u[k];
                assert(s[m] == t[m]);
            }
        }
        assert forall|k: int| 0 <= k < u.len() implies #[trigger] u[k] == r || s.contains(u[k]) by {
            if u[k] != r {
                let m = choose|m: int| 0 <= m < t.len() && t[m] == u[k];
                assert(s[m] == u[k]);
            }
        }
    }
}

/// The weights of `by_weight(s)` never decrease.
pub proof fn lemma_by_weight_ordered(s: Seq<Rule>)
    ensures
        weight_ordered(by_weight(s)),
        by_weight(s).len() == s.len(),
    decreases s.len(),
{
    if s.len() > 0 {
        lemma_by_weight_ordered(s.drop_last());
        lemma_insert_ordered(by_weight(s.drop_last()), s.last());
    }
}

/// The active rules, compiled, in evaluation order.
pub struct RuleSet {
    rules: Vec<CacheRule>,
}

/// Inserts a compiled rule after every rule of equal or lower weight.
fn insert_by_weight_exec(rules: &mut Vec<CacheRule>, c: CacheRule)
    requires
        weight_ordered(old(rules)@.map_values(|x: CacheRule| x.rule)),
    ensures
        final(rules)@.map_values(|x: CacheRule| x.rule) == insert_by_weight(
            old(rules)@.map_values(|x: CacheRule| x.rule),
            c.rule,
        ),
        forall|k: int| 0 <= k < final(rules)@.len() ==> {
            ||| #[trigger] final(rules)@[k] == c
            ||| old(rules)@.contains(final(rules)@[k])
        },
{
    let ghost s = rules@.map_values(|x: CacheRule| x.rule);
    let mut pos: usize = rules.len();
    while pos > 0 && rules[pos - 1].rule.weight > c.rule.weight
        invariant
            pos <= rules@.len(),
            s == rules@.map_values(|x: CacheRule| x.rule),
            forall|k: int| pos <= k < rules@.len() ==> s[k].weight > c.rule.weight,
        decreases pos,
    {
        pos = pos - 1;
    }
    proof {
        lemma_insert_at(s, c.rule, pos as int);
    }
    let ghost before = rules@;
    rules.insert(pos, c);
    assert(rules@.map_values(|x: CacheRule| x.rule) =~= s.insert(pos as int, c.rule));
    assert forall|k: int| 0 <= k < rules@.len() implies #[trigger] rules@[k] == c
        || before.contains(rules@[k]) by {
        if k < pos {
            assert(rules@[k] == before[k]);
        } else if k > pos {
            assert(rules@[k] == before[k - 1]);
        }
    }
}

impl RuleSet {
    /// The rules in evaluation order.
    pub closed spec fn view(&self) -> Seq<Rule> {
        self.rules@.map_values(|c: CacheRule| c.rule)
    }

    #[verifier::type_invariant]
    closed spec fn inv(&self) -> bool {
        forall|i: int| 0 <= i < self.rules@.len() ==> {
            &&& #[trigger] self.rules@[i].wf()
            &&& self.rules@[i].rule.active
        }
    }

    /// An empty set: every descriptor is allowed by default.
    pub fn empty() -> (r: RuleSet)
        ensures
            r@ == Seq::<Rule>::empty(),
    {
        let r = RuleSet { rules: Vec::new() };
        assert(r@ =~= Seq::<Rule>::empty());
        r
    }

    /// Builds the set from loaded rules: keeps the active ones, compiles
    /// their patterns, and orders them by ascending weight, rules of equal
    /// weight in the order given.
    pub fn new(rules: Vec<Rule>) -> (r: RuleSet)
        ensures
            r@ == by_weight(active_rules(rules@)),
            weight_ordered(r@),
    {
        let ghost all = rules@;
        let mut rest = rules;
        let mut compiled: Vec<CacheRule> = Vec::new();
        let ghost mut taken: Seq<Rule> = Seq::empty();
        while rest.len() > 0
            invariant
                taken + rest@ == all,
                compiled@.map_values(|c: CacheRule| c.rule) == by_weight(active_rules(taken)),
                forall|i: int| 0 <= i < compiled@.len() ==> {
                    &&& #[trigger] compiled@[i].wf()
                    &&& compiled@[i].rule.active
                },
            decreases rest.len(),
        {
            let rule = rest.remove(0);
            let ghost taken_before = taken;
            proof {
                assert(taken.push(rule) + rest@ =~= all);
                taken = taken.push(rule);
            }
            assert(taken.drop_last() =~= taken_before);
            if rule.active {
                let c = CacheRule::from_rule(rule);
                let ghost prev = compiled@;
                proof {
                    lemma_by_weight_ordered(active_rules(taken_before));
                }
                insert_by_weight_exec(&mut compiled, c);
                proof {
                    let a = active_rules(taken_before);
                    assert(active_rules(taken) == a.push(rule));
                    assert(a.push(rule).drop_last() =~= a);
                    assert forall|i: int| 0 <= i < compiled@.len() implies #[trigger] compiled@[i].wf()
                        && compiled@[i].rule.active by {
                        if compiled@[i] != c {
                            let m = choose|m: int| 0 <= m < prev.len() && prev[m] == compiled@[i];
                            assert(prev[m].wf());
                        }
                    }
                }
            } else {
                assert(active_rules(taken) == active_rules(taken_before));
            }
        }
        assert(taken =~= all);
        assert(forall|i: int| 0 <= i < compiled@.len() ==> #[trigger] compiled@[i].wf() && compiled@[i].rule.active);
        let r = RuleSet { rules: compiled };
        assert(r@ =~= by_weight(active_rules(all)));
        proof {
            lemma_by_weight_ordered(active_rules(all));
        }
        r
    }

    /// Replaces the whole set at once with a freshly built one.
    pub fn reload(&mut self, rules: Vec<Rule>)
        ensures
            final(self)@ == by_weight(active_rules(rules@)),
            weight_ordered(final(self)@),
    {
        *self = RuleSet::new(rules);
    }

    pub fn len(&self) -> (r: usize)
        ensures
            r == self@.len(),
    {
        self.rules.len()
    }

    /// Scans the rules in order and stops at the first that matches. Returns
    /// its position and the number of rules whose `matches` was evaluated:
    /// one more than the position on a match, all of them otherwise.
    pub fn first_match_counted(&self, request: &NewRequest) -> (r: (Option<usize>, usize))
        ensures
            r.0 matches Some(i) ==> first_match_index(self@, *request) == Some(i as int)
                && r.1 == i + 1,
            r.0 is None ==> first_match_index(self@, *request) is None && r.1 == self@.len(),
    {
        proof {
            use_type_invariant(self);
        }
        let mut i: usize = 0;
        let mut evaluated: usize = 0;
        while i < self.rules.len()
            invariant
                i <= self.rules@.len(),
                evaluated == i,
                first_match_from(self@, *request, 0) == first_match_from(self@, *request, i as int),
                forall|k: int| 0 <= k < self.rules@.len() ==> {
                    &&& #[trigger] self.rules@[k].wf()
                    &&& self.rules@[k].rule.active
                },
            decreases self.rules@.len() - i,
        {
            evaluated = evaluated + 1;
            if self.rules[i].matches(request) {
                return (Some(i), evaluated);
            }
            i = i + 1;
        }
        (None, evaluated)
    }

    /// The rule that governs the descriptor, if any: the first in order that
    /// matches.
    pub fn first_match(&self, request: &NewRequest) -> (r: Option<&CacheRule>)
        ensures
            r matches Some(c) ==> first_match_index(self@, *request) matches Some(i) && c.rule
                == self@[i] && c.wf(),
            r is None ==> first_match_index(self@, *request) is None,
    {
        proof {
            use_type_invariant(self);
        }
        let (found, _) = self.first_match_counted(request);
        proof {
            lemma_first_match_is_least(self@, *request, 0);
        }
        match found {
            Some(i) => Some(&self.rules[i]),
            None => None,
        }
    }
}

/// The active suppression entries, compiled.
pub struct IgnoredSet {
    entries: Vec<CacheIgnored>,
}

impl IgnoredSet {
    pub closed spec fn view(&self) -> Seq<Ignored> {
        self.entries@.map_values(|c: CacheIgnored| c.ignored)
    }

    #[verifier::type_invariant]
    closed spec fn inv(&self) -> bool {
        forall|i: int| 0 <= i < self.entries@.len() ==> {
            &&& #[trigger] self.entries@[i].wf()
            &&& self.entries@[i].ignored.active
        }
    }

    /// An empty set: nothing is suppressed.
    pub fn empty() -> (r: IgnoredSet)
        ensures
            r@ == Seq::<Ignored>::empty(),
    {
        let r = IgnoredSet { entries: Vec::new() };
        assert(r@ =~= Seq::<Ignored>::empty());
        r
    }

    /// Builds the set from loaded entries, keeping the active ones.
    pub fn new(entries: Vec<Ignored>) -> (r: IgnoredSet)
        ensures
            r@ == active_entries(entries@),
    {
        let ghost all = entries@;
        let mut rest = entries;
        let mut compiled: Vec<CacheIgnored> = Vec::new();
        let ghost mut taken: Seq<Ignored> = Seq::empty();
        while rest.len() > 0
            invariant
                taken + rest@ == all,
                compiled@.map_values(|c: CacheIgnored| c.ignored) == active_entries(taken),
                forall|i: int| 0 <= i < compiled@.len() ==> {
                    &&& #[trigger] compiled@[i].wf()
                    &&& compiled@[i].ignored.active
                },
            decreases rest.len(),
        {
            let entry = rest.remove(0);
            let ghost taken_before = taken;
            proof {
                assert(taken.push(entry) + rest@ =~= all);
                taken = taken.push(entry);
            }
            if entry.active {
                let c = CacheIgnored::from_ignored(entry);
                compiled.push(c);
            }
            assert(taken.drop_last() =~= taken_before);
            assert(compiled@.map_values(|c: CacheIgnored| c.ignored) =~= active_entries(taken));
        }
        assert(taken =~= all);
        assert(forall|i: int| 0 <= i < compiled@.len() ==> #[trigger] compiled@[i].wf() && compiled@[i].ignored.active);
        IgnoredSet { entries: compiled }
    }

    /// Replaces the whole set at once with a freshly built one.
    pub fn reload(&mut self, entries: Vec<Ignored>)
        ensures
            final(self)@ == active_entries(entries@),
    {
        *self = IgnoredSet::new(entries);
    }

    /// True when some entry matches the descriptor.
    pub fn suppress(&self, request: &NewRequest) -> (r: bool)
        ensures
            r == suppressed(self@, *request),
    {
        proof {
            use_type_invariant(self);
        }
        let mut i: usize = 0;
        while i < self.entries.len()
            invariant
                i <= self.entries@.len(),
                forall|k: int| 0 <= k < i ==> !#[trigger] ignored_matches(self@[k], *request),
                forall|k: int| 0 <= k < self.entries@.len() ==> {
                    &&& #[trigger] self.entries@[k].wf()
                    &&& self.entries@[k].ignored.active
                },
            decreases self.entries@.len() - i,
        {
            if self.entries[i].matches(request) {
                assert(ignored_matches(self@[i as int], *request));
                return true;
            }
            i = i + 1;
        }
        false
    }
}

} // verus!
