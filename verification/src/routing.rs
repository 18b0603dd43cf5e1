//! Choosing the mock API that answers a request among those registered for
//! its URL: an API whose header rules all hold wins; else one without rules.

use vstd::prelude::*;
use crate::models::MockApi;
use crate::strmap::{has_key_at, StrMap};
use crate::text::{lowercase, to_lowercase};

verus! {

/// Every rule `name: value` holds: the request has a header whose
/// lowercased name is the rule's name lowercased, with exactly that value.
pub open spec fn rules_hold(
    rules: Map<Seq<char>, Seq<char>>,
    req: Map<Seq<char>, Seq<char>>,
) -> bool {
    forall|k: Seq<char>| #[trigger]
        rules.contains_key(k) ==> req.contains_key(lowercase(k)) && req[lowercase(k)] == rules[k]
}

/// The request headers meet one rule.
pub open spec fn rule_met(req: Map<Seq<char>, Seq<char>>, rule: (Seq<char>, Seq<char>)) -> bool {
    req.contains_key(lowercase(rule.0)) && req[lowercase(rule.0)] == rule.1
}

/// The API has header rules, at least one, and the request meets them all.
pub open spec fn matches_exactly(api: MockApi, req: Map<Seq<char>, Seq<char>>) -> bool {
    &&& api.match_headers matches Some(r)
    &&& r@ != Map::<Seq<char>, Seq<char>>::empty()
    &&& rules_hold(r@, req)
}

/// The API has no header rules, and so serves any request as a fallback.
pub open spec fn is_fallback(api: MockApi) -> bool {
    ||| api.match_headers is None
    ||| (api.match_headers matches Some(r) && r@ == Map::<Seq<char>, Seq<char>>::empty())
}

/// Index `i` is the one chosen among `c` for request headers `req`: the
/// first exact match; where there is none, the first fallback.
pub open spec fn is_choice(c: Seq<MockApi>, req: Map<Seq<char>, Seq<char>>, i: int) -> bool {
    &&& 0 <= i < c.len()
    &&& {
        ||| (matches_exactly(c[i], req) && forall|j: int|
            0 <= j < i ==> !matches_exactly(#[trigger] c[j], req))
        ||| ((forall|j: int| 0 <= j < c.len() ==> !matches_exactly(#[trigger] c[j], req))
            && is_fallback(c[i]) && forall|j: int| 0 <= j < i ==> !is_fallback(#[trigger] c[j]))
    }
}

/// No API among `c` can answer: none matches exactly and none is a fallback.
pub open spec fn no_choice(c: Seq<MockApi>, req: Map<Seq<char>, Seq<char>>) -> bool {
    forall|j: int| 0 <= j < c.len() ==> !matches_exactly(#[trigger] c[j], req) && !is_fallback(c[j])
}

/// `api` has at least one header rule, and every rule names a request
/// header (compared lowercased) that has exactly the rule's value.
pub open spec fn has_met_rules(api: MockApi, req: Map<Seq<char>, Seq<char>>) -> bool {
    &&& api.match_headers matches Some(r)
    &&& exists|k: Seq<char>| r@.contains_key(k)
    &&& forall|k: Seq<char>| #[trigger]
        r@.contains_key(k) ==> req.contains_key(lowercase(k)) && req[lowercase(k)] == r@[k]
}

/// `api` has no header rules: none at all, or an empty set.
pub open spec fn has_no_rules(api: MockApi) -> bool {
    match api.match_headers {
        None => true,
        Some(r) => forall|k: Seq<char>| !r@.contains_key(k),
    }
}

/// Routing law: where some candidate has rules, at least one, that the
/// request meets, the chosen API is the first such candidate; an API with
/// no rules (absent or empty) is chosen only where no candidate has rules
/// that the request meets, and then it is the first rule-less one.
pub proof fn law_rules_before_fallback(c: Seq<MockApi>, req: Map<Seq<char>, Seq<char>>, i: int)
    requires
        is_choice(c, req, i),
    ensures
        (exists|j: int| 0 <= j < c.len() && has_met_rules(#[trigger] c[j], req)) ==> {
            &&& has_met_rules(c[i], req)
            &&& forall|j: int| 0 <= j < i ==> !has_met_rules(#[trigger] c[j], req)
        },
        has_no_rules(c[i]) ==> forall|j: int| 0 <= j < c.len() ==> !has_met_rules(#[trigger] c[j], req),
{
    assert forall|j: int| 0 <= j < c.len() implies #[trigger] has_met_rules(c[j], req)
        == matches_exactly(c[j], req) by {
        lemma_met_rules_exact(c[j], req);
    }
    if has_no_rules(c[i]) {
        lemma_met_rules_exact(c[i], req);
        if let Some(r) = c[i].match_headers {
            assert(r@ =~= Map::<Seq<char>, Seq<char>>::empty());
        }
    }
}

proof fn lemma_met_rules_exact(api: MockApi, req: Map<Seq<char>, Seq<char>>)
    ensures
        has_met_rules(api, req) == matches_exactly(api, req),
{
    if let Some(r) = api.match_headers {
        let m = r@;
        let some_key = exists|k: Seq<char>| m.contains_key(k);
        assert(some_key <==> m != Map::<Seq<char>, Seq<char>>::empty()) by {
            if some_key {
                let k = choose|k: Seq<char>| m.contains_key(k);
                assert(!Map::<Seq<char>, Seq<char>>::empty().contains_key(k));
            } else {
                assert(m =~= Map::<Seq<char>, Seq<char>>::empty());
            }
        }
        assert(has_met_rules(api, req) <==> (some_key && rules_hold(m, req)));
    }
}

/// Whether the request headers meet every rule.
pub fn rules_satisfied(rules: &StrMap, req: &StrMap) -> (b: bool)
    ensures
        b == rules_hold(rules@, req@),
{
    proof {
        use_type_invariant(rules);
        rules.lemma_view();
    }
    let n = rules.len();
    let mut i: usize = 0;
    while i < n
        invariant
            n == rules.pairs().len(),
            i <= n,
            forall|j: int| 0 <= j < i ==> rule_met(req@, #[trigger] rules.pairs()[j]),
        decreases n - i,
    {
        let key = to_lowercase(rules.key_at(i).as_str());
        let ok = match req.get(key.as_str()) {
            Some(v) => *v == *rules.value_at(i),
            None => false,
        };
        if !ok {
            proof {
                use_type_invariant(rules);
                rules.lemma_view();
                let k = rules.pairs()[i as int].0;
                assert(has_key_at(rules.pairs(), k, i as int));
                assert(rules@.contains_key(k));
                assert(rules@[k] == rules.pairs()[i as int].1);
            }
            return false;
        }
        assert(rule_met(req@, rules.pairs()[i as int]));
        i = i + 1;
    }
    proof {
        use_type_invariant(rules);
        rules.lemma_view();
        assert forall|k: Seq<char>| #[trigger] rules@.contains_key(k) implies req@.contains_key(
            lowercase(k),
        ) && req@[lowercase(k)] == rules@[k] by {
            let j = choose|j: int| has_key_at(rules.pairs(), k, j);
            assert(rules@[rules.pairs()[j].0] == rules.pairs()[j].1);
            assert(rule_met(req@, rules.pairs()[j]));
        }
    }
    true
}

/// Whether `api` matches the request headers exactly.
pub fn exact_match(api: &MockApi, req: &StrMap) -> (b: bool)
    ensures
        b == matches_exactly(*api, req@),
{
    match &api.match_headers {
        Some(rules) => !rules.is_empty() && rules_satisfied(rules, req),
        None => false,
    }
}

/// Whether `api` has no header rules.
pub fn fallback(api: &MockApi) -> (b: bool)
    ensures
        b == is_fallback(*api),
{
    match &api.match_headers {
        Some(rules) => rules.is_empty(),
        None => true,
    }
}

/// The position of the API that answers among `candidates`.
pub fn select_api(candidates: &Vec<MockApi>, req: &StrMap) -> (r: Option<usize>)
    ensures
        match r {
            Some(i) => is_choice(candidates@, req@, i as int),
            None => no_choice(candidates@, req@),
        },
{
    let n = candidates.len();
    let mut i: usize = 0;
    while i < n
        invariant
            n == candidates@.len(),
            i <= n,
            forall|j: int| 0 <= j < i ==> !matches_exactly(#[trigger] candidates@[j], req@),
        decreases n - i,
    {
        if exact_match(&candidates[i], req) {
            return Some(i);
        }
        i = i + 1;
    }
    let mut i: usize = 0;
    while i < n
        invariant
            n == candidates@.len(),
            i <= n,
            forall|j: int| 0 <= j < n ==> !matches_exactly(#[trigger] candidates@[j], req@),
            forall|j: int| 0 <= j < i ==> !is_fallback(#[trigger] candidates@[j]),
        decreases n - i,
    {
        if fallback(&candidates[i]) {
            return Some(i);
        }
        i = i + 1;
    }
    None
}

/// The API that answers a request with headers `req` among those
/// registered for its URL, in their stored order.
pub fn match_api_by_headers(candidates: Vec<MockApi>, req: &StrMap) -> (r: Option<MockApi>)
    ensures
        match r {
            Some(api) => exists|i: int|
                is_choice(candidates@, req@, i) && #[trigger] candidates@[i] == api,
            None => no_choice(candidates@, req@),
        },
{
    let mut candidates = candidates;
    match select_api(&candidates, req) {
        Some(i) => {
            let ghost c = candidates@;
            let api = candidates.remove(i);
            assert(c[i as int] == api);
            Some(api)
        },
        None => None,
    }
}

} // verus!
