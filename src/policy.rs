use std::collections::HashMap;
use vstd::prelude::*;

use crate::text::{starts_with, str_eq};

verus! {

/// One named policy statement: traffic of `protocol` whose resource begins
/// with `resource` is admitted to callers holding every group of
/// `require_groups`.
#[derive(Debug, Clone)]
pub struct Rule {
    pub name: String,
    pub protocol: String,
    pub resource: String,
    pub require_groups: Vec<String>,
    pub inject: Option<HashMap<String, String>>,
}

/// An ordered list of rules; earlier rules take priority over later ones.
#[derive(Debug, Clone)]
pub struct Policy {
    pub rules: Vec<Rule>,
}

/// Why a list of rules cannot form a policy.
#[derive(Debug, Clone, PartialEq, Eq)]
pub enum PolicyLoadError {
    /// Two rules share this name.
    DuplicateName(String),
}

/// No two rules share a name.
pub open spec fn names_unique(rules: Seq<Rule>) -> bool {
    forall|i: int, j: int|
        0 <= i < j < rules.len() ==> (#[trigger] rules[i]).name@ != (#[trigger] rules[j]).name@
}

/// The abstract outcome of evaluating a policy on one request.
pub struct Verdict {
    pub allow: bool,
    pub inject: Option<Map<String, String>>,
    pub reason: Seq<char>,
}

/// The names of a list of groups.
pub open spec fn group_names(groups: Seq<String>) -> Seq<Seq<char>> {
    groups.map_values(|g: String| g@)
}

/// The contents of an optional header map.
pub open spec fn inject_view(m: Option<HashMap<String, String>>) -> Option<Map<String, String>> {
    match m {
        Some(h) => Some(h@),
        None => None,
    }
}

impl Rule {
    /// The rule applies to a request: same protocol, and the rule's resource
    /// is a prefix of the requested one.
    pub open spec fn matches(&self, protocol: Seq<char>, resource: Seq<char>) -> bool {
        self.protocol@ == protocol && self.resource@.is_prefix_of(resource)
    }

    /// Every required group is among `groups`.
    pub open spec fn admits(&self, groups: Seq<Seq<char>>) -> bool {
        forall|i: int|
            0 <= i < self.require_groups@.len() ==> groups.contains(
                #[trigger] self.require_groups@[i]@,
            )
    }

    /// The outcome decided by this rule once it has matched.
    pub open spec fn verdict(&self, groups: Seq<Seq<char>>) -> Verdict {
        if self.admits(groups) {
            Verdict { allow: true, inject: inject_view(self.inject), reason: "policy: "@ + self.name@ }
        } else {
            Verdict { allow: false, inject: None, reason: "missing group"@ }
        }
    }
}

/// The index of the first rule that matches, if any.
pub open spec fn first_match(rules: Seq<Rule>, protocol: Seq<char>, resource: Seq<char>) -> Option<
    int,
>
    decreases rules.len(),
{
    if rules.len() == 0 {
        None
    } else {
        match first_match(rules.drop_last(), protocol, resource) {
            Some(i) => Some(i),
            None => if rules.last().matches(protocol, resource) {
                Some(rules.len() - 1)
            } else {
                None
            },
        }
    }
}

/// The outcome of a whole policy: the first matching rule decides, and a
/// request that no rule matches is denied.
pub open spec fn verdict_of(
    rules: Seq<Rule>,
    protocol: Seq<char>,
    resource: Seq<char>,
    groups: Seq<Seq<char>>,
) -> Verdict {
    match first_match(rules, protocol, resource) {
        Some(i) => rules[i].verdict(groups),
        None => Verdict { allow: false, inject: None, reason: "default-deny"@ },
    }
}

/// `r` is the executable form of the verdict `v`.
pub open spec fn realizes(r: (bool, Option<HashMap<String, String>>, String), v: Verdict) -> bool {
    &&& r.0 == v.allow
    &&& inject_view(r.1) == v.inject
    &&& r.2@ == v.reason
}

/// `first_match` is the least index of a matching rule.
pub proof fn lemma_first_match(rules: Seq<Rule>, protocol: Seq<char>, resource: Seq<char>)
    ensures
        match first_match(rules, protocol, resource) {
            Some(i) => {
                &&& 0 <= i < rules.len()
                &&& rules[i].matches(protocol, resource)
                &&& forall|k: int| 0 <= k < i ==> !(#[trigger] rules[k]).matches(protocol, resource)
            },
            None => forall|k: int|
                0 <= k < rules.len() ==> !(#[trigger] rules[k]).matches(protocol, resource),
        },
    decreases rules.len(),
{
    if rules.len() > 0 {
        let front = rules.drop_last();
        lemma_first_match(front, protocol, resource);
        assert forall|k: int| 0 <= k < front.len() implies #[trigger] rules[k] == front[k] by {}
    }
}

/// Whether `g` names one of `groups`.
fn holds_group(groups: &[String], g: &String) -> (r: bool)
    ensures
        r == group_names(groups@).contains(g@),
{
    let mut i: usize = 0;
    while i < groups.len()
        invariant
            i <= groups@.len(),
            forall|k: int| 0 <= k < i ==> groups@[k]@ != g@,
        decreases groups@.len() - i,
    {
        if groups[i] == *g {
            assert(group_names(groups@)[i as int] == g@);
            return true;
        }
        i = i + 1;
    }
    proof {
        if group_names(groups@).contains(g@) {
            let k = choose|k: int| 0 <= k < groups@.len() && group_names(groups@)[k] == g@;
            assert(groups@[k]@ == g@);
        }
    }
    false
}

impl Rule {
    /// Whether every required group of this rule is among `groups`.
    pub fn admits_groups(&self, groups: &[String]) -> (r: bool)
        ensures
            r == self.admits(group_names(groups@)),
    {
        let mut i: usize = 0;
        while i < self.require_groups.len()
            invariant
                i <= self.require_groups@.len(),
                forall|k: int|
                    0 <= k < i ==> group_names(groups@).contains(
                        #[trigger] self.require_groups@[k]@,
                    ),
            decreases self.require_groups@.len() - i,
        {
            if !holds_group(groups, &self.require_groups[i]) {
                return false;
            }
            i = i + 1;
        }
        true
    }
}

/// Whether some rule of `rules[0..n)` is named `name`.
fn name_taken(rules: &Vec<Rule>, n: usize, name: &String) -> (r: bool)
    requires
        n <= rules@.len(),
    ensures
        r == exists|k: int| 0 <= k < n && (#[trigger] rules@[k]).name@ == name@,
{
    let mut k: usize = 0;
    while k < n
        invariant
            n <= rules@.len(),
            k <= n,
            forall|m: int| 0 <= m < k ==> (#[trigger] rules@[m]).name@ != name@,
        decreases n - k,
    {
        if rules[k].name == *name {
            return true;
        }
        k = k + 1;
    }
    false
}

impl Policy {
    /// The rules form a policy: their names are unique.
    pub open spec fn wf(&self) -> bool {
        names_unique(self.rules@)
    }

    /// Makes a policy of `rules`, kept in the given order. A list in which
    /// two rules share a name is refused, naming the first name repeated.
    pub fn new(rules: Vec<Rule>) -> (r: Result<Policy, PolicyLoadError>)
        ensures
            r is Ok <==> names_unique(rules@),
            r is Ok ==> r->Ok_0.rules@ == rules@ && r->Ok_0.wf(),
            r is Err ==> exists|i: int, j: int|
                0 <= i < j < rules@.len() && rules@[i].name@ == rules@[j].name@ && (
                r->Err_0)->DuplicateName_0@ == rules@[j].name@,
    {
        let mut j: usize = 0;
        while j < rules.len()
            invariant
                j <= rules@.len(),
                names_unique(rules@.subrange(0, j as int)),
            decreases rules@.len() - j,
        {
            if name_taken(&rules, j, &rules[j].name) {
                let name = rules[j].name.clone();
                return Err(PolicyLoadError::DuplicateName(name));
            }
            assert forall|a: int, b: int|
                0 <= a < b < j + 1 implies (#[trigger] rules@.subrange(0, j + 1)[a]).name@
                != (#[trigger] rules@.subrange(0, j + 1)[b]).name@ by {
                if b < j {
                    assert(rules@.subrange(0, j as int)[a] == rules@[a]);
                    assert(rules@.subrange(0, j as int)[b] == rules@[b]);
                } else {
                    assert(rules@[a].name@ != rules@[j as int].name@);
                }
            }
            j = j + 1;
        }
        assert(rules@.subrange(0, j as int) == rules@);
        Ok(Policy { rules })
    }

    /// Evaluates the policy for one request. The first rule whose protocol
    /// equals `protocol` and whose resource is a prefix of `resource`
    /// decides: access is granted when `groups` holds every group the rule
    /// requires. A request that no rule matches is denied with reason
    /// `default-deny`.
    pub fn decide(&self, protocol: &str, resource: &str, groups: &[String]) -> (r: (
        bool,
        Option<HashMap<String, String>>,
        String,
    ))
        ensures
            realizes(r, verdict_of(self.rules@, protocol@, resource@, group_names(groups@))),
    {
        let mut i: usize = 0;
        while i < self.rules.len()
            invariant
                i <= self.rules@.len(),
                first_match(self.rules@.subrange(0, i as int), protocol@, resource@) is None,
            decreases self.rules@.len() - i,
        {
            let r = &self.rules[i];
            let ghost prefix = self.rules@.subrange(0, i + 1);
            assert(prefix.drop_last() == self.rules@.subrange(0, i as int));
            if str_eq(r.protocol.as_str(), protocol) && starts_with(resource, r.resource.as_str()) {
                proof {
                    lemma_first_match(self.rules@, protocol@, resource@);
                    lemma_first_match(prefix, protocol@, resource@);
                    lemma_first_match_extends(self.rules@, protocol@, resource@, i + 1);
                }
                let ok = r.admits_groups(groups);
                let inject = match &r.inject {
                    Some(m) if ok => Some(m.clone()),
                    _ => None,
                };
                let reason = if ok {
                    let mut s = String::from_str("policy: ");
                    s.append(r.name.as_str());
                    s
                } else {
                    String::from_str("missing group")
                };
                return (ok, inject, reason);
            }
            i = i + 1;
        }
        assert(self.rules@.subrange(0, i as int) == self.rules@);
        (false, None, String::from_str("default-deny"))
    }
}

/// A match found in a prefix of the rules is the match of the whole list.
pub proof fn lemma_first_match_extends(
    rules: Seq<Rule>,
    protocol: Seq<char>,
    resource: Seq<char>,
    n: int,
)
    requires
        0 <= n <= rules.len(),
        first_match(rules.subrange(0, n), protocol, resource) is Some,
    ensures
        first_match(rules, protocol, resource) == first_match(rules.subrange(0, n), protocol, resource),
    decreases rules.len() - n,
{
    if n < rules.len() {
        assert(rules.subrange(0, n + 1).drop_last() == rules.subrange(0, n));
        lemma_first_match_extends(rules, protocol, resource, n + 1);
    } else {
        assert(rules.subrange(0, n) == rules);
    }
}

/// Evaluation is a pure function of the policy and the request: any two
/// results that meet the contract of `Policy::decide` on the same inputs
/// agree on the decision, the injected headers and the reason.
pub proof fn law_decide_deterministic(
    policy: Policy,
    protocol: Seq<char>,
    resource: Seq<char>,
    groups: Seq<Seq<char>>,
    first: (bool, Option<HashMap<String, String>>, String),
    second: (bool, Option<HashMap<String, String>>, String),
)
    requires
        realizes(first, verdict_of(policy.rules@, protocol, resource, groups)),
        realizes(second, verdict_of(policy.rules@, protocol, resource, groups)),
    ensures
        first.0 == second.0,
        inject_view(first.1) == inject_view(second.1),
        first.2@ == second.2@,
{
}

/// The earliest matching rule decides the request, whatever later rules
/// match it, however specific they are.
pub proof fn law_first_match_wins(
    rules: Seq<Rule>,
    i: int,
    protocol: Seq<char>,
    resource: Seq<char>,
    groups: Seq<Seq<char>>,
)
    requires
        0 <= i < rules.len(),
        rules[i].matches(protocol, resource),
        forall|k: int| 0 <= k < i ==> !(#[trigger] rules[k]).matches(protocol, resource),
    ensures
        verdict_of(rules, protocol, resource, groups) == rules[i].verdict(groups),
{
    lemma_first_match(rules, protocol, resource);
    match first_match(rules, protocol, resource) {
        Some(j) => {
            if j < i {
                assert(!rules[j].matches(protocol, resource));
            } else if j > i {
                assert(!rules[i].matches(protocol, resource));
            }
        },
        None => {
            assert(!rules[i].matches(protocol, resource));
        },
    }
}

/// A request that no rule matches is denied with reason `default-deny`.
pub proof fn law_default_deny(
    rules: Seq<Rule>,
    protocol: Seq<char>,
    resource: Seq<char>,
    groups: Seq<Seq<char>>,
)
    requires
        forall|k: int| 0 <= k < rules.len() ==> !(#[trigger] rules[k]).matches(protocol, resource),
    ensures
        !verdict_of(rules, protocol, resource, groups).allow,
        verdict_of(rules, protocol, resource, groups).reason == "default-deny"@,
        verdict_of(rules, protocol, resource, groups).inject is None,
{
    lemma_first_match(rules, protocol, resource);
    if let Some(j) = first_match(rules, protocol, resource) {
        assert(!rules[j].matches(protocol, resource));
    }
}

/// Access is granted only through a matching rule all of whose required
/// groups are presented; when the deciding rule requires a group that is
/// missing, the request is denied with reason `missing group`.
pub proof fn law_groups_conjunctive(
    rules: Seq<Rule>,
    protocol: Seq<char>,
    resource: Seq<char>,
    groups: Seq<Seq<char>>,
)
    ensures
        verdict_of(rules, protocol, resource, groups).allow ==> exists|i: int|
            0 <= i < rules.len() && (#[trigger] rules[i]).matches(protocol, resource) && rules[i].admits(
                groups,
            ),
        match first_match(rules, protocol, resource) {
            Some(i) => !rules[i].admits(groups) ==> {
                &&& !verdict_of(rules, protocol, resource, groups).allow
                &&& verdict_of(rules, protocol, resource, groups).reason == "missing group"@
            },
            None => true,
        },
{
    lemma_first_match(rules, protocol, resource);
}

} // verus!
