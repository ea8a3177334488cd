//! The shared rate limiter's logic: the key schema of the key-value bucket
//! the crawler replicas share, the check decision over what the store
//! returned, and the write plan for a policy update. The store traffic
//! itself stays at the boundary, which reads and writes the keys planned
//! here.
use vstd::prelude::*;

verus! {

use vstd::string::StringExecFns;
use crate::limiter::{
    max_violation_window, policy_decision, spec_rule_type_token, LimiterOutcome, Policy, Rule,
    RuleType,
};

/// The key one rule lives under: IP-scoped rules are prefixed with the
/// replica's IP, client- and account-scoped rules are shared.
pub open spec fn spec_remote_key(ip: Seq<char>, t: RuleType, endpoint: Seq<char>) -> Seq<char> {
    match t {
        RuleType::Ip => ip + "_"@ + spec_rule_type_token(t) + "_"@ + endpoint,
        RuleType::Client => spec_rule_type_token(t) + "_"@ + endpoint,
        RuleType::Account => spec_rule_type_token(t) + "_"@ + endpoint,
    }
}

/// Builds the key one rule lives under.
pub fn generate_remote_key(ip: &str, rtype: &RuleType, endpoint: &str) -> (key: String)
    ensures
        key@ == spec_remote_key(ip@, *rtype, endpoint@),
{
    let mut key = String::new();
    match rtype {
        RuleType::Ip => {
            key.append(ip);
            key.append("_");
        },
        RuleType::Client => {},
        RuleType::Account => {},
    }
    key.append(rtype.to_string().as_str());
    key.append("_");
    key.append(endpoint);
    proof {
        assert(key@ =~= spec_remote_key(ip@, *rtype, endpoint@));
    }
    key
}

/// The key the endpoint's announced identity-kind list lives under.
pub open spec fn spec_rtypes_key(ip: Seq<char>, endpoint: Seq<char>) -> Seq<char> {
    ip + "_"@ + endpoint + "_policy"@
}

/// Builds the key of an endpoint's identity-kind list.
pub fn endpoint_rtypes_key(ip: &str, endpoint: &str) -> (key: String)
    ensures
        key@ == spec_rtypes_key(ip@, endpoint@),
{
    let mut key = String::new();
    key.append(ip);
    key.append("_");
    key.append(endpoint);
    key.append("_policy");
    proof {
        assert(key@ =~= spec_rtypes_key(ip@, endpoint@));
    }
    key
}

/// What one read of a rule key came back with.
#[derive(Debug, Clone, Copy, PartialEq, Eq, Structural)]
pub enum KvFetch {
    /// The key held this rule.
    Found(Rule),
    /// The key held nothing.
    Missing,
    /// The read itself failed.
    Failed,
}

/// The rules the reads actually delivered, in read order.
pub open spec fn found_rules(fetches: Seq<KvFetch>) -> Seq<Rule>
    decreases fetches.len(),
{
    if fetches.len() == 0 {
        Seq::empty()
    } else {
        let rest = found_rules(fetches.drop_last());
        match fetches.last() {
            KvFetch::Found(r) => rest.push(r),
            _ => rest,
        }
    }
}

pub open spec fn any_fetch_failed(fetches: Seq<KvFetch>) -> bool {
    exists|i: int| 0 <= i < fetches.len() && fetches[i] is Failed
}

/// The check decision over what the shared store returned: an unreadable
/// identity-kind list degrades to a five-second wait; otherwise the known
/// rules decide, and any failed rule read raises the wait to at least five
/// seconds — the conservative floor for the rule that could not be seen.
pub open spec fn spec_remote_decision(store_error: bool, fetches: Seq<KvFetch>) -> LimiterOutcome {
    if store_error {
        LimiterOutcome::Retry { after_secs: 5 }
    } else {
        let base = policy_decision(found_rules(fetches));
        if any_fetch_failed(fetches) {
            match base {
                LimiterOutcome::Proceed => LimiterOutcome::Retry { after_secs: 5 },
                LimiterOutcome::Retry { after_secs } => LimiterOutcome::Retry {
                    after_secs: if after_secs >= 5 {
                        after_secs
                    } else {
                        5
                    },
                },
            }
        } else {
            base
        }
    }
}

/// Decides a check from the store's answers: `store_error` says whether the
/// identity-kind list could be read at all, and `fetches` holds one answer
/// per announced identity kind.
pub fn decide_remote_check(store_error: bool, fetches: &Vec<KvFetch>) -> (o: LimiterOutcome)
    ensures
        o == spec_remote_decision(store_error, fetches@),
{
    if store_error {
        return LimiterOutcome::Retry { after_secs: 5 };
    }
    let mut rules: Vec<Rule> = Vec::new();
    let mut failed: bool = false;
    let mut i: usize = 0;
    proof {
        assert(fetches@.subrange(0, 0) =~= Seq::<KvFetch>::empty());
        assert(found_rules(fetches@.subrange(0, 0)) =~= Seq::<Rule>::empty());
    }
    while i < fetches.len()
        invariant
            i <= fetches@.len(),
            rules@ == found_rules(fetches@.subrange(0, i as int)),
            failed == any_fetch_failed(fetches@.subrange(0, i as int)),
        decreases fetches@.len() - i,
    {
        let ghost pre = fetches@.subrange(0, i as int);
        let ghost post = fetches@.subrange(0, i as int + 1);
        proof {
            assert(post.drop_last() =~= pre);
            assert(post.last() == fetches@[i as int]);
        }
        match fetches[i] {
            KvFetch::Found(r) => {
                rules.push(r);
            },
            KvFetch::Missing => {},
            KvFetch::Failed => {
                failed = true;
            },
        }
        i = i + 1;
        proof {
            if failed {
                assert(any_fetch_failed(post)) by {
                    if any_fetch_failed(pre) {
                        let w = choose|w: int| 0 <= w < pre.len() && pre[w] is Failed;
                        assert(post[w] is Failed);
                    }
                }
            }
            if !failed {
                assert(!any_fetch_failed(post)) by {
                    if any_fetch_failed(post) {
                        let w = choose|w: int| 0 <= w < post.len() && post[w] is Failed;
                        if w < pre.len() {
                            assert(pre[w] is Failed);
                        }
                    }
                }
            }
        }
    }
    proof {
        assert(fetches@.subrange(0, fetches@.len() as int) =~= fetches@);
    }
    let base = crate::limiter::decide_policy(&rules);
    if failed {
        match base {
            LimiterOutcome::Proceed => LimiterOutcome::Retry { after_secs: 5 },
            LimiterOutcome::Retry { after_secs } => LimiterOutcome::Retry {
                after_secs: if after_secs >= 5 {
                    after_secs
                } else {
                    5
                },
            },
        }
    } else {
        base
    }
}

/// The writes one policy update makes: one rule under its key, in rule
/// order, and the announced identity-kind list under the endpoint's policy
/// key — rebuilt whole on every update.
#[derive(Debug)]
pub struct PolicyUpdatePlan {
    pub rule_puts: Vec<(String, Rule)>,
    pub rtypes_key: String,
    pub rtypes: Vec<RuleType>,
}

/// Plans the writes for one announced policy.
pub fn plan_policy_update(ip: &str, endpoint: &str, policy: &Policy) -> (p: PolicyUpdatePlan)
    ensures
        p.rule_puts@.len() == policy.rules@.len(),
        forall|i: int|
            0 <= i < policy.rules@.len() ==> (#[trigger] p.rule_puts@[i]).1 == policy.rules@[i]
                && p.rule_puts@[i].0@ == spec_remote_key(ip@, policy.rules@[i].rtype, endpoint@),
        p.rtypes_key@ == spec_rtypes_key(ip@, endpoint@),
        p.rtypes@.len() == policy.rules@.len(),
        forall|i: int|
            0 <= i < policy.rules@.len() ==> #[trigger] p.rtypes@[i] == policy.rules@[i].rtype,
{
    let mut rule_puts: Vec<(String, Rule)> = Vec::new();
    let mut rtypes: Vec<RuleType> = Vec::new();
    let mut i: usize = 0;
    while i < policy.rules.len()
        invariant
            i <= policy.rules@.len(),
            rule_puts@.len() == i,
            rtypes@.len() == i,
            forall|j: int|
                0 <= j < i ==> (#[trigger] rule_puts@[j]).1 == policy.rules@[j]
                    && rule_puts@[j].0@ == spec_remote_key(
                    ip@,
                    policy.rules@[j].rtype,
                    endpoint@,
                ),
            forall|j: int| 0 <= j < i ==> #[trigger] rtypes@[j] == policy.rules@[j].rtype,
        decreases policy.rules@.len() - i,
    {
        let rule = policy.rules[i];
        let key = generate_remote_key(ip, &rule.rtype, endpoint);
        rule_puts.push((key, rule));
        rtypes.push(rule.rtype);
        i = i + 1;
    }
    PolicyUpdatePlan { rule_puts, rtypes_key: endpoint_rtypes_key(ip, endpoint), rtypes }
}

} // verus!
