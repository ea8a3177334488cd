//! In-process rate limiter for single-replica deployments: the stored
//! policies live in this process, keyed by endpoint.
use vstd::prelude::*;

verus! {

use vstd::map::*;
use crate::limiter::{
    decide_policy, spec_check, LimiterOutcome, Policy, RateLimiter, RateLimiterError, Rule,
};
use crate::text::str_eq;

/// The policies a sequence of endpoint entries stores, later entries unread
/// when a key repeats.
pub open spec fn entries_map(s: Seq<(String, Policy)>) -> Map<Seq<char>, Seq<Rule>> {
    Map::new(
        |k: Seq<char>| exists|i: int| 0 <= i < s.len() && (#[trigger] s[i]).0@ == k,
        |k: Seq<char>|
            {
                let i = choose|i: int| 0 <= i < s.len() && (#[trigger] s[i]).0@ == k;
                s[i].1.rules@
            },
    )
}

pub open spec fn unique_keys(s: Seq<(String, Policy)>) -> bool {
    forall|i: int, j: int|
        0 <= i < j < s.len() ==> (#[trigger] s[i]).0@ != (#[trigger] s[j]).0@
}

/// A rate limiter whose store is a map held in this process.
pub struct LocalRateLimiter {
    endpoints: Vec<(String, Policy)>,
}

impl LocalRateLimiter {
    #[verifier::type_invariant]
    spec fn wf(self) -> bool {
        unique_keys(self.endpoints@)
    }

    /// An empty limiter: no endpoint has a stored policy yet.
    pub fn new() -> (lim: Self)
        ensures
            lim.policies() == Map::<Seq<char>, Seq<Rule>>::empty(),
    {
        let lim = LocalRateLimiter { endpoints: Vec::new() };
        proof {
            assert(lim.policies() =~= Map::<Seq<char>, Seq<Rule>>::empty());
        }
        lim
    }
}

impl RateLimiter for LocalRateLimiter {
    closed spec fn policies(&self) -> Map<Seq<char>, Seq<Rule>> {
        entries_map(self.endpoints@)
    }

    closed spec fn reliable(&self) -> bool {
        true
    }

    fn check(&self, endpoint: &str) -> (r: Result<LimiterOutcome, RateLimiterError>) {
        proof {
            use_type_invariant(&*self);
        }
        let ghost s = self.endpoints@;
        let mut i: usize = 0;
        while i < self.endpoints.len()
            invariant
                s == self.endpoints@,
                unique_keys(s),
                i <= s.len(),
                forall|j: int| 0 <= j < i ==> (#[trigger] s[j]).0@ != endpoint@,
            decreases s.len() - i,
        {
            if str_eq(self.endpoints[i].0.as_str(), endpoint) {
                let o = decide_policy(&self.endpoints[i].1.rules);
                proof {
                    assert(entries_map(s).dom().contains(endpoint@));
                    let w = choose|w: int| 0 <= w < s.len() && (#[trigger] s[w]).0@ == endpoint@;
                    assert(w == i);
                    assert(entries_map(s)[endpoint@] == s[i as int].1.rules@);
                }
                return Ok(o);
            }
            i = i + 1;
        }
        proof {
            assert(!entries_map(s).dom().contains(endpoint@));
        }
        Ok(LimiterOutcome::Proceed)
    }

    fn update(&mut self, endpoint: &str, policy: Policy) -> (r: Result<(), RateLimiterError>) {
        proof {
            use_type_invariant(&*self);
        }
        let ghost s0 = self.endpoints@;
        let mut eps: Vec<(String, Policy)> = Vec::new();
        core::mem::swap(&mut eps, &mut self.endpoints);
        let mut i: usize = 0;
        let mut found: Option<usize> = None;
        while i < eps.len()
            invariant
                eps@ == s0,
                unique_keys(s0),
                i <= s0.len(),
                found matches Some(f) ==> 0 <= f < i && s0[f as int].0@ == endpoint@,
                found is None ==> forall|j: int| 0 <= j < i ==> (#[trigger] s0[j]).0@ != endpoint@,
            decreases s0.len() - i + (if found is Some { 0int } else { 1int }),
        {
            if found.is_none() && str_eq(eps[i].0.as_str(), endpoint) {
                found = Some(i);
            }
            i = i + 1;
        }
        let ghost s1 = if let Some(f) = found {
            s0.remove(f as int)
        } else {
            s0
        };
        if let Some(f) = found {
            eps.remove(f);
        }
        proof {
            assert(eps@ == s1);
            assert forall|j: int| 0 <= j < s1.len() implies (#[trigger] s1[j]).0@ != endpoint@ by {
                if let Some(f) = found {
                    if j < f {
                        assert(s1[j] == s0[j]);
                    } else {
                        assert(s1[j] == s0[j + 1]);
                    }
                }
            }
            assert(unique_keys(s1)) by {
                if let Some(f) = found {
                    assert forall|a: int, b: int| 0 <= a < b < s1.len() implies (
                    #[trigger] s1[a]).0@ != (#[trigger] s1[b]).0@ by {
                        let a0 = if a < f {
                            a
                        } else {
                            a + 1
                        };
                        let b0 = if b < f {
                            b
                        } else {
                            b + 1
                        };
                        assert(s1[a] == s0[a0]);
                        assert(s1[b] == s0[b0]);
                    }
                }
            }
        }
        eps.push((endpoint.to_owned(), policy));
        proof {
            let s2 = eps@;
            assert forall|a: int, b: int| 0 <= a < b < s2.len() implies (#[trigger] s2[a]).0@ != (
            #[trigger] s2[b]).0@ by {
                if b < s2.len() - 1 {
                    assert(s2[a] == s1[a] && s2[b] == s1[b]);
                } else {
                    assert(s2[b].0@ == endpoint@);
                    if a < s2.len() - 1 {
                        assert(s2[a] == s1[a]);
                    }
                }
            }
        }
        self.endpoints = eps;
        proof {
            lemma_entries_map_after_replace(s0, s1, self.endpoints@, endpoint@, policy.rules@, found);
        }
        Ok(())
    }
}

/// After dropping the one old entry for a key and appending a fresh entry,
/// the stored policies are the old ones with that key overwritten.
proof fn lemma_entries_map_after_replace(
    s0: Seq<(String, Policy)>,
    s1: Seq<(String, Policy)>,
    s2: Seq<(String, Policy)>,
    key: Seq<char>,
    rules: Seq<Rule>,
    found: Option<usize>,
)
    requires
        unique_keys(s0),
        unique_keys(s2),
        s1 == (if let Some(f) = found {
            s0.remove(f as int)
        } else {
            s0
        }),
        found matches Some(f) ==> 0 <= f < s0.len() && s0[f as int].0@ == key,
        found is None ==> forall|j: int| 0 <= j < s0.len() ==> (#[trigger] s0[j]).0@ != key,
        forall|j: int| 0 <= j < s1.len() ==> (#[trigger] s1[j]).0@ != key,
        s2.len() == s1.len() + 1,
        forall|j: int| 0 <= j < s1.len() ==> #[trigger] s2[j] == s1[j],
        s2.last().0@ == key,
        s2.last().1.rules@ == rules,
    ensures
        entries_map(s2) == entries_map(s0).insert(key, rules),
{
    let m0 = entries_map(s0);
    let m2 = entries_map(s2);
    let target = m0.insert(key, rules);
    assert forall|k: Seq<char>| m2.dom().contains(k) <==> target.dom().contains(k) by {
        if k == key {
            assert(s2[s2.len() - 1].0@ == k);
            assert(m2.dom().contains(k));
        } else {
            if m2.dom().contains(k) {
                let i = choose|i: int| 0 <= i < s2.len() && (#[trigger] s2[i]).0@ == k;
                assert(i < s2.len() - 1);
                assert(s2[i] == s1[i]);
                if let Some(f) = found {
                    let i0 = if i < f {
                        i
                    } else {
                        i + 1
                    };
                    assert(s1[i] == s0[i0]);
                    assert(s0[i0].0@ == k);
                } else {
                    assert(s0[i].0@ == k);
                }
                assert(m0.dom().contains(k));
            }
            if target.dom().contains(k) {
                let i = choose|i: int| 0 <= i < s0.len() && (#[trigger] s0[i]).0@ == k;
                if let Some(f) = found {
                    let i1 = if i < f {
                        i
                    } else {
                        i - 1
                    };
                    assert(i != f);
                    if i < f {
                        assert(s1[i1] == s0[i]);
                    } else {
                        assert(s1[i1] == s0[i]);
                    }
                    assert(s2[i1] == s1[i1]);
                    assert(s2[i1].0@ == k);
                } else {
                    assert(s2[i] == s1[i]);
                    assert(s2[i].0@ == k);
                }
                assert(m2.dom().contains(k));
            }
        }
    }
    assert forall|k: Seq<char>| m2.dom().contains(k) implies m2[k] == target[k] by {
        let i = choose|i: int| 0 <= i < s2.len() && (#[trigger] s2[i]).0@ == k;
        if k == key {
            assert(s2[s2.len() - 1].0@ == k);
            assert(i == s2.len() - 1) by {
                if i < s2.len() - 1 {
                    assert(s2[i].0@ != s2[s2.len() - 1].0@);
                }
            }
            assert(m2[k] == rules);
        } else {
            assert(i < s2.len() - 1);
            assert(s2[i] == s1[i]);
            let i0 = if let Some(f) = found {
                if i < f {
                    i
                } else {
                    i + 1
                }
            } else {
                i
            };
            assert(s0[i0] == s1[i]);
            assert(s0[i0].0@ == k);
            let w = choose|w: int| 0 <= w < s0.len() && (#[trigger] s0[w]).0@ == k;
            assert(w == i0) by {
                if w < i0 {
                    assert(s0[w].0@ != s0[i0].0@);
                }
                if w > i0 {
                    assert(s0[i0].0@ != s0[w].0@);
                }
            }
            assert(m0[k] == s0[i0].1.rules@);
            assert(m2[k] == s2[i].1.rules@);
        }
    }
    assert(m2 =~= target);
}

} // verus!
