//! Reading rate-limit policies out of a response's headers. The boundary
//! hands in the header list as name–value pairs, names lowercased as the
//! HTTP layer delivers them; everything from there to the typed policy is
//! decided here, exactly as the headers spell it.
use vstd::prelude::*;

verus! {

use vstd::string::StringExecFns;
use crate::limiter::{
    spec_rule_type_of, spec_rule_type_token, triple_ok, triple_vals, Policy, RateLimiterError,
    Rule, RuleSet, RuleState, RuleType,
};
use crate::text::{chars_to_string, split_char, split_seq, str_eq, str_to_chars};

/// The position of the first header with this name, or the length if none.
pub open spec fn find_header(hs: Seq<(String, String)>, name: Seq<char>) -> nat
    decreases hs.len(),
{
    if hs.len() == 0 {
        0
    } else if hs[0].0@ == name {
        0
    } else {
        1 + find_header(hs.drop_first(), name)
    }
}

proof fn lemma_find_header(hs: Seq<(String, String)>, name: Seq<char>)
    ensures
        find_header(hs, name) <= hs.len(),
        forall|j: int| 0 <= j < find_header(hs, name) ==> (#[trigger] hs[j]).0@ != name,
        find_header(hs, name) < hs.len() ==> hs[find_header(hs, name) as int].0@ == name,
    decreases hs.len(),
{
    if hs.len() > 0 && hs[0].0@ != name {
        lemma_find_header(hs.drop_first(), name);
        assert forall|j: int| 0 <= j < find_header(hs, name) implies (#[trigger] hs[j]).0@
            != name by {
            if j > 0 {
                assert(hs.drop_first()[j - 1] == hs[j]);
            }
        }
        if find_header(hs, name) < hs.len() {
            assert(hs.drop_first()[find_header(hs, name) - 1] == hs[find_header(hs, name) as int]);
        }
    }
}

/// The value of the first header with this name, if any.
pub open spec fn header_lookup(hs: Seq<(String, String)>, name: Seq<char>) -> Option<Seq<char>> {
    let i = find_header(hs, name) as int;
    if i < hs.len() {
        Some(hs[i].1@)
    } else {
        None
    }
}

/// Finds a header by name and hands its value out.
fn lookup_header(headers: &Vec<(String, String)>, name: &str) -> (r: Option<String>)
    ensures
        (match r {
            Some(v) => header_lookup(headers@, name@) == Some(v@),
            None => header_lookup(headers@, name@) is None,
        }),
{
    let ghost hs = headers@;
    proof {
        lemma_find_header(hs, name@);
    }
    let mut i: usize = 0;
    while i < headers.len()
        invariant
            hs == headers@,
            i <= hs.len(),
            forall|j: int| 0 <= j < i ==> (#[trigger] hs[j]).0@ != name@,
        decreases hs.len() - i,
    {
        if str_eq(headers[i].0.as_str(), name) {
            proof {
                lemma_find_header(hs, name@);
                let f = find_header(hs, name@) as int;
                assert(f == i) by {
                    if f < i {
                        assert(hs[f].0@ != name@);
                    }
                }
            }
            return Some(headers[i].1.clone());
        }
        i = i + 1;
    }
    proof {
        lemma_find_header(hs, name@);
        if find_header(hs, name@) < hs.len() {
            assert(hs[find_header(hs, name@) as int].0@ == name@);
        }
    }
    None
}

/// A header fault, carried at the level the contracts speak: the offending
/// text for a malformed triple, or a bare integer failure.
pub ghost enum HeaderFault {
    BadFormat(Seq<char>),
    BadInt,
}

/// Whether a limiter error reports this fault.
pub open spec fn fault_matches(e: RateLimiterError, f: HeaderFault) -> bool {
    match (e, f) {
        (RateLimiterError::InvalidHeaderFormat(x), HeaderFault::BadFormat(v)) => x@ == v,
        (RateLimiterError::HeaderIntParseFailed, HeaderFault::BadInt) => true,
        _ => false,
    }
}

/// The fault a malformed triple reports.
pub open spec fn triple_fault(s: Seq<char>) -> HeaderFault {
    if split_seq(s, ':').len() != 3 {
        HeaderFault::BadFormat(s)
    } else {
        HeaderFault::BadInt
    }
}

/// The name of the limit header for one identity kind.
pub open spec fn spec_limit_header_name(t: RuleType) -> Seq<char> {
    "x-rate-limit-"@ + spec_rule_type_token(t)
}

/// The name of the state header for one identity kind.
pub open spec fn spec_state_header_name(t: RuleType) -> Seq<char> {
    "x-rate-limit-"@ + spec_rule_type_token(t) + "-state"@
}

/// What one identity kind contributes: nothing when either of its two
/// headers is missing, its rule when both read, a fault when one is
/// malformed — the limit header read first.
pub open spec fn spec_rule_for(hs: Seq<(String, String)>, t: RuleType) -> Result<
    Option<Rule>,
    HeaderFault,
> {
    match (header_lookup(hs, spec_limit_header_name(t)), header_lookup(
        hs,
        spec_state_header_name(t),
    )) {
        (Some(lv), Some(sv)) => if !triple_ok(lv) {
            Err(triple_fault(lv))
        } else if !triple_ok(sv) {
            Err(triple_fault(sv))
        } else {
            Ok(
                Some(
                    Rule {
                        rtype: t,
                        ruleset: RuleSet {
                            maximum_hits: triple_vals(lv).0 as i32,
                            window: triple_vals(lv).1 as i32,
                            time_restricted: triple_vals(lv).2 as i32,
                        },
                        state: RuleState {
                            current_hits: triple_vals(sv).0 as i32,
                            window: triple_vals(sv).1 as i32,
                            active_time_restricted: triple_vals(sv).2 as i32,
                        },
                    },
                ),
            )
        },
        _ => Ok(None),
    }
}

/// The rules the announced identity kinds contribute, in announcement
/// order; the first fault wins.
pub open spec fn spec_collect_rules(hs: Seq<(String, String)>, rtypes: Seq<RuleType>) -> Result<
    Seq<Rule>,
    HeaderFault,
>
    decreases rtypes.len(),
{
    if rtypes.len() == 0 {
        Ok(Seq::empty())
    } else {
        match spec_collect_rules(hs, rtypes.drop_last()) {
            Err(f) => Err(f),
            Ok(rules) => match spec_rule_for(hs, rtypes.last()) {
                Err(f) => Err(f),
                Ok(None) => Ok(rules),
                Ok(Some(r)) => Ok(rules.push(r)),
            },
        }
    }
}

proof fn lemma_collect_err_persists(hs: Seq<(String, String)>, rtypes: Seq<RuleType>, k: int)
    requires
        0 <= k <= rtypes.len(),
        spec_collect_rules(hs, rtypes.subrange(0, k)) is Err,
    ensures
        spec_collect_rules(hs, rtypes) == spec_collect_rules(hs, rtypes.subrange(0, k)),
    decreases rtypes.len() - k,
{
    if k == rtypes.len() {
        assert(rtypes.subrange(0, k) =~= rtypes);
    } else {
        let next = rtypes.subrange(0, k + 1);
        assert(next.drop_last() =~= rtypes.subrange(0, k));
        lemma_collect_err_persists(hs, rtypes, k + 1);
    }
}

/// The identity kinds the rules header announces, in order, unknown tokens
/// reading as the default kind.
pub open spec fn spec_rtypes(rules_header: Seq<char>) -> Seq<RuleType> {
    split_seq(rules_header, ',').map_values(|t: Seq<char>| spec_rule_type_of(t))
}

/// Reads the rate-limit policy a response announces. No `x-rate-limit-
/// policy` header means no update. Otherwise the announced identity kinds
/// are read in order: a kind missing either of its two headers is skipped,
/// and the first malformed triple is the error — the response then passes
/// through but the limiter is not updated. A response that announces a
/// policy always names the kinds; the caller hands both headers in
/// together.
pub fn parse_rate_limit_policy(headers: &Vec<(String, String)>) -> (r: Result<
    Option<Policy>,
    RateLimiterError,
>)
    requires
        header_lookup(headers@, "x-rate-limit-policy"@) is Some ==> header_lookup(
            headers@,
            "x-rate-limit-rules"@,
        ) is Some,
    ensures
        header_lookup(headers@, "x-rate-limit-policy"@) is None ==> (r matches Ok(p) && p
            is None),
        (match header_lookup(headers@, "x-rate-limit-rules"@) {
            Some(rh) => header_lookup(headers@, "x-rate-limit-policy"@) is Some ==> (match
                spec_collect_rules(headers@, spec_rtypes(rh)) {
                Ok(rules) => r matches Ok(po) && po matches Some(p) && p.rules@ == rules,
                Err(f) => r matches Err(e) && fault_matches(e, f),
            }),
            None => true,
        }),
{
    if lookup_header(headers, "x-rate-limit-policy").is_none() {
        return Ok(None);
    }
    let rules_header = match lookup_header(headers, "x-rate-limit-rules") {
        Some(v) => v,
        None => {
            proof {
                assert(false);
            }
            return Ok(None);
        },
    };
    let tokens = split_char(&str_to_chars(rules_header.as_str()), ',');
    let ghost rts = spec_rtypes(rules_header@);
    let mut rtypes: Vec<RuleType> = Vec::new();
    let mut i: usize = 0;
    proof {
        assert(rts.len() == tokens@.len());
    }
    while i < tokens.len()
        invariant
            i <= tokens@.len(),
            rts.len() == tokens@.len(),
            forall|j: int| 0 <= j < tokens@.len() ==> rts[j] == spec_rule_type_of(
                (#[trigger] tokens@[j])@,
            ),
            rtypes@.len() == i,
            forall|j: int| 0 <= j < i ==> #[trigger] rtypes@[j] == rts[j],
        decreases tokens@.len() - i,
    {
        let token = chars_to_string(&tokens[i]);
        rtypes.push(RuleType::from(token.as_str()));
        i = i + 1;
    }
    proof {
        assert(rtypes@ =~= rts);
    }
    let mut rules: Vec<Rule> = Vec::new();
    let mut k: usize = 0;
    proof {
        assert(rts.subrange(0, 0) =~= Seq::<RuleType>::empty());
    }
    while k < rtypes.len()
        invariant
            k <= rtypes@.len(),
            rtypes@ == rts,
            rts.len() == tokens@.len(),
            header_lookup(headers@, "x-rate-limit-policy"@) is Some,
            header_lookup(headers@, "x-rate-limit-rules"@) == Some(rules_header@),
            rts == spec_rtypes(rules_header@),
            spec_collect_rules(headers@, rts.subrange(0, k as int)) == Result::<
                Seq<Rule>,
                HeaderFault,
            >::Ok(rules@),
        decreases rtypes@.len() - k,
    {
        let t = rtypes[k];
        let ghost pre = rts.subrange(0, k as int);
        let ghost post = rts.subrange(0, k as int + 1);
        proof {
            assert(post.drop_last() =~= pre);
            assert(post.last() == rts[k as int]);
        }
        let mut limit_name = String::from_str("x-rate-limit-");
        limit_name.append(t.to_string().as_str());
        let mut state_name = String::from_str("x-rate-limit-");
        state_name.append(t.to_string().as_str());
        state_name.append("-state");
        proof {
            assert(limit_name@ =~= spec_limit_header_name(t));
            assert(state_name@ =~= spec_state_header_name(t));
        }
        let limit_value = lookup_header(headers, limit_name.as_str());
        let state_value = lookup_header(headers, state_name.as_str());
        match (limit_value, state_value) {
            (Some(lv), Some(sv)) => {
                let ruleset = match RuleSet::try_from(lv.as_str()) {
                    Ok(rs) => rs,
                    Err(e) => {
                        proof {
                            assert(spec_collect_rules(headers@, post) matches Err(f)
                                && fault_matches(e, f));
                            lemma_collect_err_persists(headers@, rts, k as int + 1);
                        }
                        return Err(e);
                    },
                };
                let state = match RuleState::try_from(sv.as_str()) {
                    Ok(st) => st,
                    Err(e) => {
                        proof {
                            assert(spec_collect_rules(headers@, post) matches Err(f)
                                && fault_matches(e, f));
                            lemma_collect_err_persists(headers@, rts, k as int + 1);
                        }
                        return Err(e);
                    },
                };
                let ghost prev_rules = rules@;
                rules.push(Rule { rtype: t, ruleset, state });
                proof {
                    assert(rules@.drop_last() =~= prev_rules);
                    assert(spec_collect_rules(headers@, post) == Result::<
                        Seq<Rule>,
                        HeaderFault,
                    >::Ok(rules@));
                }
            },
            _ => {
                proof {
                    assert(spec_rule_for(headers@, t) == Result::<
                        Option<Rule>,
                        HeaderFault,
                    >::Ok(None));
                }
            },
        }
        k = k + 1;
    }
    proof {
        assert(rts.subrange(0, rts.len() as int) =~= rts);
    }
    Ok(Some(Policy { rules }))
}

} // verus!
