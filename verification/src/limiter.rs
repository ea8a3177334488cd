//! Rate-limit policy model: the rule triples read from upstream response
//! headers, the per-endpoint policy, and the decision whether a caller may
//! proceed or must wait.
use vstd::prelude::*;

verus! {

use vstd::string::StringExecFns;
use crate::text::{
    all_digits, i32_str_ok, i32_str_val, parse_i32_chars, split_char, split_seq, str_to_chars,
};

/// What can go wrong while reading rate-limit headers or consulting the
/// shared store.
#[derive(Debug, Clone)]
pub enum RateLimiterError {
    /// A header triple was not exactly three colon-separated fields.
    InvalidHeaderFormat(String),
    /// A field of a header triple was not a decimal integer in range.
    HeaderIntParseFailed,
    /// An endpoint was registered twice.
    DuplicateEndpoint(String),
    /// The endpoint has no registered policy.
    UnknownEndpoint(String),
    /// The limiter's own state was unusable.
    InternalError,
}

/// The limiter's answer: send now, or wait this many seconds first.
#[derive(Debug, Clone, Copy, PartialEq, Eq, Structural)]
pub enum LimiterOutcome {
    Proceed,
    Retry { after_secs: u64 },
}

impl Default for LimiterOutcome {
    /// The conservative answer when nothing is known: wait half a minute.
    fn default() -> (o: Self)
        ensures
            o == (LimiterOutcome::Retry { after_secs: 30 }),
    {
        LimiterOutcome::Retry { after_secs: 30 }
    }
}

/// The identity a rule is scoped to, as announced by the `x-rate-limit-rules`
/// header.
#[derive(Debug, Clone, Copy, PartialEq, Eq, Structural)]
pub enum RuleType {
    Ip,
    Client,
    Account,
}

pub open spec fn ascii_lower_char(c: char) -> char {
    if 'A' <= c && c <= 'Z' {
        (((c as int) + 32) as u8) as char
    } else {
        c
    }
}

pub open spec fn ascii_lower(s: Seq<char>) -> Seq<char> {
    s.map_values(|c: char| ascii_lower_char(c))
}

/// Which identity kind a header token names; an unknown token means the
/// default identity, `Ip`. Matching ignores ASCII case; the upstream
/// headers are ASCII.
pub open spec fn spec_rule_type_of(s: Seq<char>) -> RuleType {
    if ascii_lower(s) == "ip"@ {
        RuleType::Ip
    } else if ascii_lower(s) == "client"@ {
        RuleType::Client
    } else if ascii_lower(s) == "account"@ {
        RuleType::Account
    } else {
        RuleType::Ip
    }
}

pub open spec fn spec_rule_type_token(t: RuleType) -> Seq<char> {
    match t {
        RuleType::Ip => "ip"@,
        RuleType::Client => "client"@,
        RuleType::Account => "account"@,
    }
}

impl RuleType {
    /// Reads an identity kind from its header token.
    pub fn from(value: &str) -> (t: Self)
        ensures
            t == spec_rule_type_of(value@),
    {
        let chars = str_to_chars(value);
        let mut lowered: Vec<char> = Vec::new();
        let mut i: usize = 0;
        while i < chars.len()
            invariant
                i <= chars@.len(),
                lowered@ == ascii_lower(chars@).subrange(0, i as int),
            decreases chars@.len() - i,
        {
            let c = chars[i];
            let lc: char = if 'A' <= c && c <= 'Z' {
                (((c as u32) + 32) as u8) as char
            } else {
                c
            };
            proof {
                assert(lc == ascii_lower_char(c));
            }
            lowered.push(lc);
            i = i + 1;
            proof {
                assert(lowered@ =~= ascii_lower(chars@).subrange(0, i as int));
            }
        }
        proof {
            assert(lowered@ =~= ascii_lower(chars@));
        }
        if crate::text::chars_eq_str(&lowered, "ip") {
            RuleType::Ip
        } else if crate::text::chars_eq_str(&lowered, "client") {
            RuleType::Client
        } else if crate::text::chars_eq_str(&lowered, "account") {
            RuleType::Account
        } else {
            RuleType::Ip
        }
    }

    /// The header token this identity kind is written as.
    pub fn to_string(&self) -> (s: String)
        ensures
            s@ == spec_rule_type_token(*self),
    {
        match self {
            RuleType::Ip => String::from_str("ip"),
            RuleType::Client => String::from_str("client"),
            RuleType::Account => String::from_str("account"),
        }
    }
}

/// The fixed part of a rule: `maximum-hits:window-seconds:timeout-seconds`.
#[derive(Debug, Clone, Copy, PartialEq, Eq, Structural)]
pub struct RuleSet {
    pub maximum_hits: i32,
    pub window: i32,
    pub time_restricted: i32,
}

/// The moving part of a rule: `current-hits:window-seconds:active-timeout`.
#[derive(Debug, Clone, Copy, PartialEq, Eq, Structural)]
pub struct RuleState {
    pub current_hits: i32,
    pub window: i32,
    pub active_time_restricted: i32,
}

/// One rule: its identity scope, its fixed triple, and its last known state.
#[derive(Debug, Clone, Copy, PartialEq, Eq, Structural)]
pub struct Rule {
    pub rtype: RuleType,
    pub ruleset: RuleSet,
    pub state: RuleState,
}

/// The full set of rules one response announced for one endpoint.
#[derive(Debug, Clone)]
pub struct Policy {
    pub rules: Vec<Rule>,
}

/// Whether a header value is a well-formed triple: exactly three
/// colon-separated decimal integers.
pub open spec fn triple_ok(s: Seq<char>) -> bool {
    let parts = split_seq(s, ':');
    &&& parts.len() == 3
    &&& i32_str_ok(parts[0])
    &&& i32_str_ok(parts[1])
    &&& i32_str_ok(parts[2])
}

pub open spec fn triple_vals(s: Seq<char>) -> (int, int, int) {
    let parts = split_seq(s, ':');
    (i32_str_val(parts[0]), i32_str_val(parts[1]), i32_str_val(parts[2]))
}

fn parse_triple(value: &str) -> (r: Result<(i32, i32, i32), RateLimiterError>)
    ensures
        r is Ok <==> triple_ok(value@),
        r matches Ok(t) ==> (t.0 as int, t.1 as int, t.2 as int) == triple_vals(value@),
        split_seq(value@, ':').len() != 3 ==> (r matches Err(
            RateLimiterError::InvalidHeaderFormat(x),
        ) && x@ == value@),
        split_seq(value@, ':').len() == 3 && !triple_ok(value@) ==> r matches Err(
            RateLimiterError::HeaderIntParseFailed,
        ),
{
    let chars = str_to_chars(value);
    let parts = split_char(&chars, ':');
    if parts.len() != 3 {
        return Err(RateLimiterError::InvalidHeaderFormat(value.to_owned()));
    }
    let a = match parse_i32_chars(&parts[0]) {
        Ok(x) => x,
        Err(_) => {
            return Err(RateLimiterError::HeaderIntParseFailed);
        },
    };
    let b = match parse_i32_chars(&parts[1]) {
        Ok(x) => x,
        Err(_) => {
            return Err(RateLimiterError::HeaderIntParseFailed);
        },
    };
    let c = match parse_i32_chars(&parts[2]) {
        Ok(x) => x,
        Err(_) => {
            return Err(RateLimiterError::HeaderIntParseFailed);
        },
    };
    Ok((a, b, c))
}

impl RuleSet {
    /// Reads a `hits:window:timeout` header triple.
    pub fn try_from(value: &str) -> (r: Result<Self, RateLimiterError>)
        ensures
            r is Ok <==> triple_ok(value@),
            r matches Ok(rs) ==> (rs.maximum_hits as int, rs.window as int,
            rs.time_restricted as int) == triple_vals(value@),
            split_seq(value@, ':').len() != 3 ==> (r matches Err(
                RateLimiterError::InvalidHeaderFormat(x),
            ) && x@ == value@),
            split_seq(value@, ':').len() == 3 && !triple_ok(value@) ==> r matches Err(
                RateLimiterError::HeaderIntParseFailed,
            ),
    {
        match parse_triple(value) {
            Ok((a, b, c)) => Ok(RuleSet { maximum_hits: a, window: b, time_restricted: c }),
            Err(e) => Err(e),
        }
    }
}

impl RuleState {
    /// Reads a `hits:window:active-timeout` header triple.
    pub fn try_from(value: &str) -> (r: Result<Self, RateLimiterError>)
        ensures
            r is Ok <==> triple_ok(value@),
            r matches Ok(rs) ==> (rs.current_hits as int, rs.window as int,
            rs.active_time_restricted as int) == triple_vals(value@),
            split_seq(value@, ':').len() != 3 ==> (r matches Err(
                RateLimiterError::InvalidHeaderFormat(x),
            ) && x@ == value@),
            split_seq(value@, ':').len() == 3 && !triple_ok(value@) ==> r matches Err(
                RateLimiterError::HeaderIntParseFailed,
            ),
    {
        match parse_triple(value) {
            Ok((a, b, c)) => Ok(
                RuleState { current_hits: a, window: b, active_time_restricted: c },
            ),
            Err(e) => Err(e),
        }
    }
}

/// Reads one field of a header triple as an `i32`.
pub fn header_part_to_i32(part: &str) -> (r: Result<i32, RateLimiterError>)
    ensures
        r is Ok <==> i32_str_ok(part@),
        r matches Ok(x) ==> x as int == i32_str_val(part@),
        !i32_str_ok(part@) ==> r matches Err(RateLimiterError::HeaderIntParseFailed),
{
    let chars = str_to_chars(part);
    match parse_i32_chars(&chars) {
        Ok(x) => Ok(x),
        Err(_) => Err(RateLimiterError::HeaderIntParseFailed),
    }
}

/// A rule leaves room for one more request.
pub open spec fn rule_has_headroom(r: Rule) -> bool {
    r.state.current_hits + 1 < r.ruleset.maximum_hits
}

pub open spec fn all_rules_have_headroom(rules: Seq<Rule>) -> bool {
    forall|i: int| 0 <= i < rules.len() ==> rule_has_headroom(#[trigger] rules[i])
}

/// A rule's window in seconds, never negative.
pub open spec fn rule_window_secs(r: Rule) -> int {
    if r.ruleset.window >= 0 {
        r.ruleset.window as int
    } else {
        0
    }
}

/// The largest window among the rules without headroom; zero when all rules
/// have headroom.
pub open spec fn max_violation_window(rules: Seq<Rule>) -> int
    decreases rules.len(),
{
    if rules.len() == 0 {
        0
    } else {
        let rest = max_violation_window(rules.drop_last());
        let last = rules.last();
        if !rule_has_headroom(last) && rule_window_secs(last) > rest {
            rule_window_secs(last)
        } else {
            rest
        }
    }
}

pub proof fn lemma_max_violation_window_bounds(rules: Seq<Rule>)
    ensures
        0 <= max_violation_window(rules) <= 2147483647,
    decreases rules.len(),
{
    if rules.len() > 0 {
        lemma_max_violation_window_bounds(rules.drop_last());
    }
}

/// The decision for one endpoint's policy: proceed when every rule has
/// headroom, else wait for the largest violated window.
pub open spec fn policy_decision(rules: Seq<Rule>) -> LimiterOutcome {
    if all_rules_have_headroom(rules) {
        LimiterOutcome::Proceed
    } else {
        LimiterOutcome::Retry { after_secs: max_violation_window(rules) as u64 }
    }
}

/// Computes the decision for a policy's rules.
pub fn decide_policy(rules: &Vec<Rule>) -> (o: LimiterOutcome)
    ensures
        o == policy_decision(rules@),
{
    let mut ok: bool = true;
    let mut maxw: i32 = 0;
    let mut i: usize = 0;
    while i < rules.len()
        invariant
            i <= rules@.len(),
            ok == all_rules_have_headroom(rules@.subrange(0, i as int)),
            0 <= maxw,
            maxw as int == max_violation_window(rules@.subrange(0, i as int)),
        decreases rules@.len() - i,
    {
        let r = &rules[i];
        let headroom = (r.state.current_hits as i64) + 1 < (r.ruleset.maximum_hits as i64);
        let w: i32 = if r.ruleset.window >= 0 {
            r.ruleset.window
        } else {
            0
        };
        proof {
            let pre = rules@.subrange(0, i as int);
            let post = rules@.subrange(0, (i + 1) as int);
            assert(post.drop_last() =~= pre);
            assert(post.last() == rules@[i as int]);
            assert(headroom == rule_has_headroom(rules@[i as int]));
            if ok && headroom {
                assert forall|j: int| 0 <= j < post.len() implies rule_has_headroom(
                    #[trigger] post[j],
                ) by {
                    if j < i {
                        assert(post[j] == pre[j]);
                    }
                }
            }
            if !(ok && headroom) {
                if !ok {
                    let j = choose|j: int| 0 <= j < pre.len() && !rule_has_headroom(pre[j]);
                    assert(post[j] == pre[j]);
                    assert(!all_rules_have_headroom(post));
                } else {
                    assert(!rule_has_headroom(post[i as int]));
                    assert(!all_rules_have_headroom(post));
                }
            }
        }
        if !headroom && w > maxw {
            maxw = w;
        }
        ok = ok && headroom;
        i = i + 1;
    }
    proof {
        assert(rules@.subrange(0, rules@.len() as int) =~= rules@);
    }
    if ok {
        LimiterOutcome::Proceed
    } else {
        proof {
            lemma_max_violation_window_bounds(rules@);
        }
        LimiterOutcome::Retry { after_secs: maxw as u64 }
    }
}

/// The decision a limiter owes for an endpoint given the policies it stores:
/// an endpoint with no stored policy proceeds.
pub open spec fn spec_check(policies: Map<Seq<char>, Seq<Rule>>, endpoint: Seq<char>)
    -> LimiterOutcome {
    if policies.contains_key(endpoint) {
        policy_decision(policies[endpoint])
    } else {
        LimiterOutcome::Proceed
    }
}

/// A limiter shared by callers of one upstream API: it decides when a
/// request may be sent, and it is told the policy each response announced. The
/// policies it stores are its model; `check` answers from them alone.
pub trait RateLimiter {
    /// The policies currently stored, one rule sequence per endpoint.
    spec fn policies(&self) -> Map<Seq<char>, Seq<Rule>>;

    /// Whether this limiter's backing store cannot fail.
    spec fn reliable(&self) -> bool;

    /// Decides whether a request to `endpoint` may be sent now.
    fn check(&self, endpoint: &str) -> (r: Result<LimiterOutcome, RateLimiterError>)
        ensures
            self.reliable() ==> r is Ok,
            r matches Ok(o) ==> o == spec_check(self.policies(), endpoint@),
    ;

    /// Replaces the whole stored policy for `endpoint` with the one the last
    /// response announced.
    fn update(&mut self, endpoint: &str, policy: Policy) -> (r: Result<(), RateLimiterError>)
        ensures
            old(self).reliable() ==> r is Ok && final(self).reliable(),
            r matches Ok(u) ==> final(self).policies() == old(self).policies().insert(
                endpoint@,
                policy.rules@,
            ),
    ;
}

/// Law: the decision is `Proceed` exactly when every stored rule for the
/// endpoint leaves room for one more request.
pub proof fn lemma_proceed_has_headroom(rules: Seq<Rule>)
    ensures
        policy_decision(rules) == LimiterOutcome::Proceed <==> all_rules_have_headroom(rules),
{
}

/// Law: a `Retry` answer waits exactly as long as the largest window among
/// the rules without headroom, and such a rule exists.
pub proof fn lemma_retry_uses_largest_window(rules: Seq<Rule>)
    requires
        !all_rules_have_headroom(rules),
    ensures
        policy_decision(rules) == (LimiterOutcome::Retry {
            after_secs: max_violation_window(rules) as u64,
        }),
        exists|i: int|
            0 <= i < rules.len() && !rule_has_headroom(#[trigger] rules[i]) && rule_window_secs(
                rules[i],
            ) == max_violation_window(rules),
        forall|i: int|
            0 <= i < rules.len() && !rule_has_headroom(#[trigger] rules[i])
                ==> rule_window_secs(rules[i]) <= max_violation_window(rules),
    decreases rules.len(),
{
    let n = rules.len() as int;
    if n == 0 {
        assert(all_rules_have_headroom(rules));
    }
    let last = rules.last();
    let rest = rules.drop_last();
    let v = choose|i: int| 0 <= i < rules.len() && !rule_has_headroom(#[trigger] rules[i]);
    if all_rules_have_headroom(rest) {
        assert(!rule_has_headroom(last)) by {
            if v < n - 1 {
                assert(rest[v] == rules[v]);
            }
            assert(rules[n - 1] == last);
        }
        lemma_max_violation_window_bounds(rest);
        assert forall|i: int|
            0 <= i < rest.len() && !rule_has_headroom(#[trigger] rest[i]) implies false by {}
        if max_violation_window(rest) > rule_window_secs(last) {
            lemma_mvw_of_satisfied(rest);
            assert(max_violation_window(rules) == rule_window_secs(last));
        } else {
            assert(max_violation_window(rules) == if rule_window_secs(last)
                > max_violation_window(rest) {
                rule_window_secs(last)
            } else {
                max_violation_window(rest)
            });
            lemma_mvw_of_satisfied(rest);
            assert(max_violation_window(rules) == rule_window_secs(last));
        }
        assert(rules[n - 1] == last);
        assert forall|i: int|
            0 <= i < rules.len() && !rule_has_headroom(#[trigger] rules[i]) implies rule_window_secs(
            rules[i],
        ) <= max_violation_window(rules) by {
            if i < n - 1 {
                assert(rules[i] == rest[i]);
            }
        }
    } else {
        lemma_retry_uses_largest_window(rest);
        let w = choose|i: int|
            0 <= i < rest.len() && !rule_has_headroom(#[trigger] rest[i]) && rule_window_secs(
                rest[i],
            ) == max_violation_window(rest);
        if !rule_has_headroom(last) && rule_window_secs(last) > max_violation_window(rest) {
            assert(rules[n - 1] == last);
            assert(max_violation_window(rules) == rule_window_secs(last));
        } else {
            assert(rules[w] == rest[w]);
            assert(max_violation_window(rules) == max_violation_window(rest));
        }
        assert forall|i: int|
            0 <= i < rules.len() && !rule_has_headroom(#[trigger] rules[i]) implies rule_window_secs(
            rules[i],
        ) <= max_violation_window(rules) by {
            if i < n - 1 {
                assert(rules[i] == rest[i]);
            }
        }
    }
}

/// When every rule has headroom the violation window is zero.
proof fn lemma_mvw_of_satisfied(rules: Seq<Rule>)
    requires
        all_rules_have_headroom(rules),
    ensures
        max_violation_window(rules) == 0,
    decreases rules.len(),
{
    if rules.len() > 0 {
        assert(rule_has_headroom(rules.last()));
        assert(all_rules_have_headroom(rules.drop_last())) by {
            assert(forall|i: int|
                0 <= i < rules.len() - 1 ==> #[trigger] rules.drop_last()[i] == rules[i]);
        }
        lemma_mvw_of_satisfied(rules.drop_last());
    }
}

/// Law: when a check of an endpoint with a stored policy answers `Proceed`,
/// every stored rule for that endpoint leaves room for one more request.
pub proof fn lemma_check_proceed_has_headroom(
    policies: Map<Seq<char>, Seq<Rule>>,
    endpoint: Seq<char>,
)
    requires
        policies.contains_key(endpoint),
        spec_check(policies, endpoint) == LimiterOutcome::Proceed,
    ensures
        all_rules_have_headroom(policies[endpoint]),
{
}

/// Law: right after a policy is stored for an endpoint, a check of that
/// endpoint answers from the stored policy — the store reads its own writes.
pub proof fn lemma_update_then_check(
    policies: Map<Seq<char>, Seq<Rule>>,
    endpoint: Seq<char>,
    rules: Seq<Rule>,
)
    ensures
        spec_check(policies.insert(endpoint, rules), endpoint) == policy_decision(rules),
{
}

} // verus!
