//! The rate-limit model: header triples, the decision function, and the
//! in-process store.
use poeledger::limiter::{
    decide_policy, header_part_to_i32, LimiterOutcome, Policy, RateLimiter, RateLimiterError,
    Rule, RuleSet, RuleState, RuleType,
};
use poeledger::local::LocalRateLimiter;

fn rule(rtype: RuleType, max: i32, window: i32, hits: i32) -> Rule {
    Rule {
        rtype,
        ruleset: RuleSet {
            maximum_hits: max,
            window,
            time_restricted: 0,
        },
        state: RuleState {
            current_hits: hits,
            window,
            active_time_restricted: 0,
        },
    }
}

#[test]
fn rate_limit_retry_then_proceed() {
    let mut limiter = LocalRateLimiter::new();

    // a single IP rule: maximum 5 hits in a 10 second window, 4 used
    let policy = Policy {
        rules: vec![rule(RuleType::Ip, 5, 10, 4)],
    };
    limiter.update("public-stash-tabs", policy).unwrap();
    let outcome = limiter.check("public-stash-tabs").unwrap();
    assert_eq!(outcome, LimiterOutcome::Retry { after_secs: 10 });

    // the next response resets the observed hits
    let refreshed = Policy {
        rules: vec![rule(RuleType::Ip, 5, 10, 0)],
    };
    limiter.update("public-stash-tabs", refreshed).unwrap();
    let outcome = limiter.check("public-stash-tabs").unwrap();
    assert_eq!(outcome, LimiterOutcome::Proceed);
}

#[test]
fn unknown_endpoint_proceeds() {
    let limiter = LocalRateLimiter::new();
    let outcome = limiter.check("public-stash-tabs").unwrap();
    assert_eq!(outcome, LimiterOutcome::Proceed);
}

#[test]
fn largest_violated_window_wins() {
    let rules = vec![
        rule(RuleType::Ip, 5, 10, 4),
        rule(RuleType::Client, 100, 60, 99),
        rule(RuleType::Account, 50, 30, 0),
    ];
    let outcome = decide_policy(&rules);
    assert_eq!(outcome, LimiterOutcome::Retry { after_secs: 60 });
}

#[test]
fn all_headroom_proceeds() {
    let rules = vec![rule(RuleType::Ip, 5, 10, 0), rule(RuleType::Client, 100, 60, 42)];
    assert_eq!(decide_policy(&rules), LimiterOutcome::Proceed);
}

#[test]
fn default_outcome_waits_half_a_minute() {
    assert_eq!(
        LimiterOutcome::default(),
        LimiterOutcome::Retry { after_secs: 30 }
    );
}

#[test]
fn ruleset_triple_parses() {
    let rs = RuleSet::try_from("5:10:60").unwrap();
    assert_eq!(rs.maximum_hits, 5);
    assert_eq!(rs.window, 10);
    assert_eq!(rs.time_restricted, 60);

    let st = RuleState::try_from("4:10:0").unwrap();
    assert_eq!(st.current_hits, 4);
    assert_eq!(st.window, 10);
    assert_eq!(st.active_time_restricted, 0);
}

#[test]
fn malformed_triple_reports_its_text() {
    let r = RuleSet::try_from("5:10");
    assert!(matches!(r, Err(RateLimiterError::InvalidHeaderFormat(s)) if s == "5:10"));

    let r = RuleState::try_from("a:b:c");
    assert!(matches!(r, Err(RateLimiterError::HeaderIntParseFailed)));
}

#[test]
fn header_part_parses_integers() {
    assert_eq!(header_part_to_i32("42").unwrap(), 42);
    assert_eq!(header_part_to_i32("-7").unwrap(), -7);
    assert_eq!(header_part_to_i32("2147483647").unwrap(), 2147483647);
    assert!(matches!(
        header_part_to_i32("2147483648"),
        Err(RateLimiterError::HeaderIntParseFailed)
    ));
    assert!(matches!(
        header_part_to_i32(""),
        Err(RateLimiterError::HeaderIntParseFailed)
    ));
}

#[test]
fn rule_type_tokens_round_trip() {
    assert_eq!(RuleType::from("ip"), RuleType::Ip);
    assert_eq!(RuleType::from("Client"), RuleType::Client);
    assert_eq!(RuleType::from("ACCOUNT"), RuleType::Account);
    assert_eq!(RuleType::from("something-else"), RuleType::Ip);
    assert_eq!(RuleType::Client.to_string(), "client");
}
