//! Reading rate-limit policies from response headers, and the client's
//! pre-send and status decisions.
use poeledger::client::{
    authorize_status_error, limiter_verdict, oauth_token_url, require_token, stash_url,
    stashes_status_error, ClientError,
};
use poeledger::fetch::parse_rate_limit_policy;
use poeledger::limiter::{LimiterOutcome, RateLimiterError, RuleType};

fn headers(pairs: &[(&str, &str)]) -> Vec<(String, String)> {
    pairs
        .iter()
        .map(|(n, v)| (n.to_string(), v.to_string()))
        .collect()
}

#[test]
fn no_policy_header_means_no_update() {
    let hs = headers(&[("content-type", "application/json")]);
    let r = parse_rate_limit_policy(&hs).unwrap();
    assert!(r.is_none());
}

#[test]
fn announced_rules_are_read_in_order() {
    let hs = headers(&[
        ("x-rate-limit-policy", "backend"),
        ("x-rate-limit-rules", "ip,client"),
        ("x-rate-limit-ip", "5:10:60"),
        ("x-rate-limit-ip-state", "4:10:0"),
        ("x-rate-limit-client", "100:60:300"),
        ("x-rate-limit-client-state", "7:60:0"),
    ]);
    let policy = parse_rate_limit_policy(&hs).unwrap().unwrap();
    assert_eq!(policy.rules.len(), 2);
    assert_eq!(policy.rules[0].rtype, RuleType::Ip);
    assert_eq!(policy.rules[0].ruleset.maximum_hits, 5);
    assert_eq!(policy.rules[0].state.current_hits, 4);
    assert_eq!(policy.rules[1].rtype, RuleType::Client);
    assert_eq!(policy.rules[1].ruleset.window, 60);
}

#[test]
fn kind_missing_a_header_is_skipped() {
    let hs = headers(&[
        ("x-rate-limit-policy", "backend"),
        ("x-rate-limit-rules", "ip,client"),
        ("x-rate-limit-ip", "5:10:60"),
        ("x-rate-limit-ip-state", "4:10:0"),
        ("x-rate-limit-client", "100:60:300"),
    ]);
    let policy = parse_rate_limit_policy(&hs).unwrap().unwrap();
    assert_eq!(policy.rules.len(), 1);
    assert_eq!(policy.rules[0].rtype, RuleType::Ip);
}

#[test]
fn malformed_triple_is_an_error() {
    let hs = headers(&[
        ("x-rate-limit-policy", "backend"),
        ("x-rate-limit-rules", "ip"),
        ("x-rate-limit-ip", "5:10"),
        ("x-rate-limit-ip-state", "4:10:0"),
    ]);
    let r = parse_rate_limit_policy(&hs);
    assert!(matches!(r, Err(RateLimiterError::InvalidHeaderFormat(s)) if s == "5:10"));

    let hs = headers(&[
        ("x-rate-limit-policy", "backend"),
        ("x-rate-limit-rules", "ip"),
        ("x-rate-limit-ip", "5:10:60"),
        ("x-rate-limit-ip-state", "4:ten:0"),
    ]);
    let r = parse_rate_limit_policy(&hs);
    assert!(matches!(r, Err(RateLimiterError::HeaderIntParseFailed)));
}

#[test]
fn unknown_kind_reads_as_the_default_identity() {
    let hs = headers(&[
        ("x-rate-limit-policy", "backend"),
        ("x-rate-limit-rules", "tenant"),
        ("x-rate-limit-ip", "5:10:60"),
        ("x-rate-limit-ip-state", "0:10:0"),
    ]);
    let policy = parse_rate_limit_policy(&hs).unwrap().unwrap();
    assert_eq!(policy.rules.len(), 1);
    assert_eq!(policy.rules[0].rtype, RuleType::Ip);
}

#[test]
fn limiter_verdict_decisions() {
    let r = limiter_verdict(Ok(LimiterOutcome::Retry { after_secs: 9 }));
    assert!(matches!(r, Ok(LimiterOutcome::Retry { after_secs: 9 })));

    let r = limiter_verdict(Err(RateLimiterError::UnknownEndpoint("x".to_string())));
    assert!(matches!(r, Ok(LimiterOutcome::Proceed)));

    let r = limiter_verdict(Err(RateLimiterError::InternalError));
    assert!(matches!(r, Err(ClientError::UnknownError)));
}

#[test]
fn urls_are_exact() {
    assert_eq!(
        stash_url(None),
        "https://api.pathofexile.com/public-stash-tabs"
    );
    assert_eq!(
        stash_url(Some("A")),
        "https://api.pathofexile.com/public-stash-tabs?id=A"
    );
    assert_eq!(oauth_token_url(), "https://www.pathofexile.com/oauth/token");
}

#[test]
fn status_decisions() {
    assert!(stashes_status_error(200).is_none());
    assert!(matches!(stashes_status_error(401), Some(ClientError::AuthError)));
    assert!(matches!(
        stashes_status_error(503),
        Some(ClientError::HttpError(503))
    ));
    assert!(authorize_status_error(200).is_none());
    assert!(matches!(
        authorize_status_error(400),
        Some(ClientError::HttpError(400))
    ));
}

#[test]
fn missing_token_fails_the_call() {
    let token: Option<String> = None;
    assert!(matches!(require_token(&token), Err(ClientError::AuthError)));

    let token = Some("bearer-token".to_string());
    assert_eq!(require_token(&token).unwrap(), "bearer-token");
}
