//! The history request validation, its defaults, and the exact text of the
//! aggregation query.
use poeledger::db::{
    are_valid_quantiles, build_history_query, ChInterval, ChTimeframe, IntervalError,
};
use poeledger::history::{PriceHistoryQuery, QueryRejection};

fn bare_query(item: &str) -> PriceHistoryQuery {
    PriceHistoryQuery {
        item: item.to_string(),
        league: None,
        interval_amount: None,
        interval_unit: None,
        quantiles: None,
        start_time: None,
        end_time: None,
    }
}

#[test]
fn history_defaults() {
    let now = 1700000000;
    let resolved = bare_query("Mageblood").resolve(now).unwrap();
    assert_eq!(resolved.item, "Mageblood");
    assert_eq!(resolved.league, "Affliction");
    assert_eq!(resolved.interval, ChInterval::Hour(1));
    assert_eq!(resolved.quantiles, vec!["0.1".to_string()]);
    assert_eq!(resolved.timeframe.start, now - 604800);
    assert_eq!(resolved.timeframe.end, now);
}

#[test]
fn zero_quantile_is_rejected() {
    let mut q = bare_query("Mageblood");
    q.quantiles = Some(vec!["0".to_string()]);
    assert_eq!(q.resolve(0).unwrap_err(), QueryRejection::InvalidQuantile);
}

#[test]
fn one_quantile_is_rejected() {
    let mut q = bare_query("Mageblood");
    q.quantiles = Some(vec!["1".to_string()]);
    assert_eq!(q.resolve(0).unwrap_err(), QueryRejection::InvalidQuantile);

    let mut q = bare_query("Mageblood");
    q.quantiles = Some(vec!["1.0".to_string()]);
    assert_eq!(q.resolve(0).unwrap_err(), QueryRejection::InvalidQuantile);
}

#[test]
fn unit_without_amount_is_rejected() {
    let mut q = bare_query("Mageblood");
    q.interval_unit = Some("hour".to_string());
    assert_eq!(q.resolve(0).unwrap_err(), QueryRejection::InvalidInterval);
}

#[test]
fn amount_without_unit_is_rejected() {
    let mut q = bare_query("Mageblood");
    q.interval_amount = Some(3);
    assert_eq!(q.resolve(0).unwrap_err(), QueryRejection::InvalidInterval);
}

#[test]
fn unknown_unit_is_rejected() {
    let mut q = bare_query("Mageblood");
    q.interval_amount = Some(3);
    q.interval_unit = Some("fortnight".to_string());
    assert_eq!(q.resolve(0).unwrap_err(), QueryRejection::InvalidInterval);
}

#[test]
fn full_interval_is_accepted() {
    let mut q = bare_query("Mageblood");
    q.interval_amount = Some(3);
    q.interval_unit = Some("week".to_string());
    q.quantiles = Some(vec!["0.25".to_string(), "0.5".to_string()]);
    q.start_time = Some(100);
    q.end_time = Some(200);
    q.league = Some("X".to_string());
    let resolved = q.resolve(0).unwrap();
    assert_eq!(resolved.interval, ChInterval::Week(3));
    assert_eq!(resolved.league, "X");
    assert_eq!(resolved.timeframe, ChTimeframe::new(100, 200));
}

#[test]
fn quantile_validation() {
    let good = vec!["0.1".to_string(), "0.999".to_string(), "0.5".to_string()];
    assert!(are_valid_quantiles(&good));

    let low = vec!["0".to_string()];
    assert!(!are_valid_quantiles(&low));

    let high = vec!["1".to_string()];
    assert!(!are_valid_quantiles(&high));

    let junk = vec!["p95".to_string()];
    assert!(!are_valid_quantiles(&junk));

    let empty: Vec<String> = Vec::new();
    assert!(are_valid_quantiles(&empty));
}

#[test]
fn interval_strings() {
    assert_eq!(ChInterval::try_from("3 hour".to_string()).unwrap(), ChInterval::Hour(3));
    assert_eq!(
        ChInterval::try_from(" 1 minute ".to_string()).unwrap(),
        ChInterval::Minute(1)
    );
    assert_eq!(
        ChInterval::try_from("12 year extra".to_string()).unwrap(),
        ChInterval::Year(12)
    );
    assert_eq!(
        ChInterval::try_from("hour".to_string()).unwrap_err(),
        IntervalError::Invalid
    );
    assert_eq!(
        ChInterval::try_from("x hour".to_string()).unwrap_err(),
        IntervalError::InvalidAmount
    );
    assert_eq!(
        ChInterval::try_from("3 fortnight".to_string()).unwrap_err(),
        IntervalError::InvalidUnit
    );
    assert_eq!(ChInterval::Month(2).to_string(), "2 month");
}

#[test]
fn query_text_is_exact() {
    let interval = ChInterval::Hour(1);
    let quantiles = vec!["0.1".to_string(), "0.5".to_string()];
    let timeframe = ChTimeframe::new(100, 200);
    let q = build_history_query(&interval, &quantiles, &timeframe);
    let expected = "SELECT\n                name as item_name,\n                toStartOfInterval(created_at, INTERVAL 1 hour) AS interval_bucket,\n                arrayZip([0.1,0.5], quantiles(0.1,0.5)(listed_price)) AS price_by_quantile,\n                listed_currency\n            FROM ledger.listings\n            WHERE name ilike ? AND league = ? AND created_at BETWEEN 100 AND 200\n            GROUP BY interval_bucket, name, listed_currency\n            ORDER BY interval_bucket";
    assert_eq!(q, expected);
}
