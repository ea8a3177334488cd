//! The shared-store key schema and decisions, the currency and economy
//! token maps, sanitization, and the listing conversions.
use poeledger::datastore::SurrealDatastore;
use poeledger::economy::{Confidence, Error, ItemLinks, League};
use poeledger::item::{ItemListing, ListCurrency};
use poeledger::limiter::{Policy, Rule, RuleSet, RuleState, RuleType};
use poeledger::listing::{Listing, ListingCurrency, ListingError};
use poeledger::poe::item::{FrameType, Item};
use poeledger::prices::{resolve_prices_query, PricesQuery};
use poeledger::remote::{
    decide_remote_check, endpoint_rtypes_key, generate_remote_key, plan_policy_update, KvFetch,
};
use poeledger::limiter::LimiterOutcome;
use poeledger::search::listing_documents;
use poeledger::utils::sanitize_mongo_string;

#[test]
fn currency_tokens_round_trip() {
    let tokens = [
        "exa",
        "divine",
        "chaos",
        "awakened-sextant",
        "mirror",
        "alch",
        "fusing",
        "annul",
        "chance",
        "alt",
        "scour",
        "regal",
    ];
    for token in tokens {
        let c = ListingCurrency::from(token);
        assert_ne!(c, ListingCurrency::Unknown);
        assert_eq!(c.to_string(), token);
    }
    assert_eq!(ListingCurrency::from("unknown"), ListingCurrency::Unknown);
    assert_eq!(ListingCurrency::from("gold"), ListingCurrency::Unknown);
    assert_eq!(ListCurrency::from("exa"), ListCurrency::Exalt);
    assert_eq!(ListCurrency::from("gold"), ListCurrency::Unknown);
}

#[test]
fn economy_tokens_round_trip() {
    assert_eq!(League::from_str("Sanctum").unwrap(), League::Sanctum);
    assert_eq!(League::Sanctum.to_string(), "Sanctum");
    assert_eq!(League::from_str("Hardcore").unwrap_err(), Error::UnknownLeague);

    assert_eq!(Confidence::from_str("High").unwrap(), Confidence::High);
    assert_eq!(Confidence::High.to_string(), "High");
    assert_eq!(
        Confidence::from_str("Shaky").unwrap_err(),
        Error::UnknownConfidence
    );

    assert_eq!(ItemLinks::from_str("1-4 links").unwrap(), ItemLinks::OneToFour);
    assert_eq!(ItemLinks::Six.to_string(), "6 links");
    assert_eq!(
        ItemLinks::from_str("7 links").unwrap_err(),
        Error::UnknownItemLinks
    );
}

#[test]
fn sanitizer_drops_operator_characters() {
    assert_eq!(
        sanitize_mongo_string("Divine Orb".to_string()),
        "Divine Orb"
    );
    assert_eq!(
        sanitize_mongo_string("{$where: 1}".to_string()),
        "where 1"
    );
    assert_eq!(
        sanitize_mongo_string("Maven's Orb, 50%".to_string()),
        "Maven's Orb, 50%"
    );
}

#[test]
fn prices_query_defaults() {
    let q = PricesQuery { name: None, league: None };
    let (name, league) = resolve_prices_query(q);
    assert_eq!(name, "Divine Orb");
    assert_eq!(league, "Sanctum");

    let q = PricesQuery {
        name: Some("Mirror} of {Kalandra".to_string()),
        league: Some("Crucible".to_string()),
    };
    let (name, league) = resolve_prices_query(q);
    assert_eq!(name, "Mirror of Kalandra");
    assert_eq!(league, "Crucible");
}

#[test]
fn remote_keys_follow_the_schema() {
    assert_eq!(
        generate_remote_key("203.0.113.9", &RuleType::Ip, "public-stash-tabs"),
        "203.0.113.9_ip_public-stash-tabs"
    );
    assert_eq!(
        generate_remote_key("203.0.113.9", &RuleType::Client, "public-stash-tabs"),
        "client_public-stash-tabs"
    );
    assert_eq!(
        generate_remote_key("203.0.113.9", &RuleType::Account, "public-stash-tabs"),
        "account_public-stash-tabs"
    );
    assert_eq!(
        endpoint_rtypes_key("203.0.113.9", "public-stash-tabs"),
        "203.0.113.9_public-stash-tabs_policy"
    );
}

fn rule(max: i32, window: i32, hits: i32) -> Rule {
    Rule {
        rtype: RuleType::Ip,
        ruleset: RuleSet { maximum_hits: max, window, time_restricted: 0 },
        state: RuleState { current_hits: hits, window, active_time_restricted: 0 },
    }
}

#[test]
fn remote_check_decisions() {
    // an unreadable identity-kind list degrades to a five-second wait
    let out = decide_remote_check(true, &Vec::new());
    assert_eq!(out, LimiterOutcome::Retry { after_secs: 5 });

    // known rules decide as usual
    let out = decide_remote_check(false, &vec![KvFetch::Found(rule(5, 10, 0)), KvFetch::Missing]);
    assert_eq!(out, LimiterOutcome::Proceed);

    // a failed rule read keeps at least the five-second floor
    let out = decide_remote_check(false, &vec![KvFetch::Found(rule(5, 10, 0)), KvFetch::Failed]);
    assert_eq!(out, LimiterOutcome::Retry { after_secs: 5 });
    let out = decide_remote_check(false, &vec![KvFetch::Found(rule(5, 10, 4)), KvFetch::Failed]);
    assert_eq!(out, LimiterOutcome::Retry { after_secs: 10 });
}

#[test]
fn policy_update_plan_covers_every_rule() {
    let policy = Policy {
        rules: vec![
            rule(5, 10, 0),
            Rule { rtype: RuleType::Client, ..rule(100, 60, 0) },
        ],
    };
    let plan = plan_policy_update("203.0.113.9", "public-stash-tabs", &policy);
    assert_eq!(plan.rule_puts.len(), 2);
    assert_eq!(plan.rule_puts[0].0, "203.0.113.9_ip_public-stash-tabs");
    assert_eq!(plan.rule_puts[1].0, "client_public-stash-tabs");
    assert_eq!(plan.rtypes, vec![RuleType::Ip, RuleType::Client]);
    assert_eq!(plan.rtypes_key, "203.0.113.9_public-stash-tabs_policy");
}

fn full_item() -> Item {
    Item {
        id: Some("i1".to_string()),
        name: "Mageblood".to_string(),
        note: Some("~price 70 chaos".to_string()),
        league: Some("X".to_string()),
        frame_type: Some(FrameType::Unique),
        implicit_mods: Some(vec!["imp".to_string()]),
        explicit_mods: Some(vec!["exp1".to_string(), "exp2".to_string()]),
    }
}

#[test]
fn listing_conversion_errors() {
    let mut item = full_item();
    item.id = None;
    assert_eq!(Listing::try_from(item).unwrap_err(), ListingError::MissingId);

    let mut item = full_item();
    item.note = None;
    assert_eq!(Listing::try_from(item).unwrap_err(), ListingError::MissingNote);

    let mut item = full_item();
    item.note = Some("no price here".to_string());
    assert_eq!(Listing::try_from(item).unwrap_err(), ListingError::UnpricedNote);

    let mut item = full_item();
    item.note = Some("~price 1.2.3 chaos".to_string());
    assert_eq!(Listing::try_from(item).unwrap_err(), ListingError::InvalidPrice);
}

#[test]
fn listing_conversion_carries_the_fields() {
    let listing = Listing::from_item_at(full_item(), 1700000000).unwrap();
    assert_eq!(listing.name, "Mageblood");
    assert_eq!(listing.item_id, "i1");
    assert_eq!(listing.league, "X");
    assert_eq!(listing.implicit_mods, vec!["imp".to_string()]);
    assert_eq!(listing.explicit_mods, vec!["exp1".to_string(), "exp2".to_string()]);
    assert_eq!(listing.created_at, 1700000000);
    assert_eq!(listing.price.listed_currency, ListingCurrency::ChaosOrb);

    let mut league_less = full_item();
    league_less.league = None;
    let listing = Listing::from_item_at(league_less, 0).unwrap();
    assert_eq!(listing.league, "Affliction");
}

#[test]
fn item_listing_keeps_the_zero_price_for_unmatched_notes() {
    let mut item = full_item();
    item.note = Some("no price here".to_string());
    let l = ItemListing::from(item);
    assert_eq!(l.price.list_price.numer, 0);
    assert_eq!(l.price.list_price.denom, 1);
    assert_eq!(l.price.list_currency, ListCurrency::Unknown);
    assert_eq!(l.league, "X");
}

#[test]
fn search_documents_cover_the_batch() {
    let listings = vec![
        Listing::from_item_at(full_item(), 0).unwrap(),
    ];
    let docs = listing_documents(&listings);
    assert_eq!(docs.len(), 1);
    assert_eq!(docs[0].id, "mageblood");
    assert_eq!(docs[0].name, "Mageblood");
}

#[test]
fn datastore_targets_the_listings_table() {
    let store = SurrealDatastore::new();
    assert_eq!(store.listings_table, "item_listings");
}

#[test]
fn fresh_listing_is_empty_and_unpriced() {
    let l = Listing::new();
    assert_eq!(l.name, "");
    assert_eq!(l.item_id, "");
    assert_eq!(l.league, "");
    assert_eq!(l.price.listed_price.numer, 0);
    assert_eq!(l.price.listed_price.denom, 1);
    assert_eq!(l.price.listed_currency, ListingCurrency::Unknown);
    assert!(l.implicit_mods.is_empty());
    assert!(l.explicit_mods.is_empty());
}
