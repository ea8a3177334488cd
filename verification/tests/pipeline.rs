//! The crawl and process steps end to end at the decision level: the happy
//! chain, quarantine, and replay after a crash.
use poeledger::crawler::{decide_change_id, plan_crawl, ChangeIdDecision};
use poeledger::listing::ListingCurrency;
use poeledger::poe::item::{FrameType, Item};
use poeledger::poe::stash::PublicStashChange;
use poeledger::processor::{plan_process, ProcessAction};
use poeledger::stashes::PublicStashesResponse;

fn mageblood_item() -> Item {
    Item {
        id: Some("i1".to_string()),
        name: "Mageblood".to_string(),
        note: Some("~price 70 chaos".to_string()),
        league: None,
        frame_type: Some(FrameType::Unique),
        implicit_mods: None,
        explicit_mods: None,
    }
}

fn happy_stash() -> PublicStashChange {
    PublicStashChange {
        id: "stash-1".to_string(),
        public: true,
        account_name: None,
        stash: None,
        stash_type: "PremiumStash".to_string(),
        league: Some("X".to_string()),
        items: vec![mageblood_item()],
    }
}

fn happy_response() -> PublicStashesResponse {
    PublicStashesResponse {
        next_change_id: "B".to_string(),
        stashes: vec![happy_stash()],
    }
}

#[test]
fn happy_chain() {
    // the message on the change-id queue decodes to "A"
    let decision = decide_change_id(Some("A".to_string()));
    assert!(matches!(decision, ChangeIdDecision::Fetch(id) if id == "A"));

    // the fetched page chains "B" and fans out the one public stash
    let plan = plan_crawl(happy_response());
    assert_eq!(plan.next_change_id, "B");
    assert_eq!(plan.stash_publishes.len(), 1);
    assert_eq!(plan.stash_publishes[0].id, "stash-1");

    // the processor turns the fanned-out stash into one listing
    let action = plan_process(Some(plan.stash_publishes.into_iter().next().unwrap()), 1700000000);
    match action {
        ProcessAction::Insert(batch) => {
            assert_eq!(batch.len(), 1);
            let listing = &batch[0];
            assert_eq!(listing.item_id, "i1");
            assert_eq!(listing.name, "Mageblood");
            assert_eq!(listing.league, "X");
            assert_eq!(
                70.0,
                listing.price.listed_price.numer as f64 / listing.price.listed_price.denom as f64
            );
            assert_eq!(listing.price.listed_currency, ListingCurrency::ChaosOrb);
            assert_eq!(listing.created_at, 1700000000);
        }
        ProcessAction::Quarantine => panic!("a decoded stash must not be quarantined"),
    }
}

#[test]
fn quarantine_undecodable_payload() {
    // the bytes "not json" do not decode to a stash change
    let action = plan_process(None, 1700000000);
    assert!(matches!(action, ProcessAction::Quarantine));
}

#[test]
fn invalid_change_id_payload_is_poison() {
    let decision = decide_change_id(None);
    assert!(matches!(decision, ChangeIdDecision::TermAck));
}

#[test]
fn non_public_stash_is_not_fanned_out() {
    let mut hidden = happy_stash();
    hidden.public = false;
    let response = PublicStashesResponse {
        next_change_id: "B".to_string(),
        stashes: vec![hidden, happy_stash()],
    };
    let plan = plan_crawl(response);
    assert_eq!(plan.stash_publishes.len(), 1);
    assert!(plan.stash_publishes[0].public);
}

#[test]
fn league_less_stash_is_not_fanned_out() {
    let mut shard_less = happy_stash();
    shard_less.league = None;
    let plan = plan_crawl(PublicStashesResponse {
        next_change_id: "B".to_string(),
        stashes: vec![shard_less],
    });
    assert_eq!(plan.stash_publishes.len(), 0);
}

#[test]
fn chain_resilience_replays_the_same_plan() {
    // the crawler crashed after publishing "B" but before acking "A"; on
    // redelivery the same fetched page yields the same publishes again
    let first = plan_crawl(happy_response());
    let second = plan_crawl(happy_response());
    assert_eq!(first.next_change_id, second.next_change_id);
    assert_eq!(first.stash_publishes.len(), second.stash_publishes.len());
    assert_eq!(first.stash_publishes[0].id, second.stash_publishes[0].id);

    // and the re-fanned stash produces the same listing rows again
    let a1 = plan_process(Some(happy_stash()), 1700000000);
    let a2 = plan_process(Some(happy_stash()), 1700000000);
    match (a1, a2) {
        (ProcessAction::Insert(b1), ProcessAction::Insert(b2)) => {
            assert_eq!(b1.len(), b2.len());
            assert_eq!(b1[0].item_id, b2[0].item_id);
            assert_eq!(b1[0].price.listed_price, b2[0].price.listed_price);
        }
        _ => panic!("both replays must insert"),
    }
}

#[test]
fn unqualified_items_produce_no_listing() {
    let mut unnamed = mageblood_item();
    unnamed.name = String::new();
    let mut wrong_frame = mageblood_item();
    wrong_frame.frame_type = Some(FrameType::Rare);
    let mut unpriced = mageblood_item();
    unpriced.note = None;
    let mut stash = happy_stash();
    stash.items = vec![unnamed, wrong_frame, unpriced];

    match plan_process(Some(stash), 0) {
        ProcessAction::Insert(batch) => assert_eq!(batch.len(), 0),
        ProcessAction::Quarantine => panic!("a decoded stash must not be quarantined"),
    }
}
