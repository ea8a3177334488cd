//! The stash processor's decisions. The processor consumes one stash-change
//! message at a time; decoding, quarantine publishing, store inserts and
//! acks stay at the boundary, which carries out the plan decided here.
use vstd::prelude::*;

verus! {

use crate::listing::{listing_matches_item, spec_listing_ok, Listing};
use crate::poe::item::{FrameType, Item};
use crate::poe::stash::PublicStashChange;

/// An item with the envelope's league filled in where the item names none:
/// the listing's league is the stash change's shard.
pub open spec fn with_league(item: Item, league: Option<String>) -> Item {
    if item.league is Some {
        item
    } else {
        Item {
            id: item.id,
            name: item.name,
            note: item.note,
            league,
            frame_type: item.frame_type,
            implicit_mods: item.implicit_mods,
            explicit_mods: item.explicit_mods,
        }
    }
}

/// An item worth indexing: priced, of a unique rarity frame, named, and
/// identified by a stable id.
pub open spec fn spec_qualifies(item: Item) -> bool {
    &&& item.note is Some
    &&& (match item.frame_type {
        Some(f) => f == FrameType::Unique || f == FrameType::Foil || f == FrameType::SupporterFoil,
        None => false,
    })
    &&& item.name@.len() > 0
    &&& item.id is Some
}

/// Whether an item passes the qualification filter.
pub fn qualifies(item: &Item) -> (r: bool)
    ensures
        r == spec_qualifies(*item),
{
    let is_priced = item.note.is_some();
    let is_unique = match item.frame_type {
        Some(FrameType::Unique) => true,
        Some(FrameType::Foil) => true,
        Some(FrameType::SupporterFoil) => true,
        _ => false,
    };
    let name_exists = !item.name.as_str().is_empty();
    let has_item_id = item.id.is_some();
    is_priced && is_unique && name_exists && has_item_id
}

/// How a batch of listings relates to the items of one stash change in a
/// given league, at extraction time `now`: each qualifying item whose note
/// reads exactly contributes one listing — with the envelope's league where
/// the item names none — in item order; every other item, unqualified,
/// unpriced, or with an unreadable note, contributes none.
pub open spec fn batch_matches_items(
    items: Seq<Item>,
    league: Option<String>,
    batch: Seq<Listing>,
    now: i64,
) -> bool
    decreases items.len(),
{
    if items.len() == 0 {
        batch.len() == 0
    } else {
        let it = with_league(items.last(), league);
        if spec_qualifies(it) && spec_listing_ok(it) {
            &&& batch.len() > 0
            &&& listing_matches_item(batch.last(), it, now)
            &&& batch_matches_items(items.drop_last(), league, batch.drop_last(), now)
        } else {
            batch_matches_items(items.drop_last(), league, batch, now)
        }
    }
}

/// Builds the listing batch for one stash change: the qualifying items
/// whose notes read exactly, converted in order and stamped `now`.
pub fn listings_from_stash(stash: PublicStashChange, now: i64) -> (batch: Vec<Listing>)
    ensures
        batch_matches_items(stash.items@, stash.league, batch@, now),
{
    let PublicStashChange { league, mut items, .. } = stash;
    let n0 = items.len();
    let ghost all = items@;
    let mut batch: Vec<Listing> = Vec::new();
    let mut i: usize = 0;
    proof {
        assert(all.subrange(0, 0) =~= Seq::<Item>::empty());
        assert(items@ =~= all.subrange(0, all.len() as int));
    }
    while items.len() > 0
        invariant
            i <= all.len(),
            all.len() == n0,
            items@ == all.subrange(i as int, all.len() as int),
            batch_matches_items(all.subrange(0, i as int), league, batch@, now),
        decreases all.len() - i,
    {
        let item = items.remove(0);
        let ghost pre = all.subrange(0, i as int);
        let ghost post = all.subrange(0, i as int + 1);
        proof {
            assert(item == all[i as int]);
            assert(post.drop_last() =~= pre);
            assert(post.last() == all[i as int]);
            assert(items@ =~= all.subrange(i as int + 1, all.len() as int));
        }
        let item = if item.league.is_none() {
            let shard = match &league {
                Some(s) => Some(s.clone()),
                None => None,
            };
            Item {
                id: item.id,
                name: item.name,
                note: item.note,
                league: shard,
                frame_type: item.frame_type,
                implicit_mods: item.implicit_mods,
                explicit_mods: item.explicit_mods,
            }
        } else {
            item
        };
        proof {
            assert(item == with_league(all[i as int], league));
        }
        if qualifies(&item) {
            let ghost prev_batch = batch@;
            match Listing::from_item_at(item, now) {
                Ok(listing) => {
                    batch.push(listing);
                    proof {
                        assert(batch@.drop_last() =~= prev_batch);
                        assert(batch@.last() == listing);
                        assert(batch_matches_items(post, league, batch@, now));
                    }
                },
                Err(_) => {
                    // the note does not read as a price: skip the item
                },
            }
        }
        i = i + 1;
    }
    proof {
        assert(all.subrange(0, all.len() as int) =~= all);
    }
    batch
}

/// What to do with one message of the stash queue.
#[derive(Debug)]
pub enum ProcessAction {
    /// The payload did not decode: republish the raw bytes on the
    /// quarantine subject and ack terminally, writing nothing.
    Quarantine,
    /// Insert this batch in one call, then ack; failure leaves the message
    /// unacked for redelivery.
    Insert(Vec<Listing>),
}

/// Plans one processor step: an undecodable message is quarantined, a
/// decoded one becomes its batch of listings.
pub fn plan_process(decoded: Option<PublicStashChange>, now: i64) -> (a: ProcessAction)
    ensures
        decoded is None ==> a is Quarantine,
        decoded matches Some(st) ==> a matches ProcessAction::Insert(batch)
            && batch_matches_items(st.items@, st.league, batch@, now),
{
    match decoded {
        None => ProcessAction::Quarantine,
        Some(stash) => {
            let batch = listings_from_stash(stash, now);
            ProcessAction::Insert(batch)
        },
    }
}

/// Law: every listing of a batch comes from some qualifying item of the
/// stash change — an item with a stable id the listing carries, a name the
/// listing carries, a note the grammar matches, and a unique rarity frame —
/// read in the envelope's league where the item names none.
pub proof fn lemma_listing_provenance(
    items: Seq<Item>,
    league: Option<String>,
    batch: Seq<Listing>,
    now: i64,
)
    requires
        batch_matches_items(items, league, batch, now),
    ensures
        forall|j: int|
            0 <= j < batch.len() ==> exists|i: int|
                0 <= i < items.len() && spec_qualifies(with_league(#[trigger] items[i], league))
                    && spec_listing_ok(with_league(items[i], league)) && listing_matches_item(
                    #[trigger] batch[j],
                    with_league(items[i], league),
                    now,
                ),
    decreases items.len(),
{
    if items.len() > 0 {
        let it = with_league(items.last(), league);
        if spec_qualifies(it) && spec_listing_ok(it) {
            lemma_listing_provenance(items.drop_last(), league, batch.drop_last(), now);
            assert forall|j: int| 0 <= j < batch.len() implies exists|i: int|
                0 <= i < items.len() && spec_qualifies(with_league(#[trigger] items[i], league))
                    && spec_listing_ok(with_league(items[i], league)) && listing_matches_item(
                    #[trigger] batch[j],
                    with_league(items[i], league),
                    now,
                ) by {
                if j < batch.len() - 1 {
                    assert(batch.drop_last()[j] == batch[j]);
                    let w = choose|w: int|
                        0 <= w < items.drop_last().len() && spec_qualifies(
                            with_league(#[trigger] items.drop_last()[w], league),
                        ) && spec_listing_ok(with_league(items.drop_last()[w], league))
                            && listing_matches_item(
                            batch.drop_last()[j],
                            with_league(items.drop_last()[w], league),
                            now,
                        );
                    assert(items[w] == items.drop_last()[w]);
                } else {
                    assert(items[items.len() - 1] == items.last());
                    assert(listing_matches_item(
                        batch[j],
                        with_league(items[items.len() - 1], league),
                        now,
                    ));
                }
            }
        } else {
            lemma_listing_provenance(items.drop_last(), league, batch, now);
            assert forall|j: int| 0 <= j < batch.len() implies exists|i: int|
                0 <= i < items.len() && spec_qualifies(with_league(#[trigger] items[i], league))
                    && spec_listing_ok(with_league(items[i], league)) && listing_matches_item(
                    #[trigger] batch[j],
                    with_league(items[i], league),
                    now,
                ) by {
                let w = choose|w: int|
                    0 <= w < items.drop_last().len() && spec_qualifies(
                        with_league(#[trigger] items.drop_last()[w], league),
                    ) && spec_listing_ok(with_league(items.drop_last()[w], league))
                        && listing_matches_item(
                        batch[j],
                        with_league(items.drop_last()[w], league),
                        now,
                    );
                assert(items[w] == items.drop_last()[w]);
            }
        }
    }
}

} // verus!
