//! The change-id pump's decisions. The pump consumes one change-id message
//! at a time; the bus work around it — pulling, publishing, acking — stays
//! at the boundary, which carries out the plan decided here: publish the
//! next change-id first, then the qualifying stash changes, and ack the
//! input only after both.
use vstd::prelude::*;

verus! {

use crate::poe::stash::PublicStashChange;
use crate::stashes::PublicStashesResponse;

/// What to do with one message of the change-id queue.
#[derive(Debug)]
pub enum ChangeIdDecision {
    /// The payload was not valid text: poison, acked terminally, never
    /// retried.
    TermAck,
    /// Fetch the page this change-id names.
    Fetch(String),
}

/// Decides how to treat a change-id payload; the boundary hands in the
/// decoded text, or nothing when the bytes were not valid text.
pub fn decide_change_id(payload: Option<String>) -> (d: ChangeIdDecision)
    ensures
        payload is None ==> d is TermAck,
        payload matches Some(s) ==> d matches ChangeIdDecision::Fetch(c) && c@ == s@,
{
    match payload {
        None => ChangeIdDecision::TermAck,
        Some(s) => ChangeIdDecision::Fetch(s),
    }
}

/// A stash change worth fanning out: public, and in some league.
pub open spec fn spec_publishable(st: PublicStashChange) -> bool {
    st.public && st.league is Some
}

/// The stash changes of a page worth fanning out, in page order.
pub open spec fn publishable_of(stashes: Seq<PublicStashChange>) -> Seq<PublicStashChange> {
    stashes.filter(|st: PublicStashChange| spec_publishable(st))
}

/// The pump's plan for one fetched page: the cursor to chain onto the
/// queue, and the stash changes to fan out, in page order.
#[derive(Debug)]
pub struct CrawlPlan {
    pub next_change_id: String,
    pub stash_publishes: Vec<PublicStashChange>,
}

/// Plans one pump step from a fetched page: chain the page's next
/// change-id, and fan out exactly the public, league-bearing stash changes,
/// in order.
pub fn plan_crawl(response: PublicStashesResponse) -> (p: CrawlPlan)
    ensures
        p.next_change_id@ == response.next_change_id@,
        p.stash_publishes@ == publishable_of(response.stashes@),
{
    let PublicStashesResponse { next_change_id, mut stashes } = response;
    let n0 = stashes.len();
    let ghost all = stashes@;
    let ghost pred = |st: PublicStashChange| spec_publishable(st);
    let mut out: Vec<PublicStashChange> = Vec::new();
    let mut i: usize = 0;
    proof {
        reveal(Seq::filter);
        assert(all.subrange(0, 0) =~= Seq::<PublicStashChange>::empty());
        assert(stashes@ =~= all.subrange(0, all.len() as int));
    }
    while stashes.len() > 0
        invariant
            i <= all.len(),
            all.len() == n0,
            stashes@ == all.subrange(i as int, all.len() as int),
            out@ == all.subrange(0, i as int).filter(pred),
            pred == (|st: PublicStashChange| spec_publishable(st)),
            out@ == publishable_of(all.subrange(0, i as int)),
        decreases all.len() - i,
    {
        let st = stashes.remove(0);
        proof {
            assert(st == all[i as int]);
            reveal(Seq::filter);
            let pre = all.subrange(0, i as int);
            let post = all.subrange(0, i as int + 1);
            assert(post.drop_last() =~= pre);
            assert(post.last() == all[i as int]);
            assert(stashes@ =~= all.subrange(i as int + 1, all.len() as int));
        }
        let publishable = st.public && st.league.is_some();
        if publishable {
            out.push(st);
        }
        i = i + 1;
        proof {
            assert(out@ =~= all.subrange(0, i as int).filter(pred));
        }
    }
    proof {
        assert(all.subrange(0, all.len() as int) =~= all);
    }
    CrawlPlan { next_change_id, stash_publishes: out }
}

/// Law: nothing non-public and nothing league-less is ever fanned out, and
/// every public, league-bearing stash change of the page is.
pub proof fn lemma_fanout_exact(stashes: Seq<PublicStashChange>)
    ensures
        forall|j: int|
            0 <= j < publishable_of(stashes).len() ==> spec_publishable(
                #[trigger] publishable_of(stashes)[j],
            ),
        forall|i: int|
            0 <= i < stashes.len() && spec_publishable(#[trigger] stashes[i]) ==> publishable_of(
                stashes,
            ).contains(stashes[i]),
{
    let pred = |st: PublicStashChange| spec_publishable(st);
    assert forall|j: int| 0 <= j < publishable_of(stashes).len() implies spec_publishable(
        #[trigger] publishable_of(stashes)[j],
    ) by {
        stashes.lemma_filter_pred(pred, j);
    }
    assert forall|i: int| 0 <= i < stashes.len() && spec_publishable(
        #[trigger] stashes[i],
    ) implies publishable_of(stashes).contains(stashes[i]) by {
        stashes.lemma_filter_contains(pred, i);
    }
}

} // verus!
