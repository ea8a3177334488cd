//! Documents for the name-search index: one per unique name, under a
//! normalized id.
use vstd::prelude::*;

verus! {

use vstd::string::StringExecFns;
use crate::listing::Listing;
use crate::text::{
    chars_to_string, lower_of, lowercase, str_to_chars, trim_chars, trim_spec,
};

/// A character the id drops: brackets, separators and quote marks that
/// search engines treat as syntax.
pub open spec fn spec_id_dropped(c: char) -> bool {
    c == '(' || c == ')' || c == ',' || c == '"' || c == '.' || c == ';' || c == ':' || c == '\''
        || c == ' '
}

/// The normalized id of a name: trimmed, lowercased, with punctuation and
/// spaces removed.
pub open spec fn spec_name_to_id(s: Seq<char>) -> Seq<char> {
    lower_of(trim_spec(s)).filter(|c: char| !spec_id_dropped(c))
}

/// Normalizes a display name into a stable document id.
pub fn name_to_id(name: &str) -> (r: String)
    ensures
        r@ == spec_name_to_id(name@),
{
    let chars = str_to_chars(name);
    let trimmed = trim_chars(&chars);
    let lowered = lowercase(chars_to_string(&trimmed).as_str());
    let lchars = str_to_chars(lowered.as_str());
    let ghost all = lchars@;
    let ghost pred = |c: char| !spec_id_dropped(c);
    let mut kept: Vec<char> = Vec::new();
    let mut i: usize = 0;
    proof {
        reveal(Seq::filter);
        assert(all.subrange(0, 0) =~= Seq::<char>::empty());
    }
    while i < lchars.len()
        invariant
            i <= all.len(),
            all == lchars@,
            pred == (|c: char| !spec_id_dropped(c)),
            kept@ == all.subrange(0, i as int).filter(pred),
        decreases all.len() - i,
    {
        let c = lchars[i];
        proof {
            reveal(Seq::filter);
            let pre = all.subrange(0, i as int);
            let post = all.subrange(0, i as int + 1);
            assert(post.drop_last() =~= pre);
            assert(post.last() == all[i as int]);
        }
        let dropped = c == '(' || c == ')' || c == ',' || c == '"' || c == '.' || c == ';' || c
            == ':' || c == '\'' || c == ' ';
        if !dropped {
            kept.push(c);
        }
        i = i + 1;
        proof {
            assert(kept@ =~= all.subrange(0, i as int).filter(pred));
        }
    }
    proof {
        assert(all.subrange(0, all.len() as int) =~= all);
    }
    chars_to_string(&kept)
}

/// One search document: a unique name under its normalized id.
#[derive(Debug, Clone)]
pub struct UniqueListingDocument {
    pub id: String,
    pub name: String,
}

impl UniqueListingDocument {
    /// Builds the document for one name.
    pub fn new(name: &str) -> (d: Self)
        ensures
            d.id@ == spec_name_to_id(name@),
            d.name@ == name@,
    {
        UniqueListingDocument { id: name_to_id(name), name: name.to_owned() }
    }
}

/// The documents for a batch of listings, one per listing, in order.
pub fn listing_documents(listings: &Vec<Listing>) -> (docs: Vec<UniqueListingDocument>)
    ensures
        docs@.len() == listings@.len(),
        forall|i: int|
            0 <= i < docs@.len() ==> (#[trigger] docs@[i]).id@ == spec_name_to_id(
                listings@[i].name@,
            ) && docs@[i].name@ == listings@[i].name@,
{
    let mut docs: Vec<UniqueListingDocument> = Vec::new();
    let mut i: usize = 0;
    while i < listings.len()
        invariant
            i <= listings@.len(),
            docs@.len() == i,
            forall|j: int|
                0 <= j < i ==> (#[trigger] docs@[j]).id@ == spec_name_to_id(
                    listings@[j].name@,
                ) && docs@[j].name@ == listings@[j].name@,
        decreases listings@.len() - i,
    {
        let doc = UniqueListingDocument::new(listings[i].name.as_str());
        docs.push(doc);
        i = i + 1;
    }
    docs
}

} // verus!
