//! Query-string sanitization for the document-store filters.
use vstd::prelude::*;

verus! {

use crate::text::{chars_to_string, is_alnum, is_alphanumeric_char, str_to_chars};

/// A character the sanitizer drops: anything but an alphanumeric character
/// or one of the few punctuation marks a name or filter may carry.
pub open spec fn spec_should_replace(c: char) -> bool {
    !(is_alnum(c) || c == '+' || c == '-' || c == '%' || c == '\'' || c == ' ' || c == ',' || c
        == '.')
}

/// A sanitized string: the characters that survive, in order.
pub open spec fn spec_sanitize(s: Seq<char>) -> Seq<char> {
    s.filter(|c: char| !spec_should_replace(c))
}

/// Whether the sanitizer drops this character.
pub fn should_replace_mongo_char(c: char) -> (r: bool)
    ensures
        r == spec_should_replace(c),
{
    if is_alphanumeric_char(c) || c == '+' || c == '-' || c == '%' || c == '\'' || c == ' ' || c
        == ',' || c == '.' {
        return false;
    }
    true
}

/// Drops every character of the string that the document store's filter
/// syntax could misread.
pub fn sanitize_mongo_string(s: String) -> (r: String)
    ensures
        r@ == spec_sanitize(s@),
{
    let chars = str_to_chars(s.as_str());
    let ghost all = chars@;
    let ghost pred = |c: char| !spec_should_replace(c);
    let mut kept: Vec<char> = Vec::new();
    let mut i: usize = 0;
    proof {
        reveal(Seq::filter);
        assert(all.subrange(0, 0) =~= Seq::<char>::empty());
    }
    while i < chars.len()
        invariant
            i <= all.len(),
            all == chars@,
            pred == (|c: char| !spec_should_replace(c)),
            kept@ == all.subrange(0, i as int).filter(pred),
        decreases all.len() - i,
    {
        let c = chars[i];
        proof {
            reveal(Seq::filter);
            let pre = all.subrange(0, i as int);
            let post = all.subrange(0, i as int + 1);
            assert(post.drop_last() =~= pre);
            assert(post.last() == all[i as int]);
        }
        if !should_replace_mongo_char(c) {
            kept.push(c);
        }
        i = i + 1;
        proof {
            assert(kept@ =~= all.subrange(0, i as int).filter(pred));
        }
    }
    proof {
        assert(all.subrange(0, all.len() as int) =~= all);
    }
    chars_to_string(&kept)
}

} // verus!
