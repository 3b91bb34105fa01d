//! Redirect query-string parsing: `key=value` pairs split on `&` and `=`,
//! with no percent-decoding beyond what the caller already performed. As in
//! the provider's redirects, a later occurrence of a key shadows an earlier
//! one, and a value runs from the first `=` to the next `=` or the end.

use vstd::prelude::*;
use vstd::string::{StrSliceExecFns, StringExecFns};

use crate::textscan::{find_char, find_char_str, lemma_find_char, split_on, split_str, str_eq,
    views_of};

verus! {

/// The view of an optional string.
pub open spec fn opt_view(o: Option<String>) -> Option<Seq<char>> {
    match o {
        Some(s) => Some(s@),
        None => None,
    }
}

/// One `key=value` parameter: the key runs to the first `=`; the value runs
/// from there to the next `=` or the end; a parameter without `=` has no
/// value.
pub open spec fn pair_of(p: Seq<char>) -> (Seq<char>, Option<Seq<char>>) {
    match find_char(p, '=') {
        None => (p, None),
        Some(i) => {
            let rest = p.skip(i + 1);
            match find_char(rest, '=') {
                None => (p.take(i), Some(rest)),
                Some(j) => (p.take(i), Some(rest.take(j))),
            }
        },
    }
}

/// All parameters of a query string, in order.
pub open spec fn query_pairs(q: Seq<char>) -> Seq<(Seq<char>, Option<Seq<char>>)> {
    split_on(q, '&').map_values(|p: Seq<char>| pair_of(p))
}

/// The view of a parsed parameter list.
pub open spec fn pairs_view(v: Seq<(String, Option<String>)>) -> Seq<
    (Seq<char>, Option<Seq<char>>),
> {
    v.map_values(|p: (String, Option<String>)| (p.0@, opt_view(p.1)))
}

/// Parse one `key=value` parameter.
fn parse_param(p: &str) -> (r: (String, Option<String>))
    ensures
        (r.0@, opt_view(r.1)) == pair_of(p@),
{
    proof {
        lemma_find_char(p@, '=');
    }
    match find_char_str(p, '=') {
        None => (String::from_str(p), None),
        Some(i) => {
            let n = p.unicode_len();
            let key = p.substring_char(0, i);
            let rest = p.substring_char(i + 1, n);
            proof {
                assert(key@ =~= p@.take(i as int));
                assert(rest@ =~= p@.skip(i as int + 1));
                lemma_find_char(rest@, '=');
            }
            match find_char_str(rest, '=') {
                None => (String::from_str(key), Some(String::from_str(rest))),
                Some(j) => {
                    let value = rest.substring_char(0, j);
                    proof {
                        assert(value@ =~= rest@.take(j as int));
                    }
                    (String::from_str(key), Some(String::from_str(value)))
                },
            }
        },
    }
}

/// Parse a whole query string into its parameters, in order.
pub fn parse_query(q: &str) -> (r: Vec<(String, Option<String>)>)
    ensures
        pairs_view(r@) == query_pairs(q@),
{
    let params = split_str(q, '&');
    let mut out: Vec<(String, Option<String>)> = Vec::new();
    let mut i: usize = 0;
    while i < params.len()
        invariant
            0 <= i <= params@.len(),
            views_of(params@) == split_on(q@, '&'),
            out@.len() == i,
            pairs_view(out@) == query_pairs(q@).take(i as int),
        decreases params@.len() - i,
    {
        let parsed = parse_param(params[i].as_str());
        out.push(parsed);
        proof {
            assert(pairs_view(out@) =~= query_pairs(q@).take(i as int + 1));
        }
        i = i + 1;
    }
    proof {
        assert(query_pairs(q@).take(query_pairs(q@).len() as int) =~= query_pairs(q@));
    }
    out
}

/// The value of the last parameter with the given key: `None` when the key
/// never occurs, `Some(v)` for the value of its last occurrence (which may
/// itself be absent). A later occurrence shadows an earlier one, as later
/// assignments overwrite earlier ones.
pub open spec fn last_value_for(
    pairs: Seq<(Seq<char>, Option<Seq<char>>)>,
    key: Seq<char>,
) -> Option<Option<Seq<char>>>
    decreases pairs.len(),
{
    if pairs.len() == 0 {
        None
    } else if pairs.last().0 == key {
        Some(pairs.last().1)
    } else {
        last_value_for(pairs.drop_last(), key)
    }
}

/// Executable form of [`last_value_for`].
pub fn lookup_last(pairs: &Vec<(String, Option<String>)>, key: &str) -> (r: Option<Option<String>>)
    ensures
        match r {
            None => last_value_for(pairs_view(pairs@), key@) is None,
            Some(v) => last_value_for(pairs_view(pairs@), key@) == Some(opt_view(v)),
        },
{
    proof {
        assert(pairs_view(pairs@).take(pairs@.len() as int) =~= pairs_view(pairs@));
    }
    let mut i: usize = pairs.len();
    while i > 0
        invariant
            0 <= i <= pairs@.len(),
            last_value_for(pairs_view(pairs@), key@) == last_value_for(
                pairs_view(pairs@).take(i as int),
                key@,
            ),
        decreases i,
    {
        i = i - 1;
        proof {
            assert(pairs_view(pairs@).take(i as int + 1).drop_last() =~= pairs_view(pairs@).take(
                i as int,
            ));
            assert(pairs_view(pairs@).take(i as int + 1).last() == pairs_view(pairs@)[i as int]);
        }
        if str_eq(pairs[i].0.as_str(), key) {
            let v = match &pairs[i].1 {
                Some(s) => Some(s.clone()),
                None => None,
            };
            return Some(v);
        }
    }
    proof {
        assert(pairs_view(pairs@).take(0).len() == 0);
    }
    None
}

/// Every `state` parameter present carries exactly the expected nonce. A
/// query without any `state` parameter passes; one with a missing or
/// different value does not.
pub open spec fn state_matches(
    pairs: Seq<(Seq<char>, Option<Seq<char>>)>,
    expected: Seq<char>,
) -> bool {
    forall|k: int|
        0 <= k < pairs.len() && (#[trigger] pairs[k]).0 == "state"@ ==> pairs[k].1 == Some(expected)
}

/// Executable form of [`state_matches`].
pub fn check_state(pairs: &Vec<(String, Option<String>)>, expected: &str) -> (r: bool)
    ensures
        r == state_matches(pairs_view(pairs@), expected@),
{
    let mut i: usize = 0;
    while i < pairs.len()
        invariant
            0 <= i <= pairs@.len(),
            forall|k: int|
                0 <= k < i && (#[trigger] pairs_view(pairs@)[k]).0 == "state"@ ==> pairs_view(
                    pairs@,
                )[k].1 == Some(expected@),
        decreases pairs@.len() - i,
    {
        if str_eq(pairs[i].0.as_str(), "state") {
            match &pairs[i].1 {
                Some(v) => {
                    if !str_eq(v.as_str(), expected) {
                        assert(pairs_view(pairs@)[i as int].1 != Some(expected@));
                        return false;
                    }
                },
                None => {
                    assert(pairs_view(pairs@)[i as int].1 is None);
                    return false;
                },
            }
        }
        i = i + 1;
    }
    true
}

} // verus!
