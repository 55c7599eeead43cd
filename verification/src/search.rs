//! Hierarchical location resolution: choosing the entity type to search for,
//! rendering the search request body, and picking the parent identifier out
//! of the returned result list.

use vstd::prelude::*;
use vstd::string::*;
use crate::path::{spec_ancestor, spec_leaf};
use crate::text::{append_json_escaped, json_escaped, push_char};

verus! {

/// Character-wise string equality.
pub fn str_eq(a: &str, b: &str) -> (r: bool)
    ensures
        r == (a@ == b@),
{
    let la = a.unicode_len();
    let lb = b.unicode_len();
    if la != lb {
        return false;
    }
    let mut i: usize = 0;
    while i < la
        invariant
            i <= la,
            la == a@.len(),
            la == b@.len(),
            forall|j: int| 0 <= j < i ==> a@[j] == b@[j],
        decreases la - i,
    {
        if a.get_char(i) != b.get_char(i) {
            return false;
        }
        i = i + 1;
    }
    proof {
        assert(a@ =~= b@);
    }
    true
}

/// The entity type a record's parent is resolved against: a rack is placed
/// inside a location, every other asset is placed inside a rack.
pub open spec fn spec_target_entity_type(asset_type: Seq<char>) -> Seq<char> {
    if asset_type == "rack"@ {
        "Location"@
    } else {
        "Rack"@
    }
}

pub fn target_entity_type(asset_type: &str) -> (r: &'static str)
    ensures
        r@ == spec_target_entity_type(asset_type@),
{
    if str_eq(asset_type, "rack") {
        "Location"
    } else {
        "Rack"
    }
}

/// The JSON text of the search request that resolves a parent entity: a
/// mandatory filter on the entity type and on the tab-delimited ancestor
/// path (wildcard-suffixed), plus a relevance clause ranking the leaf
/// segment against the display name, weighted five-fold; only the top page
/// of ten results is requested.
pub open spec fn search_query_json(entity_type: Seq<char>, ancestor: Seq<char>, leaf: Seq<char>) -> Seq<
    char,
> {
    "{\"from\":\"0\",\"size\":\"10\",\"selectedFields\":[\"DisplayName\"],\"searchComplexDataFields\":[],\"query\":{\"bool\":{\"filter\":{\"bool\":{\"must\":[{\"match\":{\"assetType\":\""@
        + json_escaped(entity_type)
        + "\"}},{\"wildcard\":{\"tabDelimitedPath\":\""@
        + json_escaped(ancestor)
        + "*\"}}]}},\"should\":[{\"query_string\":{\"query\":\"\\\""@
        + json_escaped(leaf)
        + "\\\"\",\"fields\":[\"displayNameLowerCase^5\",\"*\"]}}],\"minimum_should_match\":\"1\"}}}"@
}

/// Renders the search request body for the given entity type and location
/// path pieces.
pub fn build_search_query(entity_type: &str, ancestor: &str, leaf: &str) -> (r: String)
    ensures
        r@ == search_query_json(entity_type@, ancestor@, leaf@),
{
    let mut out =
        String::from_str("{\"from\":\"0\",\"size\":\"10\",\"selectedFields\":[\"DisplayName\"],\"searchComplexDataFields\":[],\"query\":{\"bool\":{\"filter\":{\"bool\":{\"must\":[{\"match\":{\"assetType\":\"");
    append_json_escaped(&mut out, entity_type);
    out.append("\"}},{\"wildcard\":{\"tabDelimitedPath\":\"");
    append_json_escaped(&mut out, ancestor);
    out.append("*\"}}]}},\"should\":[{\"query_string\":{\"query\":\"\\\"");
    append_json_escaped(&mut out, leaf);
    out.append("\\\"\",\"fields\":[\"displayNameLowerCase^5\",\"*\"]}}],\"minimum_should_match\":\"1\"}}}");
    out
}

/// `s` with every double-quote character removed.
pub open spec fn strip_quotes(s: Seq<char>) -> Seq<char>
    decreases s.len(),
{
    if s.len() == 0 {
        Seq::empty()
    } else if s.last() == '"' {
        strip_quotes(s.drop_last())
    } else {
        strip_quotes(s.drop_last()).push(s.last())
    }
}

/// The resolved parent for a list of search results: the first (highest
/// ranked) result's identifier with any quote characters stripped, or the
/// empty identifier when there is no result at all.
pub open spec fn spec_resolved_parent(ids: Seq<Seq<char>>) -> Seq<char> {
    if ids.len() == 0 {
        Seq::empty()
    } else {
        strip_quotes(ids[0])
    }
}

/// Picks the parent identifier out of the search results.  An empty result
/// list yields the empty identifier and is not an error.
pub fn select_parent(ids: &Vec<String>) -> (r: String)
    ensures
        r@ == spec_resolved_parent(ids.deep_view()),
{
    if ids.len() == 0 {
        let r = String::new();
        proof {
            assert(ids.deep_view().len() == 0);
        }
        return r;
    }
    let first: &String = &ids[0];
    let s = first.as_str();
    let len = s.unicode_len();
    let mut out = String::new();
    let mut i: usize = 0;
    while i < len
        invariant
            i <= len,
            len == s@.len(),
            out@ == strip_quotes(s@.take(i as int)),
        decreases len - i,
    {
        let c = s.get_char(i);
        proof {
            assert(s@.take(i + 1).drop_last() =~= s@.take(i as int));
            assert(s@.take(i + 1).last() == s@[i as int]);
        }
        if c != '"' {
            push_char(&mut out, c);
        }
        i = i + 1;
    }
    proof {
        assert(s@.take(len as int) =~= s@);
        assert(s@ == ids.deep_view()[0]);
    }
    out
}

/// Resolution with no matching result yields the empty parent identifier,
/// never an error.
pub proof fn lemma_empty_results_empty_parent(ids: Seq<Seq<char>>)
    requires
        ids.len() == 0,
    ensures
        spec_resolved_parent(ids) == Seq::<char>::empty(),
{
}

/// The body of the search request a record's location path gives rise to.
pub open spec fn lookup_body_of(asset_type: Seq<char>, location: Seq<char>) -> Seq<char> {
    search_query_json(
        spec_target_entity_type(asset_type),
        spec_ancestor(location),
        spec_leaf(location),
    )
}

} // verus!
