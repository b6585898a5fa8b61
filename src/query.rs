//! Query parameters: the decoded (name, value) pairs of a query string,
//! looked up by name with the last occurrence winning.
use vstd::prelude::*;
use crate::text::same_text;

verus! {

/// The decoded (name, value) pairs that `application/x-www-form-urlencoded`
/// parsing yields for a query string, in order.
pub uninterp spec fn form_pairs(query: Seq<char>) -> Seq<(Seq<char>, Seq<char>)>;

/// Relies on `url::form_urlencoded::parse` (with `into_owned`): it yields the
/// percent-decoded (name, value) pairs of the query, in order, and none for
/// an empty query.
#[verifier::external_body]
fn parse_form_pairs(query: &str) -> (r: Vec<(String, String)>)
    ensures
        r.deep_view() == form_pairs(query@),
        query@.len() == 0 ==> r@.len() == 0,
{
    url::form_urlencoded::parse(query.as_bytes()).into_owned().collect()
}

/// The value of the last pair named `key`, if any.
pub open spec fn last_value(pairs: Seq<(Seq<char>, Seq<char>)>, key: Seq<char>) -> Option<
    Seq<char>,
>
    decreases pairs.len(),
{
    if pairs.len() == 0 {
        None
    } else if pairs.last().0 == key {
        Some(pairs.last().1)
    } else {
        last_value(pairs.drop_last(), key)
    }
}

/// The parameters of a query string, as decoded pairs in their order.
pub fn parse_query_params(query: &str) -> (r: Vec<(String, String)>)
    ensures
        r.deep_view() == form_pairs(query@),
{
    parse_form_pairs(query)
}

/// The value of parameter `key`: that of its last occurrence, if any.
pub fn param_value(pairs: &Vec<(String, String)>, key: &str) -> (r: Option<String>)
    ensures
        r.deep_view() == last_value(pairs.deep_view(), key@),
{
    let mut i: usize = pairs.len();
    assert(pairs.deep_view().subrange(0, i as int) =~= pairs.deep_view());
    while i > 0
        invariant
            i <= pairs.len(),
            last_value(pairs.deep_view(), key@) == last_value(
                pairs.deep_view().subrange(0, i as int),
                key@,
            ),
        decreases i,
    {
        let ghost prefix = pairs.deep_view().subrange(0, i as int);
        assert(prefix.drop_last() =~= pairs.deep_view().subrange(0, i - 1));
        if same_text(pairs[i - 1].0.as_str(), key) {
            return Some(pairs[i - 1].1.clone());
        }
        i = i - 1;
    }
    None
}

} // verus!
