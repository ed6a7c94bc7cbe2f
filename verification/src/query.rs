//! The query parameters of the panel's address: where the contest data
//! comes from (`source`), the secret that unlocks the full run list
//! (`secret`) and the optional list of sites to show (`filter`).
use vstd::prelude::*;
use seed::browser::Url;
use seed::browser::UrlSearch;

verus! {

#[verifier::external_type_specification]
#[verifier::external_body]
pub struct ExUrl(seed::browser::Url);

#[verifier::external_type_specification]
#[verifier::external_body]
pub struct ExUrlSearch(seed::browser::UrlSearch);

/// The query parameters that an address carries: each key with the list
/// of values given for it, in the order they were given.
pub uninterp spec fn url_params(url: Url) -> Map<Seq<char>, Seq<Seq<char>>>;

/// The key/values pairs that a `UrlSearch` holds.
pub uninterp spec fn search_params(search: UrlSearch) -> Map<Seq<char>, Seq<Seq<char>>>;

/// Calls `seed::browser::Url::search`, which hands out the address's query
/// parameters; the contract claims that what it hands out holds exactly the
/// address's parameters.
#[verifier::external_body]
fn url_search(url: &Url) -> (search: &UrlSearch)
    ensures
        search_params(*search) == url_params(*url),
{
    url.search()
}

/// Calls `seed::browser::UrlSearch::get` and copies the values out; the
/// contract claims that a key has values exactly when the search holds it,
/// and that the values are the ones held, in their order.
#[verifier::external_body]
fn search_get(search: &UrlSearch, key: &str) -> (values: Option<Vec<String>>)
    ensures
        values is Some <==> search_params(*search).contains_key(key@),
        values matches Some(v) ==> v.deep_view() == search_params(*search)[key@],
{
    search.get(key).cloned()
}

/// The first value that the address gives for `key`, if any.
pub open spec fn first_value(url: Url, key: Seq<char>) -> Option<Seq<char>> {
    if url_params(url).contains_key(key) && url_params(url)[key].len() > 0 {
        Some(url_params(url)[key][0])
    } else {
        None
    }
}

/// The first value that the address gives for `key`; `None` where the key is
/// absent or has no value.
pub fn lookup_first(url: &Url, key: &str) -> (value: Option<String>)
    ensures
        value is Some <==> first_value(*url, key@) is Some,
        value matches Some(v) ==> Some(v@) == first_value(*url, key@),
{
    let search = url_search(url);
    match search_get(search, key) {
        Some(values) => {
            if values.len() > 0 {
                let first = values[0].clone();
                assert(values.deep_view()[0] == values@[0]@);
                Some(first)
            } else {
                assert(values.deep_view().len() == 0);
                None
            }
        },
        None => None,
    }
}

/// The first value that the address gives for a key that it is known to give
/// one for.
fn required_first(url: &Url, key: &str) -> (value: String)
    requires
        first_value(*url, key@) is Some,
    ensures
        Some(value@) == first_value(*url, key@),
{
    match lookup_first(url, key) {
        Some(v) => v,
        None => {
            assert(false);
            String::new()
        },
    }
}

/// The source of the contest data: the first value of the address's
/// `source` parameter, which must be there.
pub fn get_source(url: &Url) -> (source: String)
    requires
        first_value(*url, "source"@) is Some,
    ensures
        Some(source@) == first_value(*url, "source"@),
{
    required_first(url, "source")
}

/// The secret that unlocks the full run list: the first value of the
/// address's `secret` parameter, which must be there.
pub fn get_secret(url: &Url) -> (secret: String)
    requires
        first_value(*url, "secret"@) is Some,
    ensures
        Some(secret@) == first_value(*url, "secret"@),
{
    required_first(url, "secret")
}

/// All values of the address's `filter` parameter, if it has one.
pub fn get_url_filter(url: &Url) -> (filter: Option<Vec<String>>)
    ensures
        filter is Some <==> url_params(*url).contains_key("filter"@),
        filter matches Some(f) ==> f.deep_view() == url_params(*url)["filter"@],
{
    let search = url_search(url);
    search_get(search, "filter")
}

} // verus!
