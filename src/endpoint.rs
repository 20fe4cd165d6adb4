use vstd::prelude::*;

use crate::text::{chars_of, contains_chars, is_substring, join};

verus! {

/// The market-data endpoint: the public one, or the paid one when an API
/// key is set.
pub fn base_url(api_key: &str) -> (r: &'static str)
    ensures
        api_key@.len() == 0 ==> r@ == "https://api.coingecko.com/api/v3"@,
        api_key@.len() > 0 ==> r@ == "https://pro-api.coingecko.com/api/v3"@,
{
    if api_key.is_empty() {
        "https://api.coingecko.com/api/v3"
    } else {
        "https://pro-api.coingecko.com/api/v3"
    }
}

/// A request URL with the API key appended as a query parameter, when a
/// key is set.
pub fn apply_key(url: &str, api_key: &str) -> (r: String)
    ensures
        api_key@.len() == 0 ==> r@ == url@,
        api_key@.len() > 0 ==> r@ == url@ + (if is_substring(seq!['?'], url@) {
            "&"@
        } else {
            "?"@
        }) + "x_cg_pro_api_key="@ + api_key@,
{
    if api_key.is_empty() {
        return String::from_str(url);
    }
    let cs = chars_of(url);
    let q = vec!['?'];
    assert(q@ =~= seq!['?']);
    let sep = if contains_chars(&cs, &q) {
        "&"
    } else {
        "?"
    };
    let a = join(url, sep);
    let b = join(a.as_str(), "x_cg_pro_api_key=");
    join(b.as_str(), api_key)
}

} // verus!
