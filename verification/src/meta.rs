//! The keys under which the descriptions of keywords, standard library
//! items and doc tags are localized.
use vstd::prelude::*;

verus! {

/// The key of the description of the keyword `key`: `keywords.<key>`.
pub fn meta_keyword_key(key: &str) -> (r: String)
    ensures
        r@ == "keywords."@ + key@,
{
    let mut s = String::from_str("keywords.");
    s.append(key);
    s
}

/// The key of the description of the standard library item `key`:
/// `builtin_std.<key>`.
pub fn meta_builtin_std_key(key: &str) -> (r: String)
    ensures
        r@ == "builtin_std."@ + key@,
{
    let mut s = String::from_str("builtin_std.");
    s.append(key);
    s
}

/// The key of the description of the doc tag `key`: `tags.<key>`.
pub fn meta_doc_tag_key(key: &str) -> (r: String)
    ensures
        r@ == "tags."@ + key@,
{
    let mut s = String::from_str("tags.");
    s.append(key);
    s
}

} // verus!
