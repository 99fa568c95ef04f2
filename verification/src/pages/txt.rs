//! The txt page: shows one of a fixed set of text files bundled with the
//! application, looked up by name; an unknown name is a missing resource.

use vstd::prelude::*;

use crate::json::field_of;
use crate::json::spec_field_of;

verus! {

/// Looks a name up in the bundled `(filename, text)` table: the text for a
/// bundled name, `None` (a missing resource) otherwise.
pub fn txt(texts: &Vec<(String, String)>, name: &String) -> (r: Option<String>)
    ensures
        (spec_field_of(texts.deep_view(), name@) matches Some(t) ==> (r matches Some(s) && s@
            == t)),
        spec_field_of(texts.deep_view(), name@) is None ==> r is None,
{
    match field_of(texts, name) {
        Some(text) => Some(text.clone()),
        None => None,
    }
}

} // verus!
