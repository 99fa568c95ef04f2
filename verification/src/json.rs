//! JSON deserialization of the fetched indexes. The JSON syntax itself is
//! handled by `serde_json` behind trusted wrappers whose results are named;
//! everything schema-shaped — which fields a record must carry — is decided
//! by verified code on plain key/value pairs.

use vstd::prelude::*;

verus! {

/// What parsing a JSON array of strings yields for a text: the strings in
/// order, or the parser's diagnostic. A function of the text alone.
pub uninterp spec fn json_string_list_of(text: Seq<char>) -> Result<Seq<Seq<char>>, Seq<char>>;

/// What parsing a JSON array of flat string-valued objects yields for a
/// text: each object as its key/value pairs (in key order, each key once),
/// or the parser's diagnostic. A function of the text alone.
pub uninterp spec fn json_records_of(text: Seq<char>) -> Result<
    Seq<Seq<(Seq<char>, Seq<char>)>>,
    Seq<char>,
>;

/// What parsing a single flat string-valued JSON object yields for a text:
/// its key/value pairs (in key order, each key once), or the parser's
/// diagnostic. A function of the text alone.
pub uninterp spec fn json_object_of(text: Seq<char>) -> Result<
    Seq<(Seq<char>, Seq<char>)>,
    Seq<char>,
>;

/// Relies on `serde_json::from_str::<Vec<String>>`: parses a JSON array of
/// strings; the result is a function of the input text alone.
#[verifier::external_body]
pub(crate) fn parse_string_list(text: &str) -> (r: Result<Vec<String>, String>)
    ensures
        (r matches Ok(v) ==> json_string_list_of(text@) == Ok::<Seq<Seq<char>>, Seq<char>>(
            v.deep_view(),
        )),
        (r matches Err(e) ==> json_string_list_of(text@) == Err::<Seq<Seq<char>>, Seq<char>>(e@)),
{
    match serde_json::from_str::<Vec<String>>(text) {
        Ok(v) => Ok(v),
        Err(e) => Err(e.to_string()),
    }
}

/// Relies on `serde_json::from_str::<Vec<BTreeMap<String, String>>>`: parses
/// a JSON array of objects whose values are strings; the result is a
/// function of the input text alone (a `BTreeMap` iterates in key order).
#[verifier::external_body]
pub(crate) fn parse_records(text: &str) -> (r: Result<Vec<Vec<(String, String)>>, String>)
    ensures
        (r matches Ok(v) ==> json_records_of(text@) == Ok::<
            Seq<Seq<(Seq<char>, Seq<char>)>>,
            Seq<char>,
        >(v.deep_view())),
        (r matches Err(e) ==> json_records_of(text@) == Err::<
            Seq<Seq<(Seq<char>, Seq<char>)>>,
            Seq<char>,
        >(e@)),
{
    match serde_json::from_str::<Vec<std::collections::BTreeMap<String, String>>>(text) {
        Ok(v) => Ok(v.into_iter().map(|m| m.into_iter().collect()).collect()),
        Err(e) => Err(e.to_string()),
    }
}

/// Relies on `serde_json::from_str::<BTreeMap<String, String>>`: parses one
/// JSON object whose values are strings; the result is a function of the
/// input text alone (a `BTreeMap` iterates in key order).
#[verifier::external_body]
pub(crate) fn parse_object(text: &str) -> (r: Result<Vec<(String, String)>, String>)
    ensures
        (r matches Ok(v) ==> json_object_of(text@) == Ok::<
            Seq<(Seq<char>, Seq<char>)>,
            Seq<char>,
        >(v.deep_view())),
        (r matches Err(e) ==> json_object_of(text@) == Err::<
            Seq<(Seq<char>, Seq<char>)>,
            Seq<char>,
        >(e@)),
{
    match serde_json::from_str::<std::collections::BTreeMap<String, String>>(text) {
        Ok(m) => Ok(m.into_iter().collect()),
        Err(e) => Err(e.to_string()),
    }
}

/// The value under the first occurrence of `key` in a record's key/value
/// pairs, if any.
pub open spec fn spec_field_of(record: Seq<(Seq<char>, Seq<char>)>, key: Seq<char>) -> Option<
    Seq<char>,
>
    decreases record.len(),
{
    if record.len() == 0 {
        None
    } else if record[0].0 == key {
        Some(record[0].1)
    } else {
        spec_field_of(record.drop_first(), key)
    }
}

/// Looks a field up in a record's key/value pairs.
pub fn field_of<'a>(record: &'a Vec<(String, String)>, key: &String) -> (r: Option<&'a String>)
    ensures
        (spec_field_of(record.deep_view(), key@) matches Some(v) ==> (r matches Some(s) && s@
            == v)),
        (spec_field_of(record.deep_view(), key@) is None ==> r is None),
{
    let ghost whole = record.deep_view();
    proof {
        assert(whole.skip(0) =~= whole);
    }
    let mut i: usize = 0;
    while i < record.len()
        invariant
            i <= record@.len(),
            whole == record.deep_view(),
            whole.len() == record@.len(),
            forall|j: int| 0 <= j < whole.len() ==> whole[j] == record@[j].deep_view(),
            spec_field_of(whole, key@) == spec_field_of(whole.skip(i as int), key@),
        decreases record@.len() - i,
    {
        if record[i].0 == *key {
            proof {
                assert(whole.skip(i as int)[0] == record@[i as int].deep_view());
                assert(spec_field_of(whole.skip(i as int), key@) == Some(
                    record@[i as int].1.deep_view(),
                ));
            }
            return Some(&record[i].1);
        }
        proof {
            assert(whole.skip(i as int).drop_first() =~= whole.skip(i as int + 1));
            assert(whole.skip(i as int)[0] == record@[i as int].deep_view());
        }
        i += 1;
    }
    proof {
        assert(whole.skip(i as int).len() == 0);
    }
    None
}

} // verus!
