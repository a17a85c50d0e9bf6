//! Members of JSON objects.

use serde_json::Value;
use vstd::prelude::*;

verus! {

/// The text of a member of the JSON object that `text` holds: `None` if it holds
/// no object, or the object has no such member, or the member is no text; the
/// description of the fault if `text` is no JSON.
pub uninterp spec fn json_member(text: Seq<char>, member: Seq<char>) -> Result<
    Option<Seq<char>>,
    Seq<char>,
>;

/// `serde_json::from_str` into a `Value`, then `Value::get` and `Value::as_str`: a
/// function of the two texts. The error is handed on as its `Display` text.
#[verifier::external_body]
pub(crate) fn member_text(text: &str, member: &str) -> (r: Result<Option<String>, String>)
    ensures
        r is Ok == json_member(text@, member@) is Ok,
        r is Err ==> r->Err_0@ == json_member(text@, member@)->Err_0,
        r is Ok ==> r->Ok_0 is Some == json_member(text@, member@)->Ok_0 is Some,
        r is Ok ==> r->Ok_0 is Some ==> r->Ok_0->0@ == json_member(text@, member@)->Ok_0->0,
{
    let value = serde_json::from_str::<Value>(text).map_err(|error| error.to_string())?;
    Ok(value.get(member).and_then(|value| value.as_str()).map(|text| text.to_owned()))
}

} // verus!
