//! JSON texts that the fakers write and compare.

use vstd::prelude::*;

verus! {

/// The compact JSON text of an object with the given fields, each a name
/// and a string value.
pub uninterp spec fn object_text(fields: Seq<(Seq<char>, Seq<char>)>) -> Seq<char>;

/// Whether two texts are the same JSON document; nothing where one of them
/// is not JSON at all.
pub uninterp spec fn same_document(left: Seq<char>, right: Seq<char>) -> Option<bool>;

/// `serde_json::Map::insert` for each field in order, then the `Display` of
/// the `Value::Object`: trusted to depend on the fields alone.
#[verifier::external_body]
pub(crate) fn write_object(fields: &Vec<(String, String)>) -> (text: String)
    ensures
        text@ == object_text(fields.deep_view()),
{
    let mut object = serde_json::Map::new();
    for (name, value) in fields.iter() {
        object.insert(name.clone(), serde_json::Value::String(value.clone()));
    }
    serde_json::Value::Object(object).to_string()
}

/// `serde_json::from_str` on both texts and `==` on the two `Value`s: trusted
/// to depend on the two texts alone.
#[verifier::external_body]
pub(crate) fn compare_documents(left: &str, right: &str) -> (same: Option<bool>)
    ensures
        same == same_document(left@, right@),
{
    let left = serde_json::from_str::<serde_json::Value>(left).ok()?;
    let right = serde_json::from_str::<serde_json::Value>(right).ok()?;
    Some(left == right)
}

} // verus!
