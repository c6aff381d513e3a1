//! JSON objects with text members, as `serde_json` holds them.
//!
//! Nothing in this module is proved: each contract records what the
//! `serde_json` crate does, and the rest of the library is verified against
//! these contracts.

use vstd::prelude::*;

verus! {

/// `serde_json::Map`, the object of a JSON document: carried through, and
/// read only by `json_members`.
#[verifier::external_type_specification]
#[verifier::external_body]
#[verifier::reject_recursive_types(K)]
#[verifier::reject_recursive_types(V)]
pub struct ExJsonMap<K, V>(serde_json::Map<K, V>);

/// `serde_json::Value`, any JSON value: named only as the member type of an
/// object.
#[verifier::external_type_specification]
#[verifier::external_body]
pub struct ExJsonValue(serde_json::Value);

/// The members of a JSON object by key: `Some` of the text where the member
/// is a JSON string, `None` where it is a value of another kind.
pub uninterp spec fn json_members(object: serde_json::Map<String, serde_json::Value>) -> Map<Seq<char>, Option<Seq<char>>>;

/// `serde_json::Map::with_capacity`: a new object without members. The
/// capacity is a hint for the allocation, and is ignored where the object is
/// kept as a B-tree.
#[verifier::external_body]
pub(crate) fn new_object(capacity: usize) -> (object: serde_json::Map<String, serde_json::Value>)
    ensures
        json_members(object) =~= Map::empty(),
{
    serde_json::Map::with_capacity(capacity)
}

/// `serde_json::Map::insert` with a string value: afterwards the object has
/// the member `key` with the text `value`, in place of any earlier member of
/// that key, and its other members are as before.
#[verifier::external_body]
pub(crate) fn insert_text(
    object: &mut serde_json::Map<String, serde_json::Value>,
    key: String,
    value: String,
)
    ensures
        json_members(*final(object)) == json_members(*old(object)).insert(key@, Some(value@)),
{
    object.insert(key, serde_json::Value::String(value));
}

} // verus!
