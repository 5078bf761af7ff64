//! JSON documents as mathematical values, and the JSON builder calls the
//! payload code is written against.
//!
//! Payloads are built with `serde_json`'s builders and handed out as
//! `serde_json::Value`. Verus cannot look inside such a value, so contracts
//! speak of its content through [`json_of`], which maps a value to a [`Json`]
//! term. The functions at the end of this module are the only places where
//! the builder API is called; their contracts are taken on trust from the
//! builder's source and everything else in the crate is proved from them.
use serde_json::builder::ArrayBuilder;
use serde_json::builder::ObjectBuilder;
use serde_json::Value;
use vstd::prelude::*;

verus! {

/// The content of a JSON document.
///
/// Numbers are kept apart by signedness, as the JSON library does. Floating
/// point numbers never occur in the payloads of this crate and have no
/// counterpart here.
pub enum Json {
    Null,
    Bool(bool),
    I64(i64),
    U64(u64),
    String(Seq<char>),
    Array(Seq<Json>),
    Object(Map<Seq<char>, Json>),
}

impl Json {
    /// The member stored under `key`, if this is an object that has one.
    pub open spec fn member(self, key: Seq<char>) -> Option<Json> {
        match self {
            Json::Object(entries) => if entries.dom().contains(key) {
                Some(entries[key])
            } else {
                None
            },
            _ => None,
        }
    }
}

#[verifier::external_type_specification]
#[verifier::external_body]
pub struct ExValue(Value);

#[verifier::external_type_specification]
#[verifier::external_body]
pub struct ExObjectBuilder(ObjectBuilder);

#[verifier::external_type_specification]
#[verifier::external_body]
pub struct ExArrayBuilder(ArrayBuilder);

/// The document a `serde_json::Value` holds.
pub uninterp spec fn json_of(value: Value) -> Json;

/// The members collected so far by an object builder.
pub uninterp spec fn object_entries(builder: ObjectBuilder) -> Map<Seq<char>, Json>;

/// The items collected so far by an array builder.
pub uninterp spec fn array_items(builder: ArrayBuilder) -> Seq<Json>;

/// `ObjectBuilder::new`: a builder that holds no member.
#[verifier::external_body]
pub(crate) fn object_new() -> (builder: ObjectBuilder)
    ensures
        object_entries(builder) == (Map::<Seq<char>, Json>::empty()),
{
    ObjectBuilder::new()
}

/// `ObjectBuilder::insert` with an unsigned integer: the member `key` is set
/// to the number `value`, replacing an earlier member of that name; all other
/// members stay.
#[verifier::external_body]
pub(crate) fn object_insert_u64(builder: ObjectBuilder, key: &str, value: u64) -> (r: ObjectBuilder)
    ensures
        object_entries(r) == object_entries(builder).insert(key@, Json::U64(value)),
{
    builder.insert(key, value)
}

/// `ObjectBuilder::insert` with a boolean: the member `key` is set to
/// `value`, replacing an earlier member of that name; all other members stay.
#[verifier::external_body]
pub(crate) fn object_insert_bool(builder: ObjectBuilder, key: &str, value: bool) -> (r:
    ObjectBuilder)
    ensures
        object_entries(r) == object_entries(builder).insert(key@, Json::Bool(value)),
{
    builder.insert(key, value)
}

/// `ObjectBuilder::insert` with a string slice: the member `key` is set to a
/// JSON string with the characters of `value`, replacing an earlier member of
/// that name; all other members stay.
#[verifier::external_body]
pub(crate) fn object_insert_str(builder: ObjectBuilder, key: &str, value: &str) -> (r:
    ObjectBuilder)
    ensures
        object_entries(r) == object_entries(builder).insert(key@, Json::String(value@)),
{
    builder.insert(key, value)
}

/// `ObjectBuilder::insert_object`: the member `key` is set to the object that
/// the closure's builder holds. The outside function hands the closure an
/// empty builder; the closure here answers with `members`, prepared by the
/// caller.
#[verifier::external_body]
pub(crate) fn object_insert_object(builder: ObjectBuilder, key: &str, members: ObjectBuilder) -> (r:
    ObjectBuilder)
    ensures
        object_entries(r) == object_entries(builder).insert(
            key@,
            Json::Object(object_entries(members)),
        ),
{
    builder.insert_object(key, move |_| members)
}

/// `ObjectBuilder::insert_array`: the member `key` is set to the array that
/// the closure's builder holds. The outside function hands the closure an
/// empty builder; the closure here answers with `items`, prepared by the
/// caller.
#[verifier::external_body]
pub(crate) fn object_insert_array(builder: ObjectBuilder, key: &str, items: ArrayBuilder) -> (r:
    ObjectBuilder)
    ensures
        object_entries(r) == object_entries(builder).insert(key@, Json::Array(array_items(items))),
{
    builder.insert_array(key, move |_| items)
}

/// `ObjectBuilder::build`: the JSON object made of the collected members.
#[verifier::external_body]
pub(crate) fn object_build(builder: ObjectBuilder) -> (value: Value)
    ensures
        json_of(value) == Json::Object(object_entries(builder)),
{
    builder.build()
}

/// `ArrayBuilder::new`: a builder that holds no item.
#[verifier::external_body]
pub(crate) fn array_new() -> (builder: ArrayBuilder)
    ensures
        array_items(builder) == Seq::<Json>::empty(),
{
    ArrayBuilder::new()
}

/// `ArrayBuilder::push` with an unsigned integer: the number `value` is
/// appended after the items collected so far.
#[verifier::external_body]
pub(crate) fn array_push_u64(builder: ArrayBuilder, value: u64) -> (r: ArrayBuilder)
    ensures
        array_items(r) == array_items(builder).push(Json::U64(value)),
{
    builder.push(value)
}

} // verus!
