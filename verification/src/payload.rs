//! The two messages this client writes itself: identify and heartbeat.
use crate::constants::OpCode;
use crate::constants::GATEWAY_VERSION;
use crate::constants::LARGE_THRESHOLD;
use crate::json::array_items;
use crate::json::array_new;
use crate::json::array_push_u64;
use crate::json::json_of;
use crate::json::object_build;
use crate::json::object_entries;
use crate::json::object_insert_array;
use crate::json::object_insert_bool;
use crate::json::object_insert_object;
use crate::json::object_insert_str;
use crate::json::object_insert_u64;
use crate::json::object_new;
use crate::json::Json;
use serde_json::builder::ObjectBuilder;
use serde_json::Value;
use vstd::prelude::*;

verus! {

/// What the client calls itself in the `$browser` property.
pub const BROWSER: &'static str = "Ergonomic and high-level Rust library";

/// What the client calls itself in the `$device` property.
pub const DEVICE: &'static str = "serenity";

/// Whether this build carries debug instrumentation. An instrumented build
/// asks the gateway for uncompressed traffic so that frames can be read as
/// they are; the choice is made when the crate is built, never at run time.
pub const DEBUG_INSTRUMENTED: bool = false;

/// The `properties` member of an identify message.
pub open spec fn properties_json(os: Seq<char>) -> Json {
    Json::Object(
        map![
            "$browser"@ => Json::String(BROWSER@),
            "$device"@ => Json::String(DEVICE@),
            "$os"@ => Json::String(os),
        ],
    )
}

/// The members of an identify message's `d` that do not depend on sharding.
pub open spec fn identify_base(token: Seq<char>, os: Seq<char>) -> Map<Seq<char>, Json> {
    map![
        "compression"@ => Json::Bool(!DEBUG_INSTRUMENTED),
        "large_threshold"@ => Json::U64(LARGE_THRESHOLD as u64),
        "properties"@ => properties_json(os),
        "token"@ => Json::String(token),
        "v"@ => Json::U64(GATEWAY_VERSION as u64),
    ]
}

/// The `d` member of an identify message: the base members, and `shard` as
/// the array `[index, count]` exactly when a shard is assigned.
pub open spec fn identify_data(token: Seq<char>, shard_info: Option<[u64; 2]>, os: Seq<char>)
    -> Map<Seq<char>, Json> {
    match shard_info {
        Some(shard) => identify_base(token, os).insert(
            "shard"@,
            Json::Array(seq![Json::U64(shard[0]), Json::U64(shard[1])]),
        ),
        None => identify_base(token, os),
    }
}

/// The identify message for `token`, sent from a machine running `os`.
pub open spec fn identify_json(token: Seq<char>, shard_info: Option<[u64; 2]>, os: Seq<char>)
    -> Json {
    Json::Object(
        map![
            "op"@ => Json::U64(OpCode::Identify.spec_num()),
            "d"@ => Json::Object(identify_data(token, shard_info, os)),
        ],
    )
}

/// The heartbeat message that acknowledges everything up to `last_sequence`.
pub open spec fn heartbeat_json(last_sequence: u64) -> Json {
    Json::Object(
        map![
            "d"@ => Json::U64(last_sequence),
            "op"@ => Json::U64(OpCode::Heartbeat.spec_num()),
        ],
    )
}

/// Adds the compression flag to the members of an identify message.
pub fn identify_compression(object: ObjectBuilder) -> (r: ObjectBuilder)
    ensures
        object_entries(r) == object_entries(object).insert(
            "compression"@,
            Json::Bool(!DEBUG_INSTRUMENTED),
        ),
{
    object_insert_bool(object, "compression", !DEBUG_INSTRUMENTED)
}

/// Builds the message that opens a session for `token`.
///
/// `shard_info` is `[index, count]` when the session serves one shard of
/// several. `os` names the operating system the client runs on. The token is
/// passed on as it is; whether it is valid is for the gateway to say.
pub fn identify(token: &str, shard_info: Option<[u64; 2]>, os: &str) -> (payload: Value)
    ensures
        json_of(payload) == identify_json(token@, shard_info, os@),
{
    let properties = object_new();
    let properties = object_insert_str(properties, "$browser", BROWSER);
    let properties = object_insert_str(properties, "$device", DEVICE);
    let properties = object_insert_str(properties, "$os", os);

    let data = identify_compression(object_new());
    let data = object_insert_u64(data, "large_threshold", LARGE_THRESHOLD as u64);
    let data = object_insert_object(data, "properties", properties);
    let data = object_insert_str(data, "token", token);
    let data = object_insert_u64(data, "v", GATEWAY_VERSION as u64);
    let data = match shard_info {
        Some(shard) => {
            let items = array_push_u64(array_push_u64(array_new(), shard[0]), shard[1]);
            assert(array_items(items) =~= seq![Json::U64(shard[0]), Json::U64(shard[1])]);
            object_insert_array(data, "shard", items)
        },
        None => data,
    };

    let message = object_insert_u64(object_new(), "op", OpCode::Identify.num());
    let message = object_insert_object(message, "d", data);
    object_build(message)
}

/// Builds the heartbeat message that carries `last_sequence`.
pub fn heartbeat(last_sequence: u64) -> (payload: Value)
    ensures
        json_of(payload) == heartbeat_json(last_sequence),
{
    let message = object_insert_u64(object_new(), "d", last_sequence);
    let message = object_insert_u64(message, "op", OpCode::Heartbeat.num());
    object_build(message)
}

/// An identify message shows its parts under their names: the operation
/// code and, within `d`, the token as it was given, the compression flag,
/// the threshold, the protocol version and the properties. `shard` is there
/// as `[index, count]` exactly when a shard was assigned.
pub proof fn lemma_identify_members(token: Seq<char>, shard_info: Option<[u64; 2]>, os: Seq<char>)
    ensures
        identify_json(token, shard_info, os).member("op"@) == Some(Json::U64(2)),
        identify_json(token, shard_info, os).member("d"@) == Some(
            Json::Object(identify_data(token, shard_info, os)),
        ),
        Json::Object(identify_data(token, shard_info, os)).member("token"@) == Some(
            Json::String(token),
        ),
        Json::Object(identify_data(token, shard_info, os)).member("compression"@) == Some(
            Json::Bool(!DEBUG_INSTRUMENTED),
        ),
        Json::Object(identify_data(token, shard_info, os)).member("large_threshold"@) == Some(
            Json::U64(LARGE_THRESHOLD as u64),
        ),
        Json::Object(identify_data(token, shard_info, os)).member("v"@) == Some(
            Json::U64(GATEWAY_VERSION as u64),
        ),
        Json::Object(identify_data(token, shard_info, os)).member("properties"@) == Some(
            properties_json(os),
        ),
        properties_json(os).member("$os"@) == Some(Json::String(os)),
        Json::Object(identify_data(token, shard_info, os)).member("shard"@) == match shard_info {
            Some(shard) => Some(Json::Array(seq![Json::U64(shard[0]), Json::U64(shard[1])])),
            None => None,
        },
{
    reveal_strlit("op");
    reveal_strlit("d");
    reveal_strlit("compression");
    reveal_strlit("large_threshold");
    reveal_strlit("properties");
    reveal_strlit("token");
    reveal_strlit("v");
    reveal_strlit("shard");
    reveal_strlit("$browser");
    reveal_strlit("$device");
    reveal_strlit("$os");
    // No two names within one object are equal: they differ in length, and
    // the two of five letters in their first.
    assert("op"@.len() == 2 && "d"@.len() == 1);
    assert("$os"@.len() == 3 && "$browser"@.len() == 8 && "$device"@.len() == 7);
    assert("v"@.len() == 1 && "properties"@.len() == 10);
    assert("large_threshold"@.len() == 15 && "compression"@.len() == 11);
    assert("token"@.len() == 5 && "token"@[0] == 't');
    assert("shard"@.len() == 5 && "shard"@[0] == 's');
}

/// A heartbeat message shows the sequence number under `d` and the
/// operation code under `op`.
pub proof fn lemma_heartbeat_members(last_sequence: u64)
    ensures
        heartbeat_json(last_sequence).member("d"@) == Some(Json::U64(last_sequence)),
        heartbeat_json(last_sequence).member("op"@) == Some(Json::U64(1)),
{
    reveal_strlit("op");
    reveal_strlit("d");
    assert("op"@.len() == 2 && "d"@.len() == 1);
}

} // verus!
