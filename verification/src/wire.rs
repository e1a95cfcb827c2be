//! Building blocks of the wire shapes: how strings, booleans and byte
//! sequences are read out of, and written into, JSON objects.

use vstd::prelude::*;
use vstd::string::*;
use crate::json::{
    array_value, as_array, as_bool, as_object, as_text, as_unsigned, empty_object, error_text,
    error_message, json_view, json_views, member, members, object_value, object_view, set_member,
    text_value, unsigned_value, Json, JsonObject,
};
use crate::params::{lemma_pairs_map, pairs_map, Params};
use crate::time::{Timestamp, NANOS_PER_SEC};

verus! {

/// The string held by the member `name`, where there is such a member and
/// it is a string.
pub open spec fn text_member(object: JsonObject, name: Seq<char>) -> Option<Seq<char>> {
    if object.members.contains_key(name) {
        match object.members[name] {
            Json::Text(text) => Some(text),
            _ => None,
        }
    } else {
        None
    }
}

/// The truth value held by the member `name`, where there is such a member
/// and it is `true` or `false`.
pub open spec fn bool_member(object: JsonObject, name: Seq<char>) -> Option<bool> {
    if object.members.contains_key(name) {
        match object.members[name] {
            Json::Bool(b) => Some(b),
            _ => None,
        }
    } else {
        None
    }
}

/// The byte that a value stands for: an unsigned integer of at most 255.
pub open spec fn byte_of_json(value: Json) -> Option<u8> {
    match value {
        Json::Unsigned(n) => if n <= u8::MAX {
            Some(n as u8)
        } else {
            None
        },
        _ => None,
    }
}

/// The bytes that a value stands for: an array whose elements all are bytes.
pub open spec fn bytes_of_json(value: Json) -> Option<Seq<u8>> {
    match value {
        Json::Array(items) => if forall|i: int|
            0 <= i < items.len() ==> (#[trigger] byte_of_json(items[i])) is Some {
            Some(Seq::new(items.len(), |i: int| byte_of_json(items[i]).unwrap()))
        } else {
            None
        },
        _ => None,
    }
}

/// The bytes held by the member `name`.
pub open spec fn bytes_member(object: JsonObject, name: Seq<char>) -> Option<Seq<u8>> {
    if object.members.contains_key(name) {
        bytes_of_json(object.members[name])
    } else {
        None
    }
}

/// The array of numbers that stands for a byte sequence.
pub open spec fn bytes_json(data: Seq<u8>) -> Json {
    Json::Array(Seq::new(data.len(), |i: int| Json::Unsigned(data[i] as u64)))
}

/// A byte sequence is read back from the array that stands for it.
pub proof fn lemma_bytes_round_trip(data: Seq<u8>)
    ensures
        bytes_of_json(bytes_json(data)) == Some(data),
{
    let items = Seq::new(data.len(), |i: int| Json::Unsigned(data[i] as u64));
    assert forall|i: int| 0 <= i < items.len() implies (#[trigger] byte_of_json(items[i])) is Some by {
        assert(items[i] == Json::Unsigned(data[i] as u64));
    }
    assert(Seq::new(items.len(), |i: int| byte_of_json(items[i]).unwrap()) =~= data);
}

/// Reads the string member `name` of an object.
pub fn read_text(object: &serde_json::Map<String, serde_json::Value>, name: &str) -> (r: Option<String>)
    ensures
        match r {
            Some(text) => text_member(object_view(*object), name@) == Some(text@),
            None => text_member(object_view(*object), name@) is None,
        },
{
    match member(object, name) {
        Some(value) => match as_text(value) {
            Some(text) => Some(String::from_str(text)),
            None => None,
        },
        None => None,
    }
}

/// Reads the boolean member `name` of an object.
pub fn read_bool(object: &serde_json::Map<String, serde_json::Value>, name: &str) -> (r: Option<bool>)
    ensures
        r == bool_member(object_view(*object), name@),
{
    match member(object, name) {
        Some(value) => as_bool(value),
        None => None,
    }
}

/// Reads a byte sequence out of an array of numbers.
pub fn read_bytes(value: &serde_json::Value) -> (r: Option<Vec<u8>>)
    ensures
        match r {
            Some(data) => bytes_of_json(json_view(*value)) == Some(data@),
            None => bytes_of_json(json_view(*value)) is None,
        },
{
    match as_array(value) {
        Some(items) => {
            let ghost models = json_views(items@);
            let mut data: Vec<u8> = Vec::new();
            let mut i: usize = 0;
            while i < items.len()
                invariant
                    i <= items@.len(),
                    models == json_views(items@),
                    json_view(*value) == Json::Array(models),
                    data@.len() == i,
                    forall|j: int|
                        0 <= j < i ==> byte_of_json(#[trigger] models[j]) == Some(data@[j]),
                decreases items@.len() - i,
            {
                match as_unsigned(&items[i]) {
                    Some(n) => {
                        if n > 255 {
                            assert(byte_of_json(models[i as int]) is None);
                            return None;
                        }
                        data.push(n as u8);
                    },
                    None => {
                        assert(byte_of_json(models[i as int]) is None);
                        return None;
                    },
                }
                i = i + 1;
            }
            assert(bytes_of_json(json_view(*value)).unwrap() =~= data@);
            Some(data)
        },
        None => None,
    }
}

/// Reads the byte-sequence member `name` of an object.
pub fn read_bytes_member(object: &serde_json::Map<String, serde_json::Value>, name: &str) -> (r: Option<Vec<u8>>)
    ensures
        match r {
            Some(data) => bytes_member(object_view(*object), name@) == Some(data@),
            None => bytes_member(object_view(*object), name@) is None,
        },
{
    match member(object, name) {
        Some(value) => read_bytes(value),
        None => None,
    }
}

/// Writes a byte sequence as an array of numbers.
pub fn bytes_value(data: &Vec<u8>) -> (r: serde_json::Value)
    ensures
        json_view(r) == bytes_json(data@),
{
    let mut items: Vec<serde_json::Value> = Vec::new();
    let mut i: usize = 0;
    while i < data.len()
        invariant
            i <= data@.len(),
            items@.len() == i,
            forall|j: int| 0 <= j < i ==> json_view(#[trigger] items@[j]) == Json::Unsigned(data@[j] as u64),
        decreases data@.len() - i,
    {
        items.push(unsigned_value(data[i] as u64));
        i = i + 1;
    }
    assert(json_views(items@) =~= Seq::new(data@.len(), |i: int| Json::Unsigned(data@[i] as u64)));
    array_value(items)
}

/// A copy of a string as a JSON string.
pub fn text_copy(text: &String) -> (r: serde_json::Value)
    ensures
        json_view(r) == Json::Text(text@),
{
    text_value(text.clone())
}

/// The object that stands for a list of bindings: one string member per
/// binding, each set in its turn.
pub open spec fn params_object(pairs: Seq<(Seq<char>, Seq<char>)>) -> JsonObject
    decreases pairs.len(),
{
    if pairs.len() == 0 {
        JsonObject::empty()
    } else {
        params_object(pairs.drop_last()).with(pairs.last().0, Json::Text(pairs.last().1))
    }
}

/// The value that stands for a list of bindings.
pub open spec fn params_json(pairs: Seq<(Seq<char>, Seq<char>)>) -> Json {
    Json::Object(params_object(pairs))
}

/// The string that a value is, or the empty string.
pub open spec fn text_of_json(value: Json) -> Seq<char> {
    match value {
        Json::Text(text) => text,
        _ => Seq::empty(),
    }
}

/// The bindings that a value stands for: an object whose members all are
/// strings, in the object's order.
pub open spec fn params_of_json(value: Json) -> Option<Seq<(Seq<char>, Seq<char>)>> {
    match value {
        Json::Object(object) => if forall|i: int|
            0 <= i < object.names.len() ==> (#[trigger] object.members[object.names[i]]) is Text {
            Some(
                Seq::new(
                    object.names.len(),
                    |i: int| (object.names[i], text_of_json(object.members[object.names[i]])),
                ),
            )
        } else {
            None
        },
        _ => None,
    }
}

/// No name occurs twice among the bindings.
pub open spec fn distinct_names(pairs: Seq<(Seq<char>, Seq<char>)>) -> bool {
    forall|i: int, j: int| 0 <= i < j < pairs.len() ==> pairs[i].0 != pairs[j].0
}

/// The object that stands for a list of bindings holds the names that the
/// list binds, each once, with the value that the list binds it to; and
/// where the list binds no name twice, it holds them in the list's order.
pub proof fn lemma_params_object(pairs: Seq<(Seq<char>, Seq<char>)>)
    ensures
        forall|name: Seq<char>| #[trigger]
            params_object(pairs).members.contains_key(name) <==> pairs_map(pairs).contains_key(
                name,
            ),
        forall|name: Seq<char>| #[trigger]
            pairs_map(pairs).contains_key(name) ==> params_object(pairs).members[name]
                == Json::Text(pairs_map(pairs)[name]),
        forall|i: int|
            0 <= i < params_object(pairs).names.len() ==> params_object(
                pairs,
            ).members.contains_key(#[trigger] params_object(pairs).names[i]),
        forall|name: Seq<char>| #[trigger]
            params_object(pairs).members.contains_key(name) ==> exists|i: int|
                0 <= i < params_object(pairs).names.len() && #[trigger] params_object(
                    pairs,
                ).names[i] == name,
        forall|i: int, j: int|
            0 <= i < j < params_object(pairs).names.len() ==> params_object(pairs).names[i]
                != params_object(pairs).names[j],
        distinct_names(pairs) ==> params_object(pairs).names.len() == pairs.len() && forall|
            i: int,
        |
            0 <= i < pairs.len() ==> #[trigger] params_object(pairs).names[i] == pairs[i].0,
    decreases pairs.len(),
{
    if pairs.len() > 0 {
        let front = pairs.drop_last();
        let last = pairs.last();
        lemma_params_object(front);
        lemma_pairs_map(front);
        let before = params_object(front);
        let now = params_object(pairs);
        assert(now == before.with(last.0, Json::Text(last.1)));
        assert forall|name: Seq<char>| #[trigger] now.members.contains_key(name) implies exists|
            i: int,
        | 0 <= i < now.names.len() && #[trigger] now.names[i] == name by {
            if before.members.contains_key(name) {
                let i = choose|i: int| 0 <= i < before.names.len() && #[trigger] before.names[i]
                    == name;
                assert(now.names[i] == name);
            } else {
                assert(name == last.0);
                assert(now.names[now.names.len() - 1] == name);
            }
        }
        if distinct_names(pairs) {
            assert(distinct_names(front)) by {
                assert forall|i: int, j: int| 0 <= i < j < front.len() implies front[i].0
                    != front[j].0 by {
                    assert(front[i] == pairs[i] && front[j] == pairs[j]);
                }
            }
            assert(!pairs_map(front).contains_key(last.0)) by {
                if pairs_map(front).contains_key(last.0) {
                    let i = choose|i: int| 0 <= i < front.len() && #[trigger] front[i].0 == last.0;
                    assert(front[i] == pairs[i]);
                    assert(pairs[i].0 != pairs[pairs.len() - 1].0);
                }
            }
            assert forall|i: int| 0 <= i < pairs.len() implies #[trigger] now.names[i]
                == pairs[i].0 by {
                if i < front.len() {
                    assert(front[i] == pairs[i]);
                    assert(before.names[i] == front[i].0);
                }
            }
        }
    }
}

/// Bindings are read back from the object that stands for them: as the same
/// map from names to values, and where no name is bound twice, as the same
/// list.
pub proof fn lemma_params_round_trip(pairs: Seq<(Seq<char>, Seq<char>)>)
    ensures
        params_of_json(params_json(pairs)) matches Some(back) && pairs_map(back) == pairs_map(
            pairs,
        ) && (distinct_names(pairs) ==> back == pairs),
{
    lemma_params_object(pairs);
    lemma_pairs_map(pairs);
    let object = params_object(pairs);
    assert forall|i: int| 0 <= i < object.names.len() implies (#[trigger] object.members[object.names[i]]) is Text by {
        assert(object.members.contains_key(object.names[i]));
        assert(pairs_map(pairs).contains_key(object.names[i]));
    }
    let back = params_of_json(params_json(pairs)).unwrap();
    assert(back.len() == object.names.len());
    assert forall|i: int| 0 <= i < back.len() implies #[trigger] back[i] == (
        object.names[i],
        pairs_map(pairs)[object.names[i]],
    ) by {
        assert(object.members.contains_key(object.names[i]));
        assert(pairs_map(pairs).contains_key(object.names[i]));
    }
    lemma_pairs_map(back);
    assert forall|i: int, j: int| 0 <= i < j < back.len() implies back[i].0 != back[j].0 by {
        assert(back[i].0 == object.names[i] && back[j].0 == object.names[j]);
    }
    assert forall|name: Seq<char>| #[trigger] pairs_map(back).contains_key(name) implies pairs_map(
        pairs,
    ).contains_key(name) && pairs_map(back)[name] == pairs_map(pairs)[name] by {
        let i = choose|i: int| 0 <= i < back.len() && #[trigger] back[i].0 == name;
        assert(object.members.contains_key(object.names[i]));
        assert(pairs_map(back)[back[i].0] == back[i].1);
    }
    assert forall|name: Seq<char>| #[trigger] pairs_map(pairs).contains_key(name) implies pairs_map(
        back,
    ).contains_key(name) by {
        assert(object.members.contains_key(name));
        let i = choose|i: int| 0 <= i < object.names.len() && #[trigger] object.names[i] == name;
        assert(back[i].0 == name);
    }
    assert(pairs_map(back) =~= pairs_map(pairs));
    if distinct_names(pairs) {
        assert forall|i: int| 0 <= i < pairs.len() implies back[i] == pairs[i] by {
            assert(object.names[i] == pairs[i].0);
            assert(pairs_map(pairs)[pairs[i].0] == pairs[i].1);
        }
        assert(back =~= pairs);
    }
}

/// Writes parameters as an object of strings.
pub fn params_value(params: &Params) -> (r: serde_json::Value)
    ensures
        json_view(r) == params_json(params.pairs()),
{
    let mut object = empty_object();
    let n = params.count();
    let mut i: usize = 0;
    assert(params.pairs().take(0) =~= Seq::empty());
    while i < n
        invariant
            i <= n,
            n == params.pairs().len(),
            object_view(object) == params_object(params.pairs().take(i as int)),
        decreases n - i,
    {
        let (name, value) = params.entry(i);
        let ghost before = params.pairs().take(i as int);
        let ghost after = params.pairs().take(i + 1);
        set_member(&mut object, name.clone(), text_copy(value));
        proof {
            assert(after.drop_last() =~= before);
            assert(after.last() == params.pairs()[i as int]);
        }
        i = i + 1;
    }
    assert(params.pairs().take(n as int) =~= params.pairs());
    object_value(object)
}

/// Reads parameters out of an object of strings.
pub fn read_params(value: &serde_json::Value) -> (r: Option<Params>)
    ensures
        match r {
            Some(params) => params_of_json(json_view(*value)) == Some(params.pairs()),
            None => params_of_json(json_view(*value)) is None,
        },
{
    let object = match as_object(value) {
        Some(object) => object,
        None => return None,
    };
    let ghost model = object_view(*object);
    let entries = members(object);
    let mut params = Params::new();
    let mut i: usize = 0;
    while i < entries.len()
        invariant
            i <= entries@.len(),
            model == object_view(*object),
            json_view(*value) == Json::Object(model),
            entries@.len() == model.names.len(),
            params.pairs().len() == i,
            forall|j: int|
                0 <= j < entries@.len() ==> (#[trigger] entries@[j]).0@ == model.names[j]
                    && model.members[entries@[j].0@] == json_view(*entries@[j].1),
            forall|j: int|
                0 <= j < i ==> (#[trigger] model.members[model.names[j]]) is Text
                    && params.pairs()[j] == (
                    model.names[j],
                    text_of_json(model.members[model.names[j]]),
                ),
        decreases entries@.len() - i,
    {
        let (name, member_value) = entries[i];
        assert(entries@[i as int].0@ == model.names[i as int]);
        match as_text(member_value) {
            Some(text) => {
                let ghost before = params.pairs();
                params.insert(name.clone(), String::from_str(text));
                assert forall|j: int| 0 <= j < i + 1 implies (#[trigger] model.members[model.names[j]]) is Text
                    && params.pairs()[j] == (
                    model.names[j],
                    text_of_json(model.members[model.names[j]]),
                ) by {
                    if j < i {
                        assert(params.pairs()[j] == before[j]);
                    }
                }
            },
            None => {
                assert(!(model.members[model.names[i as int]] is Text));
                return None;
            },
        }
        i = i + 1;
    }
    assert(params.pairs() =~= params_of_json(json_view(*value)).unwrap());
    Some(params)
}

/// The name under which an instant's whole seconds stand.
pub open spec fn secs_name() -> Seq<char> {
    "secs_since_epoch"@
}

/// The name under which an instant's fraction of a second stands.
pub open spec fn nanos_name() -> Seq<char> {
    "nanos_since_epoch"@
}

/// The object that stands for an instant at or after the epoch: the whole
/// seconds and the nanoseconds since the epoch. An instant before the epoch
/// has none.
pub open spec fn timestamp_json(timestamp: Timestamp) -> Option<Json> {
    match timestamp {
        Timestamp::SinceEpoch { secs, nanos } => Some(
            Json::Object(
                JsonObject::empty().with(secs_name(), Json::Unsigned(secs)).with(
                    nanos_name(),
                    Json::Unsigned(nanos as u64),
                ),
            ),
        ),
        Timestamp::BeforeEpoch => None,
    }
}

/// The instant that two numbers stand for: the whole seconds, which fit 64
/// bits, and the nanoseconds, which fit 32 bits. Whole seconds among the
/// nanoseconds are carried over, and the sum has to fit 64 bits.
pub open spec fn instant_of_parts(secs: Json, nanos: Json) -> Option<Timestamp> {
    match (secs, nanos) {
        (Json::Unsigned(secs), Json::Unsigned(nanos)) => if nanos <= u32::MAX && secs + nanos / (
        NANOS_PER_SEC as u64) <= u64::MAX {
            Some(
                Timestamp::SinceEpoch {
                    secs: (secs + nanos / (NANOS_PER_SEC as u64)) as u64,
                    nanos: (nanos % (NANOS_PER_SEC as u64)) as u32,
                },
            )
        } else {
            None
        },
        _ => None,
    }
}

/// The instant that a value stands for: an object of exactly the two
/// members, or an array of exactly the two numbers, seconds first.
pub open spec fn timestamp_of_json(value: Json) -> Option<Timestamp> {
    match value {
        Json::Object(object) => if object.members.contains_key(secs_name())
            && object.members.contains_key(nanos_name()) && (forall|name: Seq<char>| #[trigger]
            object.members.contains_key(name) ==> name == secs_name() || name == nanos_name()) {
            instant_of_parts(object.members[secs_name()], object.members[nanos_name()])
        } else {
            None
        },
        Json::Array(items) => if items.len() == 2 {
            instant_of_parts(items[0], items[1])
        } else {
            None
        },
        _ => None,
    }
}

/// Reads the instant that two numbers stand for.
fn read_parts(secs: &serde_json::Value, nanos: &serde_json::Value) -> (r: Option<Timestamp>)
    ensures
        r == instant_of_parts(json_view(*secs), json_view(*nanos)),
{
    let secs = match as_unsigned(secs) {
        Some(secs) => secs,
        None => return None,
    };
    let nanos = match as_unsigned(nanos) {
        Some(nanos) => nanos,
        None => return None,
    };
    if nanos > u32::MAX as u64 {
        return None;
    }
    let carry = nanos / (NANOS_PER_SEC as u64);
    if secs > u64::MAX - carry {
        return None;
    }
    Some(Timestamp::SinceEpoch { secs: secs + carry, nanos: (nanos % (NANOS_PER_SEC as u64)) as u32 })
}

/// Reads an instant out of a JSON value.
pub fn read_timestamp(value: &serde_json::Value) -> (r: Option<Timestamp>)
    ensures
        r == timestamp_of_json(json_view(*value)),
{
    match as_object(value) {
        Some(object) => {
            let secs = match member(object, "secs_since_epoch") {
                Some(secs) => secs,
                None => return None,
            };
            let nanos = match member(object, "nanos_since_epoch") {
                Some(nanos) => nanos,
                None => return None,
            };
            let entries = members(object);
            proof {
                reveal_strlit("secs_since_epoch");
                reveal_strlit("nanos_since_epoch");
                assert(secs_name().len() == 16 && nanos_name().len() == 17);
                let fields = object_view(*object).members;
                let a = choose|a: int|
                    0 <= a < entries@.len() && (#[trigger] entries@[a]).0@ == secs_name();
                let b = choose|b: int|
                    0 <= b < entries@.len() && (#[trigger] entries@[b]).0@ == nanos_name();
                assert(a != b);
                if entries@.len() == 2 {
                    assert forall|name: Seq<char>| #[trigger] fields.contains_key(name) implies name
                        == secs_name() || name == nanos_name() by {
                        let c = choose|c: int|
                            0 <= c < entries@.len() && (#[trigger] entries@[c]).0@ == name;
                        assert(c == a || c == b);
                    }
                } else {
                    assert(entries@.len() > 2);
                    let c = if a != 0 && b != 0 {
                        0
                    } else if a != 1 && b != 1 {
                        1
                    } else {
                        2int
                    };
                    assert(c != a && c != b);
                    assert(fields.contains_key(entries@[c].0@));
                    assert(entries@[c].0@ != entries@[a].0@ && entries@[c].0@ != entries@[b].0@) by {
                        if c < a {
                            assert(entries@[c].0@ != entries@[a].0@);
                        } else {
                            assert(entries@[a].0@ != entries@[c].0@);
                        }
                        if c < b {
                            assert(entries@[c].0@ != entries@[b].0@);
                        } else {
                            assert(entries@[b].0@ != entries@[c].0@);
                        }
                    }
                }
            }
            if entries.len() != 2 {
                return None;
            }
            read_parts(secs, nanos)
        },
        None => match as_array(value) {
            Some(items) => {
                if items.len() != 2 {
                    return None;
                }
                read_parts(&items[0], &items[1])
            },
            None => None,
        },
    }
}

/// An instant at or after the epoch whose fraction is less than a second is
/// read back from the object that stands for it.
pub proof fn lemma_timestamp_round_trip(timestamp: Timestamp)
    requires
        timestamp is SinceEpoch,
        timestamp.wf(),
    ensures
        timestamp_json(timestamp) matches Some(value) && timestamp_of_json(value) == Some(timestamp),
{
    reveal_strlit("secs_since_epoch");
    reveal_strlit("nanos_since_epoch");
    assert(secs_name().len() == 16 && nanos_name().len() == 17);
    let fields = timestamp_json(timestamp).unwrap()->Object_0.members;
    let secs = timestamp->secs;
    let nanos = timestamp->nanos as u64;
    assert(fields[secs_name()] == Json::Unsigned(secs));
    assert(fields[nanos_name()] == Json::Unsigned(nanos));
    assert(nanos < 1_000_000_000);
    assert(nanos / (NANOS_PER_SEC as u64) == 0 && nanos % (NANOS_PER_SEC as u64) == nanos);
    assert forall|name: Seq<char>| #[trigger] fields.contains_key(name) implies name == secs_name()
        || name == nanos_name() by {}
}

/// Writes an instant at or after the epoch; `None` for one before it.
pub fn timestamp_value(timestamp: &Timestamp) -> (r: Option<serde_json::Value>)
    ensures
        match r {
            Some(value) => timestamp_json(*timestamp) == Some(json_view(value)),
            None => timestamp_json(*timestamp) is None,
        },
{
    match timestamp {
        Timestamp::SinceEpoch { secs, nanos } => {
            let mut object = empty_object();
            set_member(&mut object, String::from_str("secs_since_epoch"), unsigned_value(*secs));
            set_member(
                &mut object,
                String::from_str("nanos_since_epoch"),
                unsigned_value(*nanos as u64),
            );
            Some(object_value(object))
        },
        Timestamp::BeforeEpoch => None,
    }
}

/// The text with which every failure to write a message begins.
pub open spec fn marshal_prefix() -> Seq<char> {
    "error marshalling timeout message: "@
}

/// The failure to write a message, for the reason given.
pub open spec fn marshal_failure(reason: Seq<char>) -> Seq<char> {
    marshal_prefix() + reason
}

/// Passes on the text that the printer wrote, or reports its failure.
pub fn written(printed: Result<String, serde_json::Error>) -> (r: Result<String, String>)
    ensures
        match printed {
            Ok(text) => r == Ok::<String, String>(text),
            Err(error) => r matches Err(e) && e@ == marshal_failure(error_message(error)),
        },
{
    match printed {
        Ok(text) => Ok(text),
        Err(error) => {
            let reason = error_text(&error);
            let mut e = String::from_str("error marshalling timeout message: ");
            e.append(reason.as_str());
            assert(e@ == marshal_failure(reason@));
            Err(e)
        },
    }
}

} // verus!
