//! The messages that cross the boundary between the orchestrator and a
//! replica, with their JSON wire forms.
//!
//! Each wire type has a view, a pair of spec functions that say which JSON
//! value stands for it and which values it is read from, and four operations:
//! `to_json` and `from_json` between the type and a `serde_json::Value`,
//! `to_str` and `from_str` between the type and JSON text.

use vstd::prelude::*;
use vstd::string::*;
use std::time::Duration;
use crate::decimal::{decimal_digits, decimal_string};
use crate::json::{
    as_object, clock_accepts, empty_object, json_parse, json_text, json_view, member,
    object_value, parse, print, set_member, Json, JsonObject,
};
use crate::params::{pairs_map, Params};
use crate::time::{duration_millis, Timestamp};
use crate::wire::{
    bool_member, bytes_json, bytes_member, bytes_value, lemma_bytes_round_trip,
    distinct_names, lemma_params_round_trip, lemma_timestamp_round_trip, marshal_failure,
    params_json,
    params_of_json, params_value, read_bool, read_bytes_member, read_params, read_text,
    read_timestamp, text_copy, text_member, timestamp_json, timestamp_of_json, timestamp_value,
    written,
};

verus! {

/// The identity of a replica within the cluster under test.
pub type ReplicaID = String;

/// What is reported of a text that is not the wire form of a message.
pub open spec fn message_parse_failure() -> Seq<char> {
    "failed to parse message from data"@
}

fn message_parse_error() -> (e: String)
    ensures
        e@ == message_parse_failure(),
{
    String::from_str("failed to parse message from data")
}

/// A simulated network message delivered to this replica.
#[derive(Clone, Debug, PartialEq, Eq)]
pub struct Message {
    pub from: ReplicaID,
    pub to: ReplicaID,
    pub data: Vec<u8>,
    pub id: String,
    pub intercept: bool,
}

/// What a [`Message`] holds.
pub struct MessageView {
    pub from: Seq<char>,
    pub to: Seq<char>,
    pub data: Seq<u8>,
    pub id: Seq<char>,
    pub intercept: bool,
}

impl View for Message {
    type V = MessageView;

    open spec fn view(&self) -> MessageView {
        MessageView {
            from: self.from@,
            to: self.to@,
            data: self.data@,
            id: self.id@,
            intercept: self.intercept,
        }
    }
}

impl Message {
    /// The object that stands for a message: `from`, `to` and `id` as
    /// strings, `data` as an array of byte values, `intercept` as a boolean.
    pub open spec fn json(m: MessageView) -> Json {
        Json::Object(
            JsonObject::empty().with("from"@, Json::Text(m.from)).with("to"@, Json::Text(m.to)).with(
                "data"@,
                bytes_json(m.data),
            ).with("id"@, Json::Text(m.id)).with("intercept"@, Json::Bool(m.intercept)),
        )
    }

    /// The message that a value stands for: an object in which all five
    /// members are present and of their kind. Other members are passed over.
    pub open spec fn of_json(value: Json) -> Option<MessageView> {
        match value {
            Json::Object(fields) => match (
                text_member(fields, "from"@),
                text_member(fields, "to"@),
                bytes_member(fields, "data"@),
                text_member(fields, "id"@),
                bool_member(fields, "intercept"@),
            ) {
                (Some(from), Some(to), Some(data), Some(id), Some(intercept)) => Some(
                    MessageView { from, to, data, id, intercept },
                ),
                _ => None,
            },
            _ => None,
        }
    }

    /// The message that a text stands for: the text is JSON, and its value
    /// stands for a message.
    pub open spec fn parsed(text: Seq<char>) -> Option<MessageView> {
        match json_parse(text) {
            Some(value) => Self::of_json(value),
            None => None,
        }
    }

    /// Reading the object that stands for a message gives the message back.
    pub proof fn lemma_round_trip(m: MessageView)
        ensures
            Self::of_json(Self::json(m)) == Some(m),
    {
        reveal_strlit("from");
        reveal_strlit("to");
        reveal_strlit("data");
        reveal_strlit("id");
        reveal_strlit("intercept");
        assert("from"@.len() == 4 && "to"@.len() == 2 && "data"@.len() == 4);
        assert("id"@.len() == 2 && "intercept"@.len() == 9);
        assert("from"@[0] != "data"@[0]);
        assert("to"@[0] != "id"@[0]);
        lemma_bytes_round_trip(m.data);
        let fields = Self::json(m)->Object_0;
        assert(text_member(fields, "from"@) == Some(m.from));
        assert(text_member(fields, "to"@) == Some(m.to));
        assert(bytes_member(fields, "data"@) == Some(m.data));
        assert(text_member(fields, "id"@) == Some(m.id));
        assert(bool_member(fields, "intercept"@) == Some(m.intercept));
    }

    /// The JSON value of the message.
    pub fn to_json(&self) -> (value: serde_json::Value)
        ensures
            json_view(value) == Self::json(self@),
    {
        let mut object = empty_object();
        set_member(&mut object, String::from_str("from"), text_copy(&self.from));
        set_member(&mut object, String::from_str("to"), text_copy(&self.to));
        set_member(&mut object, String::from_str("data"), bytes_value(&self.data));
        set_member(&mut object, String::from_str("id"), text_copy(&self.id));
        set_member(&mut object, String::from_str("intercept"), crate::json::bool_value(self.intercept));
        object_value(object)
    }

    /// Reads a message out of a JSON value.
    pub fn from_json(value: &serde_json::Value) -> (r: Option<Message>)
        ensures
            match r {
                Some(m) => Self::of_json(json_view(*value)) == Some(m@),
                None => Self::of_json(json_view(*value)) is None,
            },
    {
        let object = match as_object(value) {
            Some(object) => object,
            None => return None,
        };
        let from = match read_text(object, "from") {
            Some(from) => from,
            None => return None,
        };
        let to = match read_text(object, "to") {
            Some(to) => to,
            None => return None,
        };
        let data = match read_bytes_member(object, "data") {
            Some(data) => data,
            None => return None,
        };
        let id = match read_text(object, "id") {
            Some(id) => id,
            None => return None,
        };
        let intercept = match read_bool(object, "intercept") {
            Some(intercept) => intercept,
            None => return None,
        };
        Some(Message { from, to, data, id, intercept })
    }

    /// Decodes a message from JSON text.
    ///
    /// Fails on text that is not JSON and on JSON that is not the wire form
    /// of a message.
    pub fn from_str(s: &str) -> (r: Result<Message, String>)
        ensures
            match r {
                Ok(m) => Self::parsed(s@) == Some(m@),
                Err(e) => Self::parsed(s@) is None && e@ == message_parse_failure(),
            },
    {
        match parse(s) {
            Ok(value) => match Message::from_json(&value) {
                Some(m) => Ok(m),
                None => Err(message_parse_error()),
            },
            Err(_) => Err(message_parse_error()),
        }
    }

    /// Encodes the message as JSON text.
    ///
    /// Always succeeds: every value of the type has a wire form.
    pub fn to_str(&self) -> (r: Result<String, String>)
        ensures
            r matches Ok(text) && text@ == json_text(Self::json(self@)),
    {
        let value = self.to_json();
        written(print(&value))
    }
}

/// A timer that the application declares: its label and how long it runs.
#[derive(Debug, PartialEq, Eq)]
pub struct TimeoutInfo {
    pub t: String,
    pub d: Duration,
}

impl TimeoutInfo {
    /// A timer of label `t` that runs for `d`.
    pub fn new(t: String, d: Duration) -> (info: TimeoutInfo)
        ensures
            info.t == t,
            info.d == d,
    {
        TimeoutInfo { t, d }
    }

    /// How the timer's length is written: its whole milliseconds in decimal,
    /// then `ms`.
    pub open spec fn duration_text(&self) -> Seq<char> {
        decimal_digits(duration_millis(self.d) as nat) + "ms"@
    }

    /// The timer's length as a millisecond string, such as `150ms`.
    pub fn duration(&self) -> (text: String)
        ensures
            text@ == self.duration_text(),
    {
        let mut text = decimal_string(self.d.as_millis());
        text.append("ms");
        text
    }

    /// The wire form of the timer, as fired on the replica `replica_id`.
    pub fn to_message(&self, replica_id: ReplicaID) -> (m: TimeoutMessage)
        ensures
            m@.t == self.t@,
            m@.d == self.duration_text(),
            m@.replica == replica_id@,
    {
        TimeoutMessage { t: self.t.clone(), d: self.duration(), replica: replica_id }
    }
}

/// The wire form of a fired timeout.
#[derive(Clone, Debug, PartialEq, Eq)]
pub struct TimeoutMessage {
    pub t: String,
    pub d: String,
    pub replica: ReplicaID,
}

/// What a [`TimeoutMessage`] holds.
pub struct TimeoutMessageView {
    pub t: Seq<char>,
    pub d: Seq<char>,
    pub replica: Seq<char>,
}

impl View for TimeoutMessage {
    type V = TimeoutMessageView;

    open spec fn view(&self) -> TimeoutMessageView {
        TimeoutMessageView { t: self.t@, d: self.d@, replica: self.replica@ }
    }
}

impl TimeoutMessage {
    /// The object that stands for a timeout: `t`, `d` and `replica` as
    /// strings.
    pub open spec fn json(m: TimeoutMessageView) -> Json {
        Json::Object(
            JsonObject::empty().with("t"@, Json::Text(m.t)).with("d"@, Json::Text(m.d)).with(
                "replica"@,
                Json::Text(m.replica),
            ),
        )
    }

    /// The timeout that a value stands for: an object in which all three
    /// members are present and strings. Other members are passed over.
    pub open spec fn of_json(value: Json) -> Option<TimeoutMessageView> {
        match value {
            Json::Object(fields) => match (
                text_member(fields, "t"@),
                text_member(fields, "d"@),
                text_member(fields, "replica"@),
            ) {
                (Some(t), Some(d), Some(replica)) => Some(TimeoutMessageView { t, d, replica }),
                _ => None,
            },
            _ => None,
        }
    }

    /// The timeout that a text stands for.
    pub open spec fn parsed(text: Seq<char>) -> Option<TimeoutMessageView> {
        match json_parse(text) {
            Some(value) => Self::of_json(value),
            None => None,
        }
    }

    /// Reading the object that stands for a timeout gives the timeout back.
    pub proof fn lemma_round_trip(m: TimeoutMessageView)
        ensures
            Self::of_json(Self::json(m)) == Some(m),
    {
        reveal_strlit("t");
        reveal_strlit("d");
        reveal_strlit("replica");
        assert("t"@.len() == 1 && "d"@.len() == 1 && "replica"@.len() == 7);
        assert("t"@[0] != "d"@[0]);
        let fields = Self::json(m)->Object_0;
        assert(text_member(fields, "t"@) == Some(m.t));
        assert(text_member(fields, "d"@) == Some(m.d));
        assert(text_member(fields, "replica"@) == Some(m.replica));
    }

    /// The JSON value of the timeout.
    pub fn to_json(&self) -> (value: serde_json::Value)
        ensures
            json_view(value) == Self::json(self@),
    {
        let mut object = empty_object();
        set_member(&mut object, String::from_str("t"), text_copy(&self.t));
        set_member(&mut object, String::from_str("d"), text_copy(&self.d));
        set_member(&mut object, String::from_str("replica"), text_copy(&self.replica));
        object_value(object)
    }

    /// Reads a timeout out of a JSON value.
    pub fn from_json(value: &serde_json::Value) -> (r: Option<TimeoutMessage>)
        ensures
            match r {
                Some(m) => Self::of_json(json_view(*value)) == Some(m@),
                None => Self::of_json(json_view(*value)) is None,
            },
    {
        let object = match as_object(value) {
            Some(object) => object,
            None => return None,
        };
        let t = match read_text(object, "t") {
            Some(t) => t,
            None => return None,
        };
        let d = match read_text(object, "d") {
            Some(d) => d,
            None => return None,
        };
        let replica = match read_text(object, "replica") {
            Some(replica) => replica,
            None => return None,
        };
        Some(TimeoutMessage { t, d, replica })
    }

    /// Decodes a timeout from JSON text.
    ///
    /// Fails on text that is not JSON and on JSON that is not the wire form
    /// of a timeout.
    pub fn from_str(s: &str) -> (r: Result<TimeoutMessage, String>)
        ensures
            match r {
                Ok(m) => Self::parsed(s@) == Some(m@),
                Err(e) => Self::parsed(s@) is None && e@ == message_parse_failure(),
            },
    {
        match parse(s) {
            Ok(value) => match TimeoutMessage::from_json(&value) {
                Some(m) => Ok(m),
                None => Err(message_parse_error()),
            },
            Err(_) => Err(message_parse_error()),
        }
    }

    /// Encodes the timeout as JSON text.
    ///
    /// Always succeeds: every value of the type has a wire form.
    pub fn to_str(&self) -> (r: Result<String, String>)
        ensures
            r matches Ok(text) && text@ == json_text(Self::json(self@)),
    {
        let value = self.to_json();
        written(print(&value))
    }
}

/// A lifecycle command from the orchestrator. The action is expected to be
/// `stop`, `start` or `reset`; decoding accepts any string.
#[derive(Clone, Debug, PartialEq, Eq)]
pub struct DirectiveMessage {
    pub action: String,
}

/// What a [`DirectiveMessage`] holds.
pub struct DirectiveMessageView {
    pub action: Seq<char>,
}

impl View for DirectiveMessage {
    type V = DirectiveMessageView;

    open spec fn view(&self) -> DirectiveMessageView {
        DirectiveMessageView { action: self.action@ }
    }
}

impl DirectiveMessage {
    /// The object that stands for a directive: `action` as a string.
    pub open spec fn json(m: DirectiveMessageView) -> Json {
        Json::Object(JsonObject::empty().with("action"@, Json::Text(m.action)))
    }

    /// The directive that a value stands for: an object whose member
    /// `action` is a string. Other members are passed over.
    pub open spec fn of_json(value: Json) -> Option<DirectiveMessageView> {
        match value {
            Json::Object(fields) => match text_member(fields, "action"@) {
                Some(action) => Some(DirectiveMessageView { action }),
                None => None,
            },
            _ => None,
        }
    }

    /// The directive that a text stands for.
    pub open spec fn parsed(text: Seq<char>) -> Option<DirectiveMessageView> {
        match json_parse(text) {
            Some(value) => Self::of_json(value),
            None => None,
        }
    }

    /// Reading the object that stands for a directive gives the directive
    /// back.
    pub proof fn lemma_round_trip(m: DirectiveMessageView)
        ensures
            Self::of_json(Self::json(m)) == Some(m),
    {
        let fields = Self::json(m)->Object_0;
        assert(text_member(fields, "action"@) == Some(m.action));
    }

    /// The JSON value of the directive.
    pub fn to_json(&self) -> (value: serde_json::Value)
        ensures
            json_view(value) == Self::json(self@),
    {
        let mut object = empty_object();
        set_member(&mut object, String::from_str("action"), text_copy(&self.action));
        object_value(object)
    }

    /// Reads a directive out of a JSON value.
    pub fn from_json(value: &serde_json::Value) -> (r: Option<DirectiveMessage>)
        ensures
            match r {
                Some(m) => Self::of_json(json_view(*value)) == Some(m@),
                None => Self::of_json(json_view(*value)) is None,
            },
    {
        let object = match as_object(value) {
            Some(object) => object,
            None => return None,
        };
        match read_text(object, "action") {
            Some(action) => Some(DirectiveMessage { action }),
            None => None,
        }
    }

    /// Decodes a directive from JSON text.
    ///
    /// Fails on text that is not JSON and on JSON that is not the wire form
    /// of a directive.
    pub fn from_str(s: &str) -> (r: Result<DirectiveMessage, String>)
        ensures
            match r {
                Ok(m) => Self::parsed(s@) == Some(m@),
                Err(e) => Self::parsed(s@) is None && e@ == message_parse_failure(),
            },
    {
        match parse(s) {
            Ok(value) => match DirectiveMessage::from_json(&value) {
                Some(m) => Ok(m),
                None => Err(message_parse_error()),
            },
            Err(_) => Err(message_parse_error()),
        }
    }

    /// Encodes the directive as JSON text.
    ///
    /// Always succeeds: every value of the type has a wire form.
    pub fn to_str(&self) -> (r: Result<String, String>)
        ensures
            r matches Ok(text) && text@ == json_text(Self::json(self@)),
    {
        let value = self.to_json();
        written(print(&value))
    }
}

/// Something the application reports of its own state.
#[derive(Debug)]
pub enum Event {
    MessageSend(String),
    MessageReceive(String),
    TimeoutStart(TimeoutInfo),
    TimeoutEnd(TimeoutInfo),
    Other(String, Params),
}

impl Event {
    /// The label under which the event is reported.
    pub open spec fn label(&self) -> Seq<char> {
        match self {
            Event::MessageSend(_) => "MessageSend"@,
            Event::MessageReceive(_) => "MessageReceive"@,
            Event::TimeoutStart(_) => "TimeoutStart"@,
            Event::TimeoutEnd(_) => "TimeoutEnd"@,
            Event::Other(label, _) => label@,
        }
    }

    /// The parameters with which the event is reported, in their order: the
    /// message's identifier, the timer's label and length, or the bindings
    /// given.
    pub open spec fn params(&self) -> Seq<(Seq<char>, Seq<char>)> {
        match self {
            Event::MessageSend(id) => seq![("message_id"@, id@)],
            Event::MessageReceive(id) => seq![("message_id"@, id@)],
            Event::TimeoutStart(info) => seq![
                ("type"@, info.t@),
                ("duration"@, info.duration_text()),
            ],
            Event::TimeoutEnd(info) => seq![
                ("type"@, info.t@),
                ("duration"@, info.duration_text()),
            ],
            Event::Other(_, params) => params.pairs(),
        }
    }

    /// The wire form of the event as reported by the replica `replica_id`,
    /// stamped with the system clock's time at this call.
    pub fn to_message(&self, replica_id: ReplicaID) -> (m: EventMessage)
        ensures
            m@.t == self.label(),
            m@.params == self.params(),
            m@.replica == replica_id@,
            m@.timestamp.wf(),
    {
        self.to_message_at(replica_id, Timestamp::now())
    }

    /// The wire form of the event as reported by the replica `replica_id` at
    /// the instant `timestamp`.
    pub fn to_message_at(&self, replica_id: ReplicaID, timestamp: Timestamp) -> (m: EventMessage)
        ensures
            m@.t == self.label(),
            m@.params == self.params(),
            m@.replica == replica_id@,
            m@.timestamp == timestamp,
    {
        match self {
            Event::MessageSend(m_id) => {
                let mut params = Params::new();
                params.insert(String::from_str("message_id"), m_id.clone());
                assert(params.pairs() =~= seq![("message_id"@, m_id@)]);
                EventMessage {
                    t: String::from_str("MessageSend"),
                    params,
                    replica: replica_id,
                    timestamp,
                }
            },
            Event::MessageReceive(m_id) => {
                let mut params = Params::new();
                params.insert(String::from_str("message_id"), m_id.clone());
                assert(params.pairs() =~= seq![("message_id"@, m_id@)]);
                EventMessage {
                    t: String::from_str("MessageReceive"),
                    params,
                    replica: replica_id,
                    timestamp,
                }
            },
            Event::TimeoutStart(timeout) => {
                let mut params = Params::new();
                params.insert(String::from_str("type"), timeout.t.clone());
                params.insert(String::from_str("duration"), timeout.duration());
                assert(params.pairs() =~= seq![
                    ("type"@, timeout.t@),
                    ("duration"@, timeout.duration_text()),
                ]);
                EventMessage {
                    t: String::from_str("TimeoutStart"),
                    params,
                    replica: replica_id,
                    timestamp,
                }
            },
            Event::TimeoutEnd(timeout) => {
                let mut params = Params::new();
                params.insert(String::from_str("type"), timeout.t.clone());
                params.insert(String::from_str("duration"), timeout.duration());
                assert(params.pairs() =~= seq![
                    ("type"@, timeout.t@),
                    ("duration"@, timeout.duration_text()),
                ]);
                EventMessage {
                    t: String::from_str("TimeoutEnd"),
                    params,
                    replica: replica_id,
                    timestamp,
                }
            },
            Event::Other(t, params) => EventMessage {
                t: t.clone(),
                params: params.duplicate(),
                replica: replica_id,
                timestamp,
            },
        }
    }
}

/// What is reported of a text that is not the wire form of an event.
pub open spec fn event_parse_failure() -> Seq<char> {
    "failed to parse event from data"@
}

fn event_parse_error() -> (e: String)
    ensures
        e@ == event_parse_failure(),
{
    String::from_str("failed to parse event from data")
}

/// Why an event stamped before the epoch cannot be written.
pub open spec fn before_epoch_reason() -> Seq<char> {
    "SystemTime must be later than UNIX_EPOCH"@
}

/// The wire form of an [`Event`]: its label and parameters, the replica that
/// reports it, and the instant at which the message was made.
#[derive(Clone, Debug)]
pub struct EventMessage {
    t: String,
    params: Params,
    replica: ReplicaID,
    timestamp: Timestamp,
}

/// What an [`EventMessage`] holds. The parameters are the bindings made, in
/// their order.
pub struct EventMessageView {
    pub t: Seq<char>,
    pub params: Seq<(Seq<char>, Seq<char>)>,
    pub replica: Seq<char>,
    pub timestamp: Timestamp,
}

impl View for EventMessage {
    type V = EventMessageView;

    closed spec fn view(&self) -> EventMessageView {
        EventMessageView {
            t: self.t@,
            params: self.params.pairs(),
            replica: self.replica@,
            timestamp: self.timestamp,
        }
    }
}

impl EventMessage {
    /// The object that stands for an event message: `t` and `replica` as
    /// strings, `params` as an object of strings, `timestamp` as the object
    /// of an instant. A message stamped before the epoch has no wire form.
    pub open spec fn json(m: EventMessageView) -> Option<Json> {
        match timestamp_json(m.timestamp) {
            Some(timestamp) => Some(
                Json::Object(
                    JsonObject::empty().with("t"@, Json::Text(m.t)).with(
                        "params"@,
                        params_json(m.params),
                    ).with("replica"@, Json::Text(m.replica)).with("timestamp"@, timestamp),
                ),
            ),
            None => None,
        }
    }

    /// The event message that a value stands for, given the instant that
    /// its member `timestamp` stands for: an object in which `t`, `params`
    /// and `replica` are present and of their kind, and an instant. Other
    /// members are passed over.
    pub open spec fn of_json_at(value: Json, timestamp: Option<Timestamp>) -> Option<
        EventMessageView,
    > {
        match value {
            Json::Object(fields) => if fields.members.contains_key("params"@) {
                match (
                    text_member(fields, "t"@),
                    params_of_json(fields.members["params"@]),
                    text_member(fields, "replica"@),
                    timestamp,
                ) {
                    (Some(t), Some(params), Some(replica), Some(timestamp)) => Some(
                        EventMessageView { t, params, replica, timestamp },
                    ),
                    _ => None,
                }
            } else {
                None
            },
            _ => None,
        }
    }

    /// The instant that the member `timestamp` of a value stands for.
    pub open spec fn stamp_of_json(value: Json) -> Option<Timestamp> {
        match value {
            Json::Object(fields) => if fields.members.contains_key("timestamp"@) {
                timestamp_of_json(fields.members["timestamp"@])
            } else {
                None
            },
            _ => None,
        }
    }

    /// The event message that a value stands for: an object in which all
    /// four members are present and of their kind. Other members are passed
    /// over.
    pub open spec fn of_json(value: Json) -> Option<EventMessageView> {
        Self::of_json_at(value, Self::stamp_of_json(value))
    }

    /// The event message that a text stands for.
    pub open spec fn parsed(text: Seq<char>) -> Option<EventMessageView> {
        match json_parse(text) {
            Some(value) => Self::of_json(value),
            None => None,
        }
    }

    /// Reading the object that stands for an event message gives the message
    /// back, where the message is stamped at or after the epoch with a
    /// fraction of less than a second: the same label, replica and instant,
    /// and the same parameters as a map from names to values. Where no
    /// parameter is bound twice, it is the same message.
    pub proof fn lemma_round_trip(m: EventMessageView)
        requires
            m.timestamp is SinceEpoch,
            m.timestamp.wf(),
        ensures
            Self::json(m) matches Some(value) && Self::of_json(value) matches Some(back) && back.t
                == m.t && back.replica == m.replica && back.timestamp == m.timestamp && pairs_map(
                back.params,
            ) == pairs_map(m.params) && (distinct_names(m.params) ==> back == m),
    {
        reveal_strlit("t");
        reveal_strlit("params");
        reveal_strlit("replica");
        reveal_strlit("timestamp");
        assert("t"@.len() == 1 && "params"@.len() == 6);
        assert("replica"@.len() == 7 && "timestamp"@.len() == 9);
        lemma_params_round_trip(m.params);
        lemma_timestamp_round_trip(m.timestamp);
        let fields = Self::json(m).unwrap()->Object_0;
        assert(text_member(fields, "t"@) == Some(m.t));
        assert(fields.members["params"@] == params_json(m.params));
        assert(text_member(fields, "replica"@) == Some(m.replica));
        assert(fields.members["timestamp"@] == timestamp_json(m.timestamp).unwrap());
    }

    /// The JSON value of the message; `None` where it is stamped before the
    /// epoch.
    pub fn to_json(&self) -> (r: Option<serde_json::Value>)
        ensures
            match r {
                Some(value) => Self::json(self@) == Some(json_view(value)),
                None => Self::json(self@) is None,
            },
    {
        let timestamp = match timestamp_value(&self.timestamp) {
            Some(timestamp) => timestamp,
            None => return None,
        };
        let mut object = empty_object();
        set_member(&mut object, String::from_str("t"), text_copy(&self.t));
        set_member(&mut object, String::from_str("params"), params_value(&self.params));
        set_member(&mut object, String::from_str("replica"), text_copy(&self.replica));
        set_member(&mut object, String::from_str("timestamp"), timestamp);
        Some(object_value(object))
    }

    /// Reads an event message out of a JSON value, with the instant that was
    /// read from its member `timestamp`, if one was.
    pub fn from_json_at(value: &serde_json::Value, timestamp: Option<Timestamp>) -> (r: Option<
        EventMessage,
    >)
        ensures
            match r {
                Some(m) => Self::of_json_at(json_view(*value), timestamp) == Some(m@),
                None => Self::of_json_at(json_view(*value), timestamp) is None,
            },
    {
        let object = match as_object(value) {
            Some(object) => object,
            None => return None,
        };
        let t = match read_text(object, "t") {
            Some(t) => t,
            None => return None,
        };
        let params = match member(object, "params") {
            Some(member) => match read_params(member) {
                Some(params) => params,
                None => return None,
            },
            None => return None,
        };
        let replica = match read_text(object, "replica") {
            Some(replica) => replica,
            None => return None,
        };
        match timestamp {
            Some(timestamp) => Some(EventMessage { t, params, replica, timestamp }),
            None => None,
        }
    }

    /// Reads an event message out of a JSON value.
    ///
    /// A message that is read is the one that the value stands for, and
    /// none is read from a value that stands for none. None is read either
    /// where serde's decoder for `SystemTime` refuses the member
    /// `timestamp`, as it does for an instant that the system clock's type
    /// cannot hold on this machine.
    pub fn from_json(value: &serde_json::Value) -> (r: Option<EventMessage>)
        ensures
            r matches Some(m) ==> Self::of_json(json_view(*value)) == Some(m@),
            Self::of_json(json_view(*value)) is None ==> r is None,
    {
        let timestamp = match as_object(value) {
            Some(object) => match member(object, "timestamp") {
                Some(member) => if clock_accepts(member) {
                    read_timestamp(member)
                } else {
                    None
                },
                None => None,
            },
            None => None,
        };
        EventMessage::from_json_at(value, timestamp)
    }

    /// Decodes an event message from JSON text.
    ///
    /// Fails on text that is not JSON, on JSON that is not the wire form of
    /// an event message, and on an instant that the system clock's type
    /// cannot hold.
    pub fn from_str(s: &str) -> (r: Result<EventMessage, String>)
        ensures
            match r {
                Ok(m) => Self::parsed(s@) == Some(m@),
                Err(e) => e@ == event_parse_failure(),
            },
            Self::parsed(s@) is None ==> r is Err,
    {
        match parse(s) {
            Ok(value) => match EventMessage::from_json(&value) {
                Some(m) => Ok(m),
                None => Err(event_parse_error()),
            },
            Err(_) => Err(event_parse_error()),
        }
    }

    /// Encodes the message as JSON text.
    ///
    /// Fails exactly for a message stamped before the epoch, which has no
    /// wire form, and says so.
    pub fn to_str(&self) -> (r: Result<String, String>)
        ensures
            match Self::json(self@) {
                Some(value) => r matches Ok(text) && text@ == json_text(value),
                None => r matches Err(e) && e@ == marshal_failure(before_epoch_reason()),
            },
    {
        match self.to_json() {
            Some(value) => written(print(&value)),
            None => {
                let mut e = String::from_str("error marshalling timeout message: ");
                e.append("SystemTime must be later than UNIX_EPOCH");
                Err(e)
            },
        }
    }
}

} // verus!
