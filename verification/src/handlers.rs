//! The route handlers: each decodes the body of a request and hands the
//! value to its queue.
//!
//! A handler answers every request it has finished with the same
//! acknowledgement, whether or not the body was queued: a body that was cut
//! short, could not be read or does not decode is dropped, and the caller is
//! not told. A handler never waits: where its queue is full it gives the
//! decoded value back, and the caller holds the request open and offers the
//! value again once the consumer has taken one.

use vstd::prelude::*;
use vstd::string::*;
use crate::queue::{offered, BoundedQueue, TrySendError};
use crate::types::{
    message_parse_failure, DirectiveMessage, DirectiveMessageView, Message, MessageView,
    TimeoutMessage, TimeoutMessageView,
};

verus! {

/// What came of reading a request's body up to the size ceiling.
pub enum BodyRead {
    /// The whole body, as text.
    Complete(String),
    /// The body is longer than the ceiling allows.
    Truncated,
    /// The transport failed; the text says how.
    Failed(String),
}

/// What a handler asks of the server after a request.
pub enum Outcome<T> {
    /// Answer the request with this body.
    Reply(String),
    /// The queue is full. Hold the request open and offer the value again
    /// after the consumer has taken one.
    Blocked(T),
    /// The consumer has given the queue up: no value of this kind can be
    /// delivered any more, and the process is to stop.
    Fatal,
}

/// The body with which a handler answers.
pub open spec fn acknowledgement() -> Seq<char> {
    "Ok"@
}

/// What is reported of a body that is longer than the ceiling allows.
pub open spec fn limit_failure() -> Seq<char> {
    "data limit exceeded"@
}

/// Why nothing is decoded from a body that yields no value.
pub open spec fn refusal(body: BodyRead) -> Seq<char> {
    match body {
        BodyRead::Complete(_) => message_parse_failure(),
        BodyRead::Truncated => limit_failure(),
        BodyRead::Failed(why) => why@,
    }
}

/// The views of the values queued, oldest first.
pub open spec fn views<T: View>(items: Seq<T>) -> Seq<T::V> {
    items.map_values(|item: T| item@)
}

impl<T> Outcome<T> {
    /// The outcome is the acknowledgement.
    pub open spec fn is_ack(&self) -> bool {
        self matches Outcome::Reply(body) && body@ == acknowledgement()
    }
}

/// What offering a value of view `view` to a queue comes to: the
/// acknowledgement and the value queued behind the others where there is
/// room, the value back where the queue is full, the end where the consumer
/// is gone.
pub open spec fn offer_spec<T: View>(
    outcome: Outcome<T>,
    before: BoundedQueue<T>,
    after: BoundedQueue<T>,
    view: T::V,
) -> bool {
    &&& after.capacity() == before.capacity()
    &&& after.is_connected() == before.is_connected()
    &&& after.is_awaited() == before.is_awaited()
    &&& before.is_connected() ==> views(after@) == offered(views(before@), before.limit(), view)
    &&& if !before.is_connected() {
        outcome is Fatal && after@ == before@
    } else if before.has_room() {
        outcome.is_ack() && after@.len() == before@.len() + 1 && after@.drop_last() == before@
            && after@.last()@ == view
    } else {
        outcome matches Outcome::Blocked(back) && back@ == view && after@ == before@
    }
}

fn acknowledge<T>() -> (outcome: Outcome<T>)
    ensures
        outcome.is_ack(),
{
    Outcome::Reply(String::from_str("Ok"))
}

/// Offers a value to a queue and says what the server is to do next.
pub fn offer<T: View>(out: &mut BoundedQueue<T>, value: T) -> (outcome: Outcome<T>)
    ensures
        offer_spec(outcome, *old(out), *final(out), value@),
{
    let ghost before = out@;
    match out.try_send(value) {
        Ok(_) => {
            assert(out@.drop_last() =~= before);
            assert(views(out@) =~= views(before).push(value@));
            acknowledge()
        },
        Err(TrySendError::Full(back)) => Outcome::Blocked(back),
        Err(TrySendError::Disconnected(_)) => Outcome::Fatal,
    }
}

/// The handler of the route on which simulated network messages arrive.
pub struct MessageHandler {
    pub out: BoundedQueue<Message>,
}

impl MessageHandler {
    /// A handler that fills `out`.
    pub fn new(out: BoundedQueue<Message>) -> (handler: MessageHandler)
        ensures
            handler.out == out,
    {
        MessageHandler { out }
    }

    /// The message that a body holds: the body is complete and is the wire
    /// form of a message.
    pub open spec fn decoded(body: BodyRead) -> Option<MessageView> {
        match body {
            BodyRead::Complete(text) => Message::parsed(text@),
            _ => None,
        }
    }

    /// Decodes the body of a request.
    pub fn from_data(body: BodyRead) -> (r: Result<Message, String>)
        ensures
            match r {
                Ok(m) => Self::decoded(body) == Some(m@),
                Err(e) => Self::decoded(body) is None && e@ == refusal(body),
            },
    {
        match body {
            BodyRead::Complete(text) => Message::from_str(text.as_str()),
            BodyRead::Truncated => Err(String::from_str("data limit exceeded")),
            BodyRead::Failed(why) => Err(why),
        }
    }

    /// Handles one request. A body that holds no message is dropped: the
    /// queue stays as it is and the request is acknowledged all the same.
    /// A message is offered to the queue.
    pub fn handle(&mut self, body: BodyRead) -> (outcome: Outcome<Message>)
        ensures
            match Self::decoded(body) {
                Some(m) => offer_spec(outcome, old(self).out, final(self).out, m),
                None => outcome.is_ack() && final(self).out == old(self).out,
            },
    {
        match MessageHandler::from_data(body) {
            Ok(message) => offer(&mut self.out, message),
            Err(_) => acknowledge(),
        }
    }

    /// Offers again a message that the queue had no room for.
    pub fn resume(&mut self, message: Message) -> (outcome: Outcome<Message>)
        ensures
            offer_spec(outcome, old(self).out, final(self).out, message@),
    {
        offer(&mut self.out, message)
    }
}

/// The handler of the route on which fired timeouts arrive.
pub struct TimeoutHandler {
    pub out: BoundedQueue<TimeoutMessage>,
}

impl TimeoutHandler {
    /// A handler that fills `out`.
    pub fn new(out: BoundedQueue<TimeoutMessage>) -> (handler: TimeoutHandler)
        ensures
            handler.out == out,
    {
        TimeoutHandler { out }
    }

    /// The timeout that a body holds: the body is complete and is the wire
    /// form of a timeout.
    pub open spec fn decoded(body: BodyRead) -> Option<TimeoutMessageView> {
        match body {
            BodyRead::Complete(text) => TimeoutMessage::parsed(text@),
            _ => None,
        }
    }

    /// Decodes the body of a request.
    pub fn from_data(body: BodyRead) -> (r: Result<TimeoutMessage, String>)
        ensures
            match r {
                Ok(m) => Self::decoded(body) == Some(m@),
                Err(e) => Self::decoded(body) is None && e@ == refusal(body),
            },
    {
        match body {
            BodyRead::Complete(text) => TimeoutMessage::from_str(text.as_str()),
            BodyRead::Truncated => Err(String::from_str("data limit exceeded")),
            BodyRead::Failed(why) => Err(why),
        }
    }

    /// Handles one request. A body that holds no timeout is dropped: the
    /// queue stays as it is and the request is acknowledged all the same.
    /// A timeout is offered to the queue.
    pub fn handle(&mut self, body: BodyRead) -> (outcome: Outcome<TimeoutMessage>)
        ensures
            match Self::decoded(body) {
                Some(m) => offer_spec(outcome, old(self).out, final(self).out, m),
                None => outcome.is_ack() && final(self).out == old(self).out,
            },
    {
        match TimeoutHandler::from_data(body) {
            Ok(message) => offer(&mut self.out, message),
            Err(_) => acknowledge(),
        }
    }

    /// Offers again a timeout that the queue had no room for.
    pub fn resume(&mut self, message: TimeoutMessage) -> (outcome: Outcome<TimeoutMessage>)
        ensures
            offer_spec(outcome, old(self).out, final(self).out, message@),
    {
        offer(&mut self.out, message)
    }
}

/// The handler of the route on which lifecycle directives arrive.
pub struct DirectiveHandler {
    pub out: BoundedQueue<DirectiveMessage>,
}

impl DirectiveHandler {
    /// A handler that fills `out`.
    pub fn new(out: BoundedQueue<DirectiveMessage>) -> (handler: DirectiveHandler)
        ensures
            handler.out == out,
    {
        DirectiveHandler { out }
    }

    /// The directive that a body holds: the body is complete and is the wire
    /// form of a directive.
    pub open spec fn decoded(body: BodyRead) -> Option<DirectiveMessageView> {
        match body {
            BodyRead::Complete(text) => DirectiveMessage::parsed(text@),
            _ => None,
        }
    }

    /// Decodes the body of a request.
    pub fn from_data(body: BodyRead) -> (r: Result<DirectiveMessage, String>)
        ensures
            match r {
                Ok(m) => Self::decoded(body) == Some(m@),
                Err(e) => Self::decoded(body) is None && e@ == refusal(body),
            },
    {
        match body {
            BodyRead::Complete(text) => DirectiveMessage::from_str(text.as_str()),
            BodyRead::Truncated => Err(String::from_str("data limit exceeded")),
            BodyRead::Failed(why) => Err(why),
        }
    }

    /// Handles one request. A body that holds no directive is dropped: the
    /// queue stays as it is and the request is acknowledged all the same.
    /// A directive is offered to the queue.
    pub fn handle(&mut self, body: BodyRead) -> (outcome: Outcome<DirectiveMessage>)
        ensures
            match Self::decoded(body) {
                Some(m) => offer_spec(outcome, old(self).out, final(self).out, m),
                None => outcome.is_ack() && final(self).out == old(self).out,
            },
    {
        match DirectiveHandler::from_data(body) {
            Ok(message) => offer(&mut self.out, message),
            Err(_) => acknowledge(),
        }
    }

    /// Offers again a directive that the queue had no room for.
    pub fn resume(&mut self, message: DirectiveMessage) -> (outcome: Outcome<DirectiveMessage>)
        ensures
            offer_spec(outcome, old(self).out, final(self).out, message@),
    {
        offer(&mut self.out, message)
    }
}

/// The body with which the liveness probe is answered.
pub fn health() -> (body: String)
    ensures
        body@ == "Ok!"@,
{
    String::from_str("Ok!")
}

} // verus!
