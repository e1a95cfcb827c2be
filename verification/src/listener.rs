//! The ingress router: the three queues with their handlers, and the table
//! of the paths under which the server mounts them.

use vstd::prelude::*;
use vstd::string::*;
use crate::handlers::{DirectiveHandler, MessageHandler, TimeoutHandler};
use crate::queue::BoundedQueue;
use crate::types::{DirectiveMessage, Message, TimeoutMessage};

verus! {

/// Number of slots each queue gets where nothing else is asked for.
pub const DEFAULT_QUEUE_CAPACITY: usize = 20;

/// The entry points that the server offers.
#[derive(Clone, Copy, Debug, PartialEq, Eq, Structural)]
pub enum Endpoint {
    /// `POST`: a simulated network message.
    Messages,
    /// `POST`: a fired timeout.
    Timeout,
    /// `POST`: a lifecycle directive.
    Directive,
    /// `GET`: the liveness probe.
    Health,
}

impl Endpoint {
    /// The path under which the entry point is mounted.
    pub open spec fn mount_path(self) -> Seq<char> {
        match self {
            Endpoint::Messages => "/messages"@,
            Endpoint::Timeout => "/timeout"@,
            Endpoint::Directive => "/directive"@,
            Endpoint::Health => "/health"@,
        }
    }

    /// The path under which the entry point is mounted.
    pub fn mount_point(self) -> (path: &'static str)
        ensures
            path@ == self.mount_path(),
    {
        match self {
            Endpoint::Messages => "/messages",
            Endpoint::Timeout => "/timeout",
            Endpoint::Directive => "/directive",
            Endpoint::Health => "/health",
        }
    }
}

/// What is reported when the server could not start or stopped on a failure.
pub open spec fn serve_failure() -> Seq<char> {
    "server failed"@
}

/// The account of the consumers' ends that have been granted.
pub struct Grants {
    messages: bool,
    timeouts: bool,
    directives: bool,
}

impl Grants {
    /// Whether the consumer's end of the queue behind `endpoint` has been
    /// granted. The liveness probe has no queue and counts as granted.
    pub closed spec fn holds(&self, endpoint: Endpoint) -> bool {
        match endpoint {
            Endpoint::Messages => self.messages,
            Endpoint::Timeout => self.timeouts,
            Endpoint::Directive => self.directives,
            Endpoint::Health => true,
        }
    }

    /// Nothing granted yet.
    pub fn new() -> (grants: Grants)
        ensures
            !grants.holds(Endpoint::Messages),
            !grants.holds(Endpoint::Timeout),
            !grants.holds(Endpoint::Directive),
    {
        Grants { messages: false, timeouts: false, directives: false }
    }

    /// Grants the consumer's end of the queue behind `endpoint`, if it has
    /// not been granted before, and says whether it did.
    pub fn grant(&mut self, endpoint: Endpoint) -> (yes: bool)
        ensures
            yes == !old(self).holds(endpoint),
            final(self).holds(endpoint),
            forall|other: Endpoint|
                other != endpoint ==> final(self).holds(other) == old(self).holds(other),
    {
        match endpoint {
            Endpoint::Messages => {
                let yes = !self.messages;
                self.messages = true;
                yes
            },
            Endpoint::Timeout => {
                let yes = !self.timeouts;
                self.timeouts = true;
                yes
            },
            Endpoint::Directive => {
                let yes = !self.directives;
                self.directives = true;
                yes
            },
            Endpoint::Health => false,
        }
    }
}

/// The ingress router. It owns one queue per kind of inbound message, each
/// behind the handler that fills it, and keeps account of the consumers'
/// ends that it has granted.
pub struct NetrixListener {
    pub messages: MessageHandler,
    pub timeouts: TimeoutHandler,
    pub directives: DirectiveHandler,
    pub grants: Grants,
}

impl NetrixListener {
    /// Whether the consumer's end of the queue behind `endpoint` has been
    /// granted.
    pub open spec fn granted(&self, endpoint: Endpoint) -> bool {
        self.grants.holds(endpoint)
    }

    /// A router whose three queues are empty and have `chan_size` slots
    /// each, with no consumer's end granted yet.
    pub fn new(chan_size: usize) -> (listener: NetrixListener)
        ensures
            listener.messages.out@ == Seq::<Message>::empty(),
            listener.messages.out.capacity() == chan_size,
            listener.messages.out.is_connected(),
            !listener.messages.out.is_awaited(),
            listener.timeouts.out@ == Seq::<TimeoutMessage>::empty(),
            listener.timeouts.out.capacity() == chan_size,
            listener.timeouts.out.is_connected(),
            !listener.timeouts.out.is_awaited(),
            listener.directives.out@ == Seq::<DirectiveMessage>::empty(),
            listener.directives.out.capacity() == chan_size,
            listener.directives.out.is_connected(),
            !listener.directives.out.is_awaited(),
            !listener.granted(Endpoint::Messages),
            !listener.granted(Endpoint::Timeout),
            !listener.granted(Endpoint::Directive),
    {
        let messages = BoundedQueue::new(chan_size);
        let timeouts = BoundedQueue::new(chan_size);
        let directives = BoundedQueue::new(chan_size);
        NetrixListener {
            messages: MessageHandler::new(messages),
            timeouts: TimeoutHandler::new(timeouts),
            directives: DirectiveHandler::new(directives),
            grants: Grants::new(),
        }
    }

    /// What `run` reports once the server has come to its end: nothing where
    /// it ended in order, one generic failure else.
    pub fn run_result(served: bool) -> (r: Result<(), String>)
        ensures
            match r {
                Ok(_) => served,
                Err(e) => !served && e@ == serve_failure(),
            },
    {
        if served {
            Ok(())
        } else {
            Err(String::from_str("server failed"))
        }
    }

    /// Grants the consumer's end of the queue behind `endpoint` to a
    /// consumer who drains it while the router stays with the server. Each
    /// end is granted once: the answer is yes the first time it is asked
    /// for, and no ever after. The queues stay as they are.
    pub fn grant_receiver(&mut self, endpoint: Endpoint) -> (yes: bool)
        ensures
            yes == !old(self).granted(endpoint),
            final(self).granted(endpoint),
            forall|other: Endpoint|
                other != endpoint ==> final(self).granted(other) == old(self).granted(other),
            final(self).messages == old(self).messages,
            final(self).timeouts == old(self).timeouts,
            final(self).directives == old(self).directives,
    {
        self.grants.grant(endpoint)
    }

    /// Hands the queue of messages over to the consumer, with all that is
    /// queued. This uses the router up, so it can be done once.
    pub fn message_receiver(self) -> (receiver: BoundedQueue<Message>)
        ensures
            receiver == self.messages.out,
    {
        self.messages.out
    }

    /// Hands the queue of timeouts over to the consumer, with all that is
    /// queued. This uses the router up, so it can be done once.
    pub fn timeout_receiver(self) -> (receiver: BoundedQueue<TimeoutMessage>)
        ensures
            receiver == self.timeouts.out,
    {
        self.timeouts.out
    }

    /// Hands the queue of directives over to the consumer, with all that is
    /// queued. This uses the router up, so it can be done once.
    pub fn directive_receiver(self) -> (receiver: BoundedQueue<DirectiveMessage>)
        ensures
            receiver == self.directives.out,
    {
        self.directives.out
    }
}

} // verus!
