use netrix_client::client::{DirectiveHandler as DirectiveExecutor, DirectiveResult};
use netrix_client::handlers::{
    health, offer, BodyRead, DirectiveHandler, MessageHandler, Outcome, TimeoutHandler,
};
use netrix_client::listener::{Endpoint, NetrixListener, DEFAULT_QUEUE_CAPACITY};
use netrix_client::queue::{BoundedQueue, TrySendError};
use netrix_client::types::{DirectiveMessage, Message, TimeoutMessage};

fn message_body(id: &str) -> BodyRead {
    BodyRead::Complete(format!(
        r#"{{"from":"r1","to":"r2","data":[1,2,3],"id":"{}","intercept":true}}"#,
        id
    ))
}

fn is_ack<T>(outcome: &Outcome<T>) -> bool {
    matches!(outcome, Outcome::Reply(body) if body == "Ok")
}

#[test]
fn health_check_answers_ok() {
    assert_eq!(health(), "Ok!");
}

#[test]
fn posted_message_reaches_the_queue() {
    let mut listener = NetrixListener::new(DEFAULT_QUEUE_CAPACITY);
    let outcome = listener.messages.handle(BodyRead::Complete(String::from(
        r#"{"from":"r1","to":"r2","data":[1,2,3],"id":"m1","intercept":true}"#,
    )));
    assert!(is_ack(&outcome));
    let m = listener.messages.out.try_recv().unwrap();
    assert_eq!(m.from, "r1");
    assert_eq!(m.to, "r2");
    assert_eq!(m.data, vec![1u8, 2, 3]);
    assert_eq!(m.id, "m1");
    assert!(m.intercept);
    assert_eq!(listener.messages.out.try_recv(), None);
}

#[test]
fn posted_timeout_reaches_the_queue() {
    let mut listener = NetrixListener::new(DEFAULT_QUEUE_CAPACITY);
    let text = r#"{"t":"election","d":"150ms","replica":"r2"}"#;
    let outcome = listener.timeouts.handle(BodyRead::Complete(String::from(text)));
    assert!(is_ack(&outcome));
    let m = listener.timeouts.out.try_recv().unwrap();
    assert_eq!(
        m,
        TimeoutMessage {
            t: String::from("election"),
            d: String::from("150ms"),
            replica: String::from("r2"),
        }
    );
    assert_eq!(
        serde_json::from_str::<serde_json::Value>(&m.to_str().unwrap()).unwrap(),
        serde_json::from_str::<serde_json::Value>(text).unwrap()
    );
}

#[test]
fn posted_directive_reaches_the_queue() {
    let mut listener = NetrixListener::new(DEFAULT_QUEUE_CAPACITY);
    let outcome =
        listener.directives.handle(BodyRead::Complete(String::from(r#"{"action":"stop"}"#)));
    assert!(is_ack(&outcome));
    assert_eq!(
        listener.directives.out.try_recv(),
        Some(DirectiveMessage { action: String::from("stop") })
    );
}

fn malformed() -> Vec<BodyRead> {
    vec![
        BodyRead::Complete(String::from("not json")),
        BodyRead::Complete(String::new()),
        BodyRead::Complete(String::from(r#"{"unexpected":true}"#)),
        BodyRead::Complete(String::from("[1,2,3]")),
        BodyRead::Truncated,
        BodyRead::Failed(String::from("connection reset")),
    ]
}

#[test]
fn malformed_message_is_acknowledged_and_dropped() {
    let mut handler = MessageHandler::new(BoundedQueue::new(2));
    assert!(is_ack(&handler.handle(message_body("kept"))));
    for body in malformed() {
        assert!(is_ack(&handler.handle(body)));
        assert_eq!(handler.out.len(), 1);
    }
    assert!(is_ack(&handler.handle(BodyRead::Complete(String::from(r#"{"action":"stop"}"#)))));
    assert_eq!(handler.out.len(), 1);
    assert_eq!(handler.out.try_recv().unwrap().id, "kept");
    assert_eq!(handler.out.try_recv(), None);
}

#[test]
fn malformed_timeout_is_acknowledged_and_dropped() {
    let mut handler = TimeoutHandler::new(BoundedQueue::new(2));
    for body in malformed() {
        assert!(is_ack(&handler.handle(body)));
        assert_eq!(handler.out.len(), 0);
    }
    assert!(is_ack(&handler.handle(message_body("m1"))));
    assert_eq!(handler.out.len(), 0);
}

#[test]
fn malformed_directive_is_acknowledged_and_dropped() {
    let mut handler = DirectiveHandler::new(BoundedQueue::new(2));
    for body in malformed() {
        assert!(is_ack(&handler.handle(body)));
        assert_eq!(handler.out.len(), 0);
    }
    assert!(is_ack(&handler.handle(BodyRead::Complete(String::from(r#"{"action":7}"#)))));
    assert_eq!(handler.out.len(), 0);
}

#[test]
fn malformed_body_is_dropped_even_when_the_queue_is_full_or_gone() {
    let mut handler = DirectiveHandler::new(BoundedQueue::new(0));
    assert!(is_ack(&handler.handle(BodyRead::Truncated)));
    handler.out.disconnect();
    assert!(is_ack(&handler.handle(BodyRead::Complete(String::from("?")))));
}

#[test]
fn from_data_says_why_a_body_is_refused() {
    assert_eq!(
        MessageHandler::from_data(BodyRead::Truncated),
        Err(String::from("data limit exceeded"))
    );
    assert_eq!(
        MessageHandler::from_data(BodyRead::Failed(String::from("broken pipe"))),
        Err(String::from("broken pipe"))
    );
    assert_eq!(
        MessageHandler::from_data(BodyRead::Complete(String::from("{"))),
        Err(String::from("failed to parse message from data"))
    );
    assert_eq!(MessageHandler::from_data(message_body("m1")).unwrap().id, "m1");
    assert_eq!(
        TimeoutHandler::from_data(BodyRead::Truncated),
        Err(String::from("data limit exceeded"))
    );
    assert_eq!(
        TimeoutHandler::from_data(BodyRead::Failed(String::from("eof"))),
        Err(String::from("eof"))
    );
    assert_eq!(
        TimeoutHandler::from_data(BodyRead::Complete(String::from("[]"))),
        Err(String::from("failed to parse message from data"))
    );
    assert_eq!(
        TimeoutHandler::from_data(BodyRead::Complete(String::from(
            r#"{"t":"a","d":"1ms","replica":"r"}"#
        )))
        .unwrap()
        .d,
        "1ms"
    );
    assert_eq!(
        DirectiveHandler::from_data(BodyRead::Truncated),
        Err(String::from("data limit exceeded"))
    );
    assert_eq!(
        DirectiveHandler::from_data(BodyRead::Failed(String::new())),
        Err(String::new())
    );
    assert_eq!(
        DirectiveHandler::from_data(BodyRead::Complete(String::from("7"))),
        Err(String::from("failed to parse message from data"))
    );
    assert_eq!(
        DirectiveHandler::from_data(BodyRead::Complete(String::from(r#"{"action":"reset"}"#)))
            .unwrap()
            .action,
        "reset"
    );
}

#[test]
fn a_full_queue_holds_the_next_post_back() {
    let capacity = 3;
    let mut handler = MessageHandler::new(BoundedQueue::new(capacity));
    for i in 0..capacity {
        assert!(is_ack(&handler.handle(message_body(&format!("m{}", i)))));
    }
    assert_eq!(handler.out.len(), capacity);
    let held = match handler.handle(message_body("last")) {
        Outcome::Blocked(m) => m,
        _ => panic!("the post was not held back"),
    };
    assert_eq!(held.id, "last");
    assert_eq!(handler.out.len(), capacity);
    let held = match handler.resume(held) {
        Outcome::Blocked(m) => m,
        _ => panic!("the post was not held back"),
    };
    assert_eq!(handler.out.len(), capacity);
    assert_eq!(handler.out.try_recv().unwrap().id, "m0");
    assert!(is_ack(&handler.resume(held)));
    assert_eq!(handler.out.len(), capacity);
    assert_eq!(handler.out.try_recv().unwrap().id, "m1");
    assert_eq!(handler.out.try_recv().unwrap().id, "m2");
    assert_eq!(handler.out.try_recv().unwrap().id, "last");
    assert_eq!(handler.out.try_recv(), None);
}

#[test]
fn the_default_capacity_is_twenty() {
    assert_eq!(DEFAULT_QUEUE_CAPACITY, 20);
    let mut listener = NetrixListener::new(DEFAULT_QUEUE_CAPACITY);
    assert_eq!(listener.messages.out.capacity(), 20);
    assert_eq!(listener.timeouts.out.capacity(), 20);
    assert_eq!(listener.directives.out.capacity(), 20);
    for i in 0..20 {
        let body = BodyRead::Complete(format!(r#"{{"action":"a{}"}}"#, i));
        assert!(is_ack(&listener.directives.handle(body)));
    }
    let body = BodyRead::Complete(String::from(r#"{"action":"a20"}"#));
    assert!(matches!(listener.directives.handle(body), Outcome::Blocked(_)));
    assert_eq!(listener.directives.out.len(), 20);
    assert_eq!(listener.messages.out.len(), 0);
    assert_eq!(listener.timeouts.out.len(), 0);
}

#[test]
fn messages_come_out_in_the_order_they_went_in() {
    let mut handler = MessageHandler::new(BoundedQueue::new(4));
    let mut seen = Vec::new();
    for i in 0..10 {
        assert!(is_ack(&handler.handle(message_body(&format!("m{}", i)))));
        if i % 3 == 2 {
            while let Some(m) = handler.out.try_recv() {
                seen.push(m.id);
            }
        }
    }
    while let Some(m) = handler.out.try_recv() {
        seen.push(m.id);
    }
    let expected: Vec<String> = (0..10).map(|i| format!("m{}", i)).collect();
    assert_eq!(seen, expected);
}

#[test]
fn queues_are_independent() {
    let mut listener = NetrixListener::new(1);
    assert!(is_ack(&listener.messages.handle(message_body("m1"))));
    assert!(matches!(listener.messages.handle(message_body("m2")), Outcome::Blocked(_)));
    let timeout = BodyRead::Complete(String::from(r#"{"t":"a","d":"1ms","replica":"r"}"#));
    assert!(is_ack(&listener.timeouts.handle(timeout)));
    let directive = BodyRead::Complete(String::from(r#"{"action":"start"}"#));
    assert!(is_ack(&listener.directives.handle(directive)));
}

#[test]
fn a_queue_without_consumer_ends_the_process() {
    let mut handler = MessageHandler::new(BoundedQueue::new(2));
    assert!(is_ack(&handler.handle(message_body("m1"))));
    handler.out.disconnect();
    assert!(!handler.out.is_connected());
    assert_eq!(handler.out.len(), 0);
    assert!(matches!(handler.handle(message_body("m2")), Outcome::Fatal));
    assert_eq!(handler.out.len(), 0);
    assert_eq!(handler.out.try_recv(), None);
}

#[test]
fn the_receivers_take_the_queues_along() {
    let mut listener = NetrixListener::new(5);
    assert!(is_ack(&listener.messages.handle(message_body("m1"))));
    assert!(is_ack(&listener.messages.handle(message_body("m2"))));
    let mut receiver = listener.message_receiver();
    assert_eq!(receiver.capacity(), 5);
    assert_eq!(receiver.try_recv().unwrap().id, "m1");
    assert_eq!(receiver.try_recv().unwrap().id, "m2");
    assert_eq!(receiver.try_recv(), None);

    let mut listener = NetrixListener::new(5);
    let directive = BodyRead::Complete(String::from(r#"{"action":"reset"}"#));
    assert!(is_ack(&listener.directives.handle(directive)));
    let mut receiver = listener.directive_receiver();
    assert_eq!(receiver.try_recv().unwrap().action, "reset");
    assert_eq!(receiver.try_recv(), None);
}

#[test]
fn the_timeout_receiver_takes_its_queue_along() {
    let mut listener = NetrixListener::new(2);
    let timeout = BodyRead::Complete(String::from(r#"{"t":"a","d":"1ms","replica":"r"}"#));
    assert!(is_ack(&listener.timeouts.handle(timeout)));
    assert!(is_ack(&listener.messages.handle(message_body("m1"))));
    let mut receiver = listener.timeout_receiver();
    assert_eq!(receiver.capacity(), 2);
    assert_eq!(receiver.try_recv().unwrap().t, "a");
    assert_eq!(receiver.try_recv(), None);
}

#[test]
fn each_receiver_is_granted_once() {
    let mut listener = NetrixListener::new(1);
    assert!(listener.grant_receiver(Endpoint::Messages));
    assert!(!listener.grant_receiver(Endpoint::Messages));
    assert!(listener.grant_receiver(Endpoint::Directive));
    assert!(listener.grant_receiver(Endpoint::Timeout));
    assert!(!listener.grant_receiver(Endpoint::Timeout));
    assert!(!listener.grant_receiver(Endpoint::Directive));
    assert!(!listener.grant_receiver(Endpoint::Health));
    assert!(is_ack(&listener.messages.handle(message_body("m1"))));
    assert_eq!(listener.messages.out.len(), 1);
}

#[test]
fn bounded_queue_sends_and_receives() {
    let mut queue: BoundedQueue<u32> = BoundedQueue::new(2);
    assert_eq!(queue.capacity(), 2);
    assert!(queue.is_connected());
    assert_eq!(queue.len(), 0);
    assert_eq!(queue.try_recv(), None);
    assert!(queue.try_send(1).is_ok());
    assert!(queue.try_send(2).is_ok());
    assert!(matches!(queue.try_send(3), Err(TrySendError::Full(3))));
    assert_eq!(queue.len(), 2);
    assert_eq!(queue.try_recv(), Some(1));
    assert!(queue.try_send(4).is_ok());
    assert_eq!(queue.try_recv(), Some(2));
    assert_eq!(queue.try_recv(), Some(4));
    assert_eq!(queue.try_recv(), None);
    queue.disconnect();
    assert!(matches!(queue.try_send(5), Err(TrySendError::Disconnected(5))));
    assert_eq!(queue.capacity(), 2);
}

#[test]
fn a_queue_without_slots_hands_values_over() {
    let mut queue: BoundedQueue<u8> = BoundedQueue::new(0);
    assert!(!queue.is_awaited());
    assert!(matches!(queue.try_send(1), Err(TrySendError::Full(1))));
    assert_eq!(queue.try_recv(), None);
    assert!(matches!(offer(&mut queue, 2), Outcome::Blocked(2)));
    queue.stand_by();
    assert!(queue.is_awaited());
    assert!(is_ack(&offer(&mut queue, 2)));
    assert_eq!(queue.len(), 1);
    assert!(matches!(queue.try_send(3), Err(TrySendError::Full(3))));
    assert_eq!(queue.try_recv(), Some(2));
    assert!(!queue.is_awaited());
    assert!(matches!(queue.try_send(3), Err(TrySendError::Full(3))));
    queue.stand_by();
    assert!(queue.try_send(3).is_ok());
    assert_eq!(queue.try_recv(), Some(3));
    assert_eq!(queue.try_recv(), None);
}

#[test]
fn standing_by_adds_no_room_to_a_queue_with_slots() {
    let mut queue: BoundedQueue<u8> = BoundedQueue::new(1);
    queue.stand_by();
    assert!(queue.try_send(1).is_ok());
    assert!(matches!(queue.try_send(2), Err(TrySendError::Full(2))));
    assert_eq!(queue.capacity(), 1);
    assert_eq!(queue.try_recv(), Some(1));
    queue.disconnect();
    queue.stand_by();
    assert!(!queue.is_awaited());
}

#[test]
fn offer_reports_each_outcome() {
    let mut queue: BoundedQueue<bool> = BoundedQueue::new(1);
    assert!(is_ack(&offer(&mut queue, true)));
    assert!(matches!(offer(&mut queue, false), Outcome::Blocked(false)));
    queue.disconnect();
    assert!(matches!(offer(&mut queue, true), Outcome::Fatal));
}

#[test]
fn endpoints_are_mounted_under_their_paths() {
    assert_eq!(Endpoint::Messages.mount_point(), "/messages");
    assert_eq!(Endpoint::Timeout.mount_point(), "/timeout");
    assert_eq!(Endpoint::Directive.mount_point(), "/directive");
    assert_eq!(Endpoint::Health.mount_point(), "/health");
}

#[test]
fn a_failed_server_is_one_generic_error() {
    assert_eq!(NetrixListener::run_result(true), Ok(()));
    assert_eq!(NetrixListener::run_result(false), Err(String::from("server failed")));
}

struct Recorder;

impl DirectiveExecutor for Recorder {
    fn stop(&self) -> DirectiveResult {
        Ok(())
    }

    fn start(&self) -> DirectiveResult {
        Err(String::from("already running"))
    }

    fn reset(&self) -> DirectiveResult {
        Ok(())
    }
}

#[test]
fn the_application_carries_out_directives() {
    let mut handler = DirectiveHandler::new(BoundedQueue::new(3));
    for action in ["stop", "start", "reset"] {
        let body = BodyRead::Complete(format!(r#"{{"action":"{}"}}"#, action));
        assert!(is_ack(&handler.handle(body)));
    }
    let executor = Recorder;
    let mut results = Vec::new();
    while let Some(directive) = handler.out.try_recv() {
        results.push(match directive.action.as_str() {
            "stop" => executor.stop(),
            "start" => executor.start(),
            _ => executor.reset(),
        });
    }
    assert_eq!(results, vec![Ok(()), Err(String::from("already running")), Ok(())]);
}
