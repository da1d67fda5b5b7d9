use ws_client_core::client::{ClientCore, CloseOutcome};
use ws_client_core::latch::ErrorValue;
use ws_client_core::message::{Message, RawPayload};
use ws_client_core::slot::InstallOutcome;

type Core = ClientCore<u32, u32>;

#[test]
fn buffered_messages_drain_in_arrival_order() {
    // Inbound binary [1,2,3], then text "hi", with no handler installed;
    // installing a handler must deliver both, in that order, during the
    // install-then-drain sequence.
    let mut c: Core = ClientCore::new(None);
    assert!(c
        .on_message_event(RawPayload::Binary(vec![1, 2, 3]))
        .is_none());
    assert!(c.on_message_event(RawPayload::Text("hi".to_string())).is_none());
    assert_eq!(c.queued_len(), 2);

    let outcome = c.set_on_message(Some(7));
    assert_eq!(outcome, InstallOutcome::Applied);

    let mut delivered: Vec<(u32, Message)> = Vec::new();
    while let Some(d) = c.next_queued_delivery() {
        delivered.push((d.handler, d.value));
        c.finish_message_delivery();
    }
    assert_eq!(
        delivered,
        vec![
            (7, Message::Binary(vec![1, 2, 3])),
            (7, Message::Text("hi".to_string())),
        ]
    );
    assert_eq!(c.queued_len(), 0);
}

#[test]
fn many_buffered_messages_keep_order_and_accumulate() {
    // The buffer is unbounded by design: nothing is evicted, however much
    // arrives while no handler is installed.  (Bounding it is deliberately
    // the caller's concern.)
    let mut c: Core = ClientCore::new(None);
    for i in 0..100u8 {
        assert!(c.on_message_event(RawPayload::Binary(vec![i])).is_none());
    }
    assert_eq!(c.queued_len(), 100);

    assert_eq!(c.set_on_message(Some(1)), InstallOutcome::Applied);
    let mut next: u8 = 0;
    while let Some(d) = c.next_queued_delivery() {
        assert_eq!(d.value, Message::Binary(vec![next]));
        next += 1;
        c.finish_message_delivery();
    }
    assert_eq!(next, 100);
}

#[test]
fn installing_none_suspends_delivery_and_keeps_buffering() {
    let mut c: Core = ClientCore::new(None);
    assert_eq!(c.set_on_message(Some(5)), InstallOutcome::Applied);

    // A message while a handler is installed and idle is delivered at once.
    let d = c.on_message_event(RawPayload::Text("a".to_string())).unwrap();
    assert_eq!(d.handler, 5);
    assert_eq!(d.value, Message::Text("a".to_string()));
    c.finish_message_delivery();

    // Uninstalling suspends delivery; messages buffer instead of dropping.
    assert_eq!(c.set_on_message(None), InstallOutcome::Applied);
    assert!(c.on_message_event(RawPayload::Text("b".to_string())).is_none());
    assert!(c.on_message_event(RawPayload::Text("c".to_string())).is_none());
    assert_eq!(c.queued_len(), 2);

    // Reinstalling hands the backlog over, still in order.
    assert_eq!(c.set_on_message(Some(6)), InstallOutcome::Applied);
    let d1 = c.next_queued_delivery().unwrap();
    assert_eq!((d1.handler, d1.value), (6, Message::Text("b".to_string())));
    c.finish_message_delivery();
    let d2 = c.next_queued_delivery().unwrap();
    assert_eq!((d2.handler, d2.value), (6, Message::Text("c".to_string())));
    c.finish_message_delivery();
    assert!(c.next_queued_delivery().is_none());
}

#[test]
fn self_replacement_mid_invocation_is_deferred() {
    let mut c: Core = ClientCore::new(None);
    assert_eq!(c.set_on_message(Some(1)), InstallOutcome::Applied);

    // An event is handed to handler 1; while that invocation is in flight
    // (not yet finished), the handler installs its replacement.
    let d = c.on_message_event(RawPayload::Text("x".to_string())).unwrap();
    assert_eq!(d.handler, 1);
    assert_eq!(c.set_on_message(Some(2)), InstallOutcome::Deferred);

    // The replacement must not disturb the invocation in flight, and no
    // new delivery can begin until it ends: a message arriving now buffers.
    assert!(c.on_message_event(RawPayload::Text("y".to_string())).is_none());
    assert_eq!(c.queued_len(), 1);

    // The invocation ends; the replacement lands; the buffered message and
    // the next event go to handler 2.
    c.finish_message_delivery();
    let d2 = c.next_queued_delivery().unwrap();
    assert_eq!((d2.handler, d2.value), (2, Message::Text("y".to_string())));
    c.finish_message_delivery();
    let d3 = c.on_message_event(RawPayload::Text("z".to_string())).unwrap();
    assert_eq!(d3.handler, 2);
    c.finish_message_delivery();
}

#[test]
fn mid_drain_replacement_keeps_remaining_order() {
    let mut c: Core = ClientCore::new(None);
    for name in ["a", "b", "c"] {
        assert!(c.on_message_event(RawPayload::Text(name.to_string())).is_none());
    }

    assert_eq!(c.set_on_message(Some(1)), InstallOutcome::Applied);
    let d1 = c.next_queued_delivery().unwrap();
    assert_eq!((d1.handler, d1.value), (1, Message::Text("a".to_string())));
    // Mid-drain, the handler detaches itself.
    assert_eq!(c.set_on_message(None), InstallOutcome::Deferred);
    c.finish_message_delivery();

    // The drain stops cleanly; the rest stays queued, in original order.
    assert!(c.next_queued_delivery().is_none());
    assert_eq!(c.queued_len(), 2);

    // A later handler picks up exactly where the drain stopped.
    assert_eq!(c.set_on_message(Some(9)), InstallOutcome::Applied);
    let d2 = c.next_queued_delivery().unwrap();
    assert_eq!((d2.handler, d2.value), (9, Message::Text("b".to_string())));
    c.finish_message_delivery();
    let d3 = c.next_queued_delivery().unwrap();
    assert_eq!((d3.handler, d3.value), (9, Message::Text("c".to_string())));
    c.finish_message_delivery();
    assert!(c.next_queued_delivery().is_none());
}

#[test]
fn first_error_wins_and_is_delivered_once() {
    // E1 then E2 with no handler installed: E1 is latched, E2 is dropped;
    // installing a handler delivers E1 exactly once.
    let mut c: Core = ClientCore::new(None);
    let e1 = ErrorValue::Transport("first".to_string());
    let e2 = ErrorValue::Transport("second".to_string());
    assert!(c.route_error(e1).is_none());
    assert!(c.has_latched_error());
    assert!(c.route_error(e2).is_none());

    assert_eq!(c.set_on_error(Some(4)), InstallOutcome::Applied);
    let d = c.take_latched_delivery().unwrap();
    assert_eq!(d.handler, 4);
    assert_eq!(d.value, ErrorValue::Transport("first".to_string()));
    c.finish_error_delivery();

    assert!(!c.has_latched_error());
    assert!(c.take_latched_delivery().is_none());
}

#[test]
fn error_with_handler_installed_is_delivered_not_latched() {
    let mut c: Core = ClientCore::new(None);
    assert_eq!(c.set_on_error(Some(2)), InstallOutcome::Applied);
    let d = c
        .route_error(ErrorValue::Send("send failed".to_string()))
        .unwrap();
    assert_eq!(d.handler, 2);
    assert_eq!(d.value, ErrorValue::Send("send failed".to_string()));
    c.finish_error_delivery();
    assert!(!c.has_latched_error());
}

#[test]
fn init_message_is_handed_out_exactly_once_at_open() {
    let mut c: Core = ClientCore::new(Some(Message::Text("hello".to_string())));
    // Before open, nothing has been handed out to send; at open, exactly
    // the init message; at any later open report, nothing again.
    let m = c.on_open();
    assert_eq!(m, Some(Message::Text("hello".to_string())));
    assert_eq!(c.on_open(), None);
}

#[test]
fn open_without_init_message_sends_nothing() {
    let mut c: Core = ClientCore::new(None);
    assert_eq!(c.on_open(), None);
    assert_eq!(c.on_open(), None);
}

#[test]
fn clean_close_goes_to_message_channel_only() {
    let mut c: Core = ClientCore::new(None);
    assert_eq!(c.set_on_message(Some(1)), InstallOutcome::Applied);
    assert_eq!(c.set_on_error(Some(2)), InstallOutcome::Applied);

    match c.on_close(true, 1000, "bye".to_string()) {
        CloseOutcome::Message(d) => {
            assert_eq!(d.handler, 1);
            assert_eq!(d.value, Message::Text("bye".to_string()));
        }
        other => panic!("clean close routed wrongly: {:?}", other),
    }
    c.finish_message_delivery();
    // The error channel was never touched.
    assert!(!c.has_latched_error());
}

#[test]
fn unclean_close_goes_to_error_channel_only() {
    let mut c: Core = ClientCore::new(None);
    assert_eq!(c.set_on_message(Some(1)), InstallOutcome::Applied);
    assert_eq!(c.set_on_error(Some(2)), InstallOutcome::Applied);

    match c.on_close(false, 1006, "abnormal".to_string()) {
        CloseOutcome::Error(d) => {
            assert_eq!(d.handler, 2);
            assert_eq!(
                d.value,
                ErrorValue::UncleanClose { code: 1006, reason: "abnormal".to_string() }
            );
        }
        other => panic!("unclean close routed wrongly: {:?}", other),
    }
    c.finish_error_delivery();
    // The message channel was never touched.
    assert_eq!(c.queued_len(), 0);
}

#[test]
fn clean_close_with_no_handler_buffers_the_reason() {
    let mut c: Core = ClientCore::new(None);
    match c.on_close(true, 1000, "bye".to_string()) {
        CloseOutcome::Buffered => {}
        other => panic!("expected buffering, got {:?}", other),
    }
    assert_eq!(c.queued_len(), 1);
    assert!(!c.has_latched_error());

    assert_eq!(c.set_on_message(Some(3)), InstallOutcome::Applied);
    let d = c.next_queued_delivery().unwrap();
    assert_eq!((d.handler, d.value), (3, Message::Text("bye".to_string())));
    c.finish_message_delivery();
}

#[test]
fn unclean_close_with_no_handler_latches() {
    let mut c: Core = ClientCore::new(None);
    match c.on_close(false, 1011, "server error".to_string()) {
        CloseOutcome::Buffered => {}
        other => panic!("expected latching, got {:?}", other),
    }
    assert_eq!(c.queued_len(), 0);
    assert!(c.has_latched_error());

    assert_eq!(c.set_on_error(Some(8)), InstallOutcome::Applied);
    let d = c.take_latched_delivery().unwrap();
    assert_eq!(
        d.value,
        ErrorValue::UncleanClose { code: 1011, reason: "server error".to_string() }
    );
    c.finish_error_delivery();
}

#[test]
fn unrecognized_payload_is_silently_discarded() {
    let mut c: Core = ClientCore::new(None);
    assert!(c.on_message_event(RawPayload::Unrecognized).is_none());
    assert_eq!(c.queued_len(), 0);
    assert!(!c.has_latched_error());

    // Even with a handler installed, nothing is delivered for it.
    assert_eq!(c.set_on_message(Some(1)), InstallOutcome::Applied);
    assert!(c.on_message_event(RawPayload::Unrecognized).is_none());
}

#[test]
fn message_while_handler_busy_is_buffered_not_lost() {
    let mut c: Core = ClientCore::new(None);
    assert_eq!(c.set_on_message(Some(1)), InstallOutcome::Applied);
    let d = c.on_message_event(RawPayload::Text("x".to_string())).unwrap();
    assert_eq!(d.handler, 1);

    // While the invocation is in flight, a further event buffers.
    assert!(c.on_message_event(RawPayload::Text("y".to_string())).is_none());
    assert_eq!(c.queued_len(), 1);
    c.finish_message_delivery();

    let d2 = c.next_queued_delivery().unwrap();
    assert_eq!((d2.handler, d2.value), (1, Message::Text("y".to_string())));
    c.finish_message_delivery();
}

#[test]
fn error_handler_self_replacement_is_deferred() {
    let mut c: Core = ClientCore::new(None);
    assert_eq!(c.set_on_error(Some(1)), InstallOutcome::Applied);
    let d = c
        .route_error(ErrorValue::Transport("boom".to_string()))
        .unwrap();
    assert_eq!(d.handler, 1);

    // The error handler detaches itself from inside its invocation; a
    // second error arriving meanwhile latches instead of invoking.
    assert_eq!(c.set_on_error(None), InstallOutcome::Deferred);
    assert!(c
        .route_error(ErrorValue::Transport("again".to_string()))
        .is_none());
    assert!(c.has_latched_error());
    c.finish_error_delivery();

    // After the invocation, no handler is installed: the latched error
    // waits for the next install.
    assert_eq!(c.set_on_error(Some(2)), InstallOutcome::Applied);
    let d2 = c.take_latched_delivery().unwrap();
    assert_eq!(d2.value, ErrorValue::Transport("again".to_string()));
    c.finish_error_delivery();
}
