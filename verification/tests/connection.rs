use trait_link::connection::{
    subscription_step, Action, Connection, Fault, Feed, Inbound, Outcome, Settlement, SlotKind,
    Step, WebsocketError, OUTBOUND_CAPACITY,
};
use trait_link::framing::prepend_id;

const JSON: &str = "application/json";

#[test]
fn ids_start_at_zero_and_count_up() {
    let mut conn = Connection::new(JSON);
    assert_eq!(conn.pending(), 0);
    assert_eq!(conn.begin_call(JSON, SlotKind::Unary), Ok(0));
    assert_eq!(conn.begin_call(JSON, SlotKind::Stream), Ok(1));
    assert_eq!(conn.begin_call(JSON, SlotKind::Unary), Ok(2));
    assert_eq!(conn.pending(), 3);
    assert_eq!(conn.kind_of(0), Some(SlotKind::Unary));
    assert_eq!(conn.kind_of(1), Some(SlotKind::Stream));
    assert_eq!(conn.kind_of(3), None);
}

#[test]
fn wrong_content_type_is_refused() {
    let mut conn = Connection::new(JSON);
    let refused = conn.begin_call("application/cbor", SlotKind::Unary);
    assert_eq!(
        refused,
        Err(WebsocketError::IncorrectContentType {
            expected: JSON.to_string(),
            received: "application/cbor".to_string(),
        })
    );
    assert_eq!(conn.pending(), 0);
    assert_eq!(conn.begin_call(JSON, SlotKind::Unary), Ok(0));
}

#[test]
fn unary_reply_ends_the_call() {
    let mut conn = Connection::new(JSON);
    let id = conn.begin_call(JSON, SlotKind::Unary).unwrap();
    let action = conn.on_frame(&prepend_id(id, vec![1, 2, 3]));
    assert_eq!(action, Action::Reply { id, payload: vec![1, 2, 3] });
    assert_eq!(conn.pending(), 0);
    assert_eq!(
        conn.on_frame(&prepend_id(id, vec![1, 2, 3])),
        Action::Fault(Fault::UnknownId(id))
    );
}

#[test]
fn stream_items_keep_the_stream() {
    let mut conn = Connection::new(JSON);
    let id = conn.begin_call(JSON, SlotKind::Stream).unwrap();
    assert_eq!(conn.on_frame(&prepend_id(id, vec![1])), Action::Item { id, payload: vec![1] });
    assert_eq!(conn.on_frame(&prepend_id(id, vec![2])), Action::Item { id, payload: vec![2] });
    assert_eq!(conn.pending(), 1);
    assert!(conn.end_stream(id));
    assert!(!conn.end_stream(id));
    assert_eq!(conn.pending(), 0);
}

#[test]
fn end_stream_leaves_unary_calls() {
    let mut conn = Connection::new(JSON);
    let id = conn.begin_call(JSON, SlotKind::Unary).unwrap();
    assert!(!conn.end_stream(id));
    assert_eq!(conn.kind_of(id), Some(SlotKind::Unary));
}

#[test]
fn unknown_id_and_short_frame_are_faults() {
    let mut conn = Connection::new(JSON);
    conn.begin_call(JSON, SlotKind::Unary).unwrap();
    assert_eq!(conn.on_frame(&prepend_id(41, vec![])), Action::Fault(Fault::UnknownId(41)));
    assert_eq!(conn.on_frame(&[1, 2, 3]), Action::Fault(Fault::Truncated));
    assert_eq!(conn.pending(), 1);
}

#[test]
fn control_messages_reach_no_caller() {
    let mut conn = Connection::new(JSON);
    conn.begin_call(JSON, SlotKind::Unary).unwrap();
    assert_eq!(conn.on_message(Inbound::Ping(vec![5, 6])), Action::Pong(vec![5, 6]));
    assert_eq!(conn.on_message(Inbound::Pong), Action::Continue);
    assert_eq!(conn.on_message(Inbound::Text("oops".to_string())), Action::Continue);
    assert_eq!(conn.on_message(Inbound::Error), Action::Continue);
    assert_eq!(conn.pending(), 1);
    assert!(!conn.is_closed());
    assert_eq!(
        conn.on_message(Inbound::Binary(prepend_id(0, vec![9]))),
        Action::Reply { id: 0, payload: vec![9] }
    );
}

fn reply_in_order(order: &[u32]) {
    let mut conn = Connection::new(JSON);
    for expected in 0..order.len() as u32 {
        assert_eq!(conn.begin_call(JSON, SlotKind::Unary), Ok(expected));
    }
    for (done, &id) in order.iter().enumerate() {
        let payload = id.to_be_bytes().to_vec();
        let action = conn.on_frame(&prepend_id(id, payload.clone()));
        assert_eq!(action, Action::Reply { id, payload });
        assert_eq!(conn.pending(), order.len() - done - 1);
    }
}

#[test]
fn one_call_gets_its_reply() {
    reply_in_order(&[0]);
}

#[test]
fn two_calls_replied_in_reverse() {
    reply_in_order(&[1, 0]);
}

#[test]
fn fifty_calls_replied_in_permuted_order() {
    let order: Vec<u32> = (0..50u32).map(|i| (i * 7 + 3) % 50).collect();
    let mut seen = order.clone();
    seen.sort();
    assert_eq!(seen, (0..50u32).collect::<Vec<u32>>());
    reply_in_order(&order);
}

#[test]
fn close_settles_every_outstanding_call() {
    let mut conn = Connection::new(JSON);
    for _ in 0..3 {
        conn.begin_call(JSON, SlotKind::Unary).unwrap();
    }
    let stream = conn.begin_call(JSON, SlotKind::Stream).unwrap();
    conn.begin_call(JSON, SlotKind::Unary).unwrap();
    let mut settlements = conn.close();
    settlements.sort_by_key(|s| s.id);
    let expected: Vec<Settlement> = (0..5u32)
        .map(|id| Settlement {
            id,
            outcome: if id == stream { Outcome::StreamEnded } else { Outcome::ConnectionClosed },
        })
        .collect();
    assert_eq!(settlements, expected);
    assert_eq!(conn.pending(), 0);
    assert!(conn.is_closed());
    assert_eq!(conn.close(), vec![]);
}

#[test]
fn close_message_and_end_shut_down() {
    let mut conn = Connection::new(JSON);
    conn.begin_call(JSON, SlotKind::Unary).unwrap();
    assert_eq!(
        conn.on_message(Inbound::Close),
        Action::Shutdown(vec![Settlement { id: 0, outcome: Outcome::ConnectionClosed }])
    );
    assert!(conn.is_closed());
    let mut other = Connection::new(JSON);
    other.begin_call(JSON, SlotKind::Stream).unwrap();
    assert_eq!(
        other.on_message(Inbound::End),
        Action::Shutdown(vec![Settlement { id: 0, outcome: Outcome::StreamEnded }])
    );
}

#[test]
fn no_call_begins_after_shutdown() {
    let mut conn = Connection::new(JSON);
    conn.close();
    assert_eq!(conn.begin_call(JSON, SlotKind::Unary), Err(WebsocketError::RequestChannelClosed));
    assert_eq!(conn.pending(), 0);
    assert!(matches!(
        conn.begin_call("text/plain", SlotKind::Unary),
        Err(WebsocketError::IncorrectContentType { .. })
    ));
}

#[test]
fn lagging_subscriber_goes_on() {
    assert_eq!(subscription_step(Feed::Value), Step::Forward);
    assert_eq!(subscription_step(Feed::Lagged(3)), Step::Resume);
    assert_eq!(subscription_step(Feed::Lagged(0)), Step::Resume);
    assert_eq!(subscription_step(Feed::Closed), Step::Finish);
    let feeds = [Feed::Value, Feed::Lagged(9), Feed::Value, Feed::Value, Feed::Closed, Feed::Value];
    let mut forwarded = 0;
    for feed in feeds {
        match subscription_step(feed) {
            Step::Forward => forwarded += 1,
            Step::Resume => {},
            Step::Finish => break,
        }
    }
    assert_eq!(forwarded, 3);
}

#[test]
fn outbound_capacity_is_finite() {
    assert_eq!(OUTBOUND_CAPACITY, 100);
}

#[test]
fn ids_start_over_after_the_largest() {
    let mut conn = Connection::starting_at(JSON, u32::MAX - 1);
    assert_eq!(conn.next_id(), u32::MAX - 1);
    assert_eq!(conn.begin_call(JSON, SlotKind::Unary), Ok(u32::MAX - 1));
    assert_eq!(conn.begin_call(JSON, SlotKind::Unary), Ok(u32::MAX));
    assert_eq!(conn.next_id(), 0);
    assert_eq!(conn.begin_call(JSON, SlotKind::Stream), Ok(0));
    assert_eq!(conn.begin_call(JSON, SlotKind::Unary), Ok(1));
    assert_eq!(conn.pending(), 4);
    assert_eq!(
        conn.on_frame(&prepend_id(u32::MAX, vec![1])),
        Action::Reply { id: u32::MAX, payload: vec![1] }
    );
}

#[test]
fn an_id_that_comes_round_again_is_taken_over() {
    let mut conn = Connection::starting_at(JSON, u32::MAX);
    assert_eq!(conn.begin_call(JSON, SlotKind::Stream), Ok(u32::MAX));
    for expected in 0..3u32 {
        assert_eq!(conn.begin_call(JSON, SlotKind::Unary), Ok(expected));
    }
    let mut again = Connection::starting_at(JSON, 7);
    assert_eq!(again.begin_call(JSON, SlotKind::Stream), Ok(7));
    assert_eq!(again.kind_of(7), Some(SlotKind::Stream));
    assert_eq!(again.content_type(), JSON);
    assert_eq!(again.pending(), 1);
}

#[test]
fn errors_read_as_sentences() {
    assert_eq!(
        WebsocketError::RequestChannelClosed.message(),
        "Failed to send request to worker: channel closed"
    );
    assert_eq!(
        WebsocketError::ResponseChannelClosed.message(),
        "Failed to read response from worker: channel closed"
    );
    assert_eq!(WebsocketError::ConnectionClosed.message(), "Websocket connection closed");
    let mismatch = WebsocketError::IncorrectContentType {
        expected: "application/json".to_string(),
        received: "application/cbor".to_string(),
    };
    assert_eq!(
        mismatch.message(),
        "The client is not using the same content type as the websocket transport, expected: application/json, received: application/cbor"
    );
}

#[test]
fn unary_calls_end_with_connection_closed() {
    assert_eq!(Outcome::ConnectionClosed.error(), Some(WebsocketError::ConnectionClosed));
    assert_eq!(Outcome::StreamEnded.error(), None);
    let mut conn = Connection::new(JSON);
    for _ in 0..4 {
        conn.begin_call(JSON, SlotKind::Unary).unwrap();
    }
    conn.begin_call(JSON, SlotKind::Stream).unwrap();
    let settlements = conn.close();
    let failed = settlements.iter().filter(|s| s.outcome.error().is_some()).count();
    assert_eq!(failed, 4);
    assert_eq!(settlements.len(), 5);
}
