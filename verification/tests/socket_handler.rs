use sage::sg_threading::socket_handler::{
    poll_target, Connection, ConnectionTable, PollTarget, ReadOutcome, LISTEN_TOKEN,
};

fn table_with_one() -> (ConnectionTable<&'static str>, usize) {
    let mut table = ConnectionTable::new();
    let token = table.allocate_token();
    table.insert_connection(token, Connection::new("stream"));
    (table, token)
}

#[test]
fn listener_token_is_zero() {
    assert!(matches!(poll_target(LISTEN_TOKEN), PollTarget::Listener));
    assert!(matches!(poll_target(5), PollTarget::Stream(5)));
}

#[test]
fn tokens_are_handed_out_once_each() {
    let mut table: ConnectionTable<u8> = ConnectionTable::new();
    assert!(table.has_free_token());
    let a = table.allocate_token();
    let b = table.allocate_token();
    assert_eq!(a, 1);
    assert_eq!(b, 2);
    table.insert_connection(a, Connection::new(1));
    let c = table.allocate_token();
    assert_eq!(c, 3);
    assert!(table.contains(a));
    assert!(!table.contains(b));
}

#[test]
fn data_read_becomes_an_event() {
    let (mut table, token) = table_with_one();
    let connection = table.remove_connection(token).unwrap();
    let step = table.settle(token, connection, "peer", Some(ReadOutcome::Bytes(b"hi".to_vec())));
    let event = step.event.unwrap();
    assert_eq!(event.socket_address, "peer");
    assert_eq!(event.data, b"hi".to_vec());
    assert!(!step.remove);
    assert!(!step.unexpected_error);
    // the connection is back, with an empty buffer
    let connection = table.remove_connection(token).unwrap();
    assert!(connection.read_buffer.is_empty());
    assert_eq!(connection.stream, "stream");
}

#[test]
fn closed_aborted_and_reset_connections_are_removed() {
    for outcome in [
        ReadOutcome::Bytes(Vec::new()),
        ReadOutcome::ConnectionAborted,
        ReadOutcome::ConnectionReset,
    ] {
        let (mut table, token) = table_with_one();
        let connection = table.remove_connection(token).unwrap();
        let step = table.settle(token, connection, (), Some(outcome));
        assert!(step.event.is_none());
        assert!(step.remove);
        assert!(table.contains(token));
    }
}

#[test]
fn would_block_gives_an_empty_event() {
    let (mut table, token) = table_with_one();
    let connection = table.remove_connection(token).unwrap();
    let step = table.settle(token, connection, 7u16, Some(ReadOutcome::WouldBlock));
    assert_eq!(step.event.unwrap().data, Vec::<u8>::new());
    assert!(!step.remove);
}

#[test]
fn other_read_errors_are_reported_not_removed() {
    let (mut table, token) = table_with_one();
    let connection = table.remove_connection(token).unwrap();
    let step = table.settle(token, connection, (), Some(ReadOutcome::Failed));
    assert!(step.unexpected_error);
    assert!(!step.remove);
    assert!(step.event.is_some());
}

#[test]
fn events_that_are_not_readable_do_nothing() {
    let (mut table, token) = table_with_one();
    let connection = table.remove_connection(token).unwrap();
    let step = table.settle(token, connection, (), None);
    assert!(step.event.is_none());
    assert!(!step.remove);
    assert_eq!(table.len(), 1);
}

#[test]
fn tokens_lists_every_connection() {
    let mut table: ConnectionTable<u8> = ConnectionTable::new();
    for i in 0..4u8 {
        let t = table.allocate_token();
        table.insert_connection(t, Connection::new(i));
    }
    table.remove_connection(2);
    let mut tokens = table.tokens();
    tokens.sort();
    assert_eq!(tokens, vec![1, 3, 4]);
    assert!(table.remove_connection(2).is_none());
}
