use bytes::Bytes;
use dbmazz::grpc::state::{CdcConfig, SharedState};
use dbmazz::pipeline::schema_cache::{SchemaCache, SchemaDelta};
use dbmazz::replication::wal_handler::{CdcEvent, XLogOutcome};
use dbmazz::replication::{
    handle_keepalive, handle_xlog_data, parse_replication_message, WalMessage,
};
use dbmazz::source::parser::{CdcMessage, Column};
use dbmazz::source::postgres::build_standby_status_update;
use dbmazz::source::wire::ParseError;

fn fresh_state() -> SharedState {
    SharedState::new(CdcConfig {
        flush_size: 4,
        flush_interval_ms: 5000,
        tables: vec!["orders".to_string()],
        slot_name: "dbmazz_slot".to_string(),
    })
}

fn xlog_frame(wal_end: u64, payload: &[u8]) -> Vec<u8> {
    let mut frame = vec![b'w'];
    frame.extend(0x11u64.to_be_bytes());
    frame.extend(wal_end.to_be_bytes());
    frame.extend(0x33u64.to_be_bytes());
    frame.extend_from_slice(payload);
    frame
}

#[test]
fn xlog_frame_gives_the_wal_end_and_the_payload() {
    let mut bytes = Bytes::from(xlog_frame(0x2000, b"Bxyz"));
    let message = parse_replication_message(&mut bytes);
    assert_eq!(
        message,
        Some(WalMessage::XLogData { lsn: 0x2000, data: Bytes::from_static(b"Bxyz") })
    );
    assert_eq!(&bytes[..], b"Bxyz");
}

#[test]
fn keepalive_frame_gives_the_wal_end_and_the_reply_flag() {
    let mut frame = vec![b'k'];
    frame.extend(0x0102030405060708u64.to_be_bytes());
    frame.extend(5u64.to_be_bytes());
    frame.push(1);
    let mut bytes = Bytes::from(frame.clone());
    assert_eq!(
        parse_replication_message(&mut bytes),
        Some(WalMessage::KeepAlive { lsn: 0x0102030405060708, reply_requested: true })
    );
    assert!(bytes.is_empty());

    frame[17] = 0;
    let mut bytes = Bytes::from(frame.clone());
    assert_eq!(
        parse_replication_message(&mut bytes),
        Some(WalMessage::KeepAlive { lsn: 0x0102030405060708, reply_requested: false })
    );
    frame[17] = 2;
    let mut bytes = Bytes::from(frame);
    assert_eq!(
        parse_replication_message(&mut bytes),
        Some(WalMessage::KeepAlive { lsn: 0x0102030405060708, reply_requested: false })
    );
}

#[test]
fn frames_cut_short_or_empty_give_nothing() {
    let mut empty = Bytes::new();
    assert_eq!(parse_replication_message(&mut empty), None);

    let mut short = Bytes::from(xlog_frame(1, b"")[..24].to_vec());
    assert_eq!(parse_replication_message(&mut short), None);
    assert_eq!(short.len(), 23);

    let mut header_only = Bytes::from(xlog_frame(9, b""));
    assert_eq!(
        parse_replication_message(&mut header_only),
        Some(WalMessage::XLogData { lsn: 9, data: Bytes::new() })
    );

    let mut keepalive = Bytes::from(vec![b'k'; 17]);
    assert_eq!(parse_replication_message(&mut keepalive), None);
}

#[test]
fn unknown_tag_is_reported_and_does_not_end_the_stream() {
    let mut bytes = Bytes::from_static(b"zrest");
    assert_eq!(parse_replication_message(&mut bytes), Some(WalMessage::Unknown(b'z')));
    assert_eq!(&bytes[..], b"rest");
}

fn relation_payload(columns: &[&str]) -> Vec<u8> {
    let mut payload = vec![b'R'];
    payload.extend(7u32.to_be_bytes());
    payload.extend(b"public\0orders\0");
    payload.push(b'f');
    payload.extend((columns.len() as u16).to_be_bytes());
    for name in columns {
        payload.push(0);
        payload.extend(name.as_bytes());
        payload.push(0);
        payload.extend(23u32.to_be_bytes());
        payload.extend((-1i32).to_be_bytes());
    }
    payload
}

fn insert_payload(values: &[&str]) -> Vec<u8> {
    let mut payload = vec![b'I'];
    payload.extend(7u32.to_be_bytes());
    payload.push(b'N');
    payload.extend((values.len() as u16).to_be_bytes());
    for value in values {
        payload.push(b't');
        payload.extend((value.len() as u32).to_be_bytes());
        payload.extend(value.as_bytes());
    }
    payload
}

#[test]
fn xlog_data_with_a_message_is_forwarded_and_counted() {
    let mut state = fresh_state();
    let mut cache = SchemaCache::new();
    let mut payload = vec![b'B'];
    payload.extend(0x1000u64.to_be_bytes());
    payload.extend(1u64.to_be_bytes());
    payload.extend(77u32.to_be_bytes());
    let outcome = handle_xlog_data(&Bytes::from(payload), 0x1000, 5, &mut state, 4, &mut cache);
    assert_eq!(
        outcome,
        XLogOutcome::Forward {
            event: CdcEvent {
                lsn: 0x1000,
                message: CdcMessage::Begin { final_lsn: 0x1000, commit_ts: 1, xid: 77 },
            },
            delta: None,
        }
    );
    assert_eq!(state.get_current_lsn(), 0x1000);
    assert_eq!(state.get_events_processed(), 1);
    assert_eq!(state.get_pending_events(), 3);
}

#[test]
fn full_channel_does_not_drop_the_event() {
    let mut state = fresh_state();
    let mut cache = SchemaCache::new();
    let outcome = handle_xlog_data(&Bytes::from_static(b"T"), 7, 0, &mut state, 4, &mut cache);
    assert_eq!(
        outcome,
        XLogOutcome::Forward {
            event: CdcEvent { lsn: 7, message: CdcMessage::Truncate },
            delta: None,
        }
    );
    assert_eq!(state.get_pending_events(), 8);
}

#[test]
fn xlog_data_without_a_message_only_moves_the_lsn() {
    let mut state = fresh_state();
    let mut cache = SchemaCache::new();
    assert_eq!(
        handle_xlog_data(&Bytes::new(), 10, 8, &mut state, 4, &mut cache),
        XLogOutcome::Nothing
    );
    assert_eq!(state.get_current_lsn(), 10);
    assert_eq!(
        handle_xlog_data(&Bytes::from_static(b"?"), 11, 8, &mut state, 4, &mut cache),
        XLogOutcome::Nothing
    );
    assert_eq!(
        handle_xlog_data(&Bytes::from_static(b"B\x00"), 12, 8, &mut state, 4, &mut cache),
        XLogOutcome::Malformed(ParseError::Truncated)
    );
    assert_eq!(state.get_current_lsn(), 12);
    assert_eq!(state.get_events_processed(), 0);
    assert_eq!(state.get_pending_events(), 0);
}

#[test]
fn relation_is_cached_and_its_new_columns_are_reported() {
    let mut state = fresh_state();
    let mut cache = SchemaCache::new();
    let first = handle_xlog_data(
        &Bytes::from(relation_payload(&["id"])),
        1,
        8,
        &mut state,
        4,
        &mut cache,
    );
    assert!(matches!(first, XLogOutcome::Forward { delta: None, .. }));
    assert_eq!(cache.get(7).unwrap().name, "orders");
    assert_eq!(cache.get(7).unwrap().columns.len(), 1);
    let second = handle_xlog_data(
        &Bytes::from(relation_payload(&["id", "email"])),
        2,
        8,
        &mut state,
        4,
        &mut cache,
    );
    match second {
        XLogOutcome::Forward { delta, .. } => assert_eq!(
            delta,
            Some(SchemaDelta {
                table_name: "orders".to_string(),
                added_columns: vec![Column {
                    flags: 0,
                    name: "email".to_string(),
                    pg_type_id: 23,
                    type_mod: -1,
                }],
            })
        ),
        other => panic!("expected the relation to be forwarded, got {:?}", other),
    }
    assert_eq!(cache.get(7).unwrap().columns.len(), 2);
}

#[test]
fn tuple_of_the_wrong_arity_is_a_protocol_mismatch() {
    let mut state = fresh_state();
    let mut cache = SchemaCache::new();
    handle_xlog_data(&Bytes::from(relation_payload(&["id", "n"])), 1, 8, &mut state, 4, &mut cache);
    let counted = state.get_events_processed();
    let short = handle_xlog_data(
        &Bytes::from(insert_payload(&["1"])),
        2,
        8,
        &mut state,
        4,
        &mut cache,
    );
    assert_eq!(short, XLogOutcome::Malformed(ParseError::ProtocolMismatch));
    assert_eq!(state.get_events_processed(), counted);
    assert_eq!(state.get_current_lsn(), 2);
    let fitting = handle_xlog_data(
        &Bytes::from(insert_payload(&["1", "2"])),
        3,
        8,
        &mut state,
        4,
        &mut cache,
    );
    assert!(matches!(fitting, XLogOutcome::Forward { .. }));
    let mut unseen = SchemaCache::new();
    let unknown = handle_xlog_data(
        &Bytes::from(insert_payload(&["1"])),
        4,
        8,
        &mut state,
        4,
        &mut unseen,
    );
    assert!(matches!(unknown, XLogOutcome::Forward { .. }));
}

#[test]
fn standby_status_frame_has_the_expected_34_bytes() {
    let frame = build_standby_status_update(0x0000_0001_0000_2000, 0x0102_0304_0506_0708);
    let expected: Vec<u8> = vec![
        b'r', //
        0, 0, 0, 1, 0, 0, 0x20, 0, // written
        0, 0, 0, 1, 0, 0, 0x20, 0, // flushed
        0, 0, 0, 1, 0, 0, 0x20, 0, // applied
        1, 2, 3, 4, 5, 6, 7, 8, // time
        0, // no reply asked for
    ];
    assert_eq!(frame.len(), 34);
    assert_eq!(frame, expected);
    assert_eq!(build_standby_status_update(u64::MAX, 0)[1..25], [0xFF; 24]);
}

#[test]
fn keepalive_is_answered_only_when_asked() {
    assert_eq!(handle_keepalive(5, false, 1), None);
    assert_eq!(handle_keepalive(5, true, 1), Some(build_standby_status_update(5, 1)));
}
