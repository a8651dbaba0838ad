use dbmazz::source::parser::{CdcMessage, Column, PgOutputParser, Tuple, TupleData};
use dbmazz::source::wire::ParseError;

fn be16(v: u16) -> Vec<u8> {
    v.to_be_bytes().to_vec()
}

fn be32(v: u32) -> Vec<u8> {
    v.to_be_bytes().to_vec()
}

fn be64(v: u64) -> Vec<u8> {
    v.to_be_bytes().to_vec()
}

fn cstr(s: &str) -> Vec<u8> {
    let mut out = s.as_bytes().to_vec();
    out.push(0);
    out
}

fn wire_value(v: &TupleData) -> Vec<u8> {
    match v {
        TupleData::Null => vec![b'n'],
        TupleData::Toast => vec![b'u'],
        TupleData::Text(bytes) => {
            let mut out = vec![b't'];
            out.extend(be32(bytes.len() as u32));
            out.extend(bytes.iter().copied());
            out
        }
    }
}

fn wire_tuple(t: &Tuple) -> Vec<u8> {
    let mut out = be16(t.len() as u16);
    for v in t.cols() {
        out.extend(wire_value(v));
    }
    out
}

fn wire_column(c: &Column) -> Vec<u8> {
    let mut out = vec![c.flags];
    out.extend(cstr(&c.name));
    out.extend(be32(c.pg_type_id));
    out.extend(c.type_mod.to_be_bytes());
    out
}

fn wire_message(m: &CdcMessage, namespace: &str) -> (u8, Vec<u8>) {
    match m {
        CdcMessage::Begin { final_lsn, commit_ts, xid } => {
            let mut out = be64(*final_lsn);
            out.extend(be64(*commit_ts));
            out.extend(be32(*xid));
            (b'B', out)
        }
        CdcMessage::Commit { commit_lsn, end_lsn, commit_ts } => {
            let mut out = vec![0u8];
            out.extend(be64(*commit_lsn));
            out.extend(be64(*end_lsn));
            out.extend(be64(*commit_ts));
            (b'C', out)
        }
        CdcMessage::Relation { relation_id, name, replica_identity, columns } => {
            let mut out = be32(*relation_id);
            out.extend(cstr(namespace));
            out.extend(cstr(name));
            out.push(*replica_identity);
            out.extend(be16(columns.len() as u16));
            for c in columns {
                out.extend(wire_column(c));
            }
            (b'R', out)
        }
        CdcMessage::Insert { relation_id, tuple } => {
            let mut out = be32(*relation_id);
            out.push(b'N');
            out.extend(wire_tuple(tuple));
            (b'I', out)
        }
        CdcMessage::Update { relation_id, old_tuple, new_tuple } => {
            let mut out = be32(*relation_id);
            if let Some(old) = old_tuple {
                out.push(b'O');
                out.extend(wire_tuple(old));
            }
            out.push(b'N');
            out.extend(wire_tuple(new_tuple));
            (b'U', out)
        }
        CdcMessage::Delete { relation_id, old_tuple } => {
            let mut out = be32(*relation_id);
            out.push(b'O');
            if let Some(old) = old_tuple {
                out.extend(wire_tuple(old));
            }
            (b'D', out)
        }
        CdcMessage::Truncate => (b'T', Vec::new()),
        CdcMessage::Origin => (b'O', Vec::new()),
        CdcMessage::Type => (b'Y', Vec::new()),
    }
}

fn text(s: &str) -> TupleData {
    TupleData::Text(s.as_bytes().to_vec())
}

fn sample_messages() -> Vec<CdcMessage> {
    vec![
        CdcMessage::Begin { final_lsn: 0x0102030405060708, commit_ts: 7, xid: 0xFFFF_FFFF },
        CdcMessage::Commit { commit_lsn: 1, end_lsn: u64::MAX, commit_ts: 0 },
        CdcMessage::Relation {
            relation_id: 16384,
            name: "orders".to_string(),
            replica_identity: b'f',
            columns: vec![
                Column { flags: 1, name: "id".to_string(), pg_type_id: 23, type_mod: -1 },
                Column { flags: 0, name: "añjo".to_string(), pg_type_id: 1700, type_mod: 655366 },
            ],
        },
        CdcMessage::Relation {
            relation_id: 1,
            name: String::new(),
            replica_identity: b'd',
            columns: Vec::new(),
        },
        CdcMessage::Insert { relation_id: 16384, tuple: Tuple::new(vec![text("42"), text("3.14")]) },
        CdcMessage::Update {
            relation_id: 16384,
            old_tuple: None,
            new_tuple: Tuple::new(vec![text("7"), TupleData::Toast, TupleData::Null]),
        },
        CdcMessage::Update {
            relation_id: 16384,
            old_tuple: Some(Tuple::new(vec![text("7"), text("")])),
            new_tuple: Tuple::new(vec![text("8"), text("x")]),
        },
        CdcMessage::Delete { relation_id: 5, old_tuple: Some(Tuple::new(vec![text("9")])) },
        CdcMessage::Truncate,
        CdcMessage::Origin,
        CdcMessage::Type,
    ]
}

#[test]
fn decoding_inverts_encoding_for_every_variant() {
    for message in sample_messages() {
        let (tag, body) = wire_message(&message, "public");
        assert_eq!(PgOutputParser::parse(tag, &body), Ok(Some(message.clone())));
        let mut longer = body.clone();
        longer.extend([1u8, 2, 3]);
        assert_eq!(PgOutputParser::parse(tag, &longer), Ok(Some(message)));
    }
}

#[test]
fn begin_is_read_field_by_field() {
    let body = [
        0, 0, 0, 0, 0, 0, 0x10, 0x00, // final LSN
        0, 0, 0, 0, 0, 0, 0, 9, // commit time
        0, 0, 1, 0, // xid
    ];
    assert_eq!(
        PgOutputParser::parse(b'B', &body),
        Ok(Some(CdcMessage::Begin { final_lsn: 0x1000, commit_ts: 9, xid: 256 }))
    );
}

#[test]
fn commit_drops_its_flags() {
    let mut body = vec![0xAB];
    body.extend(be64(10));
    body.extend(be64(20));
    body.extend(be64(30));
    assert_eq!(
        PgOutputParser::parse(b'C', &body),
        Ok(Some(CdcMessage::Commit { commit_lsn: 10, end_lsn: 20, commit_ts: 30 }))
    );
}

#[test]
fn relation_drops_its_namespace() {
    let message = CdcMessage::Relation {
        relation_id: 7,
        name: "orders".to_string(),
        replica_identity: b'f',
        columns: vec![Column { flags: 1, name: "id".to_string(), pg_type_id: 23, type_mod: -1 }],
    };
    let (tag, in_public) = wire_message(&message, "public");
    let (_, in_sales) = wire_message(&message, "sales");
    assert_ne!(in_public, in_sales);
    assert_eq!(PgOutputParser::parse(tag, &in_public), PgOutputParser::parse(tag, &in_sales));
}

#[test]
fn delete_takes_key_and_old_images() {
    let mut body = be32(5);
    body.push(b'K');
    body.extend(be16(1));
    body.extend([b't', 0, 0, 0, 1, b'9']);
    let expected =
        CdcMessage::Delete { relation_id: 5, old_tuple: Some(Tuple::new(vec![text("9")])) };
    assert_eq!(PgOutputParser::parse(b'D', &body), Ok(Some(expected.clone())));
    body[4] = b'O';
    assert_eq!(PgOutputParser::parse(b'D', &body), Ok(Some(expected)));
    body[4] = b'N';
    assert_eq!(PgOutputParser::parse(b'D', &body), Err(ParseError::BadMarker));
}

#[test]
fn update_with_key_image() {
    let mut body = be32(5);
    body.push(b'K');
    body.extend(be16(1));
    body.extend([b't', 0, 0, 0, 1, b'1']);
    body.push(b'N');
    body.extend(be16(2));
    body.extend([b't', 0, 0, 0, 1, b'1', b'u']);
    assert_eq!(
        PgOutputParser::parse(b'U', &body),
        Ok(Some(CdcMessage::Update {
            relation_id: 5,
            old_tuple: Some(Tuple::new(vec![text("1")])),
            new_tuple: Tuple::new(vec![text("1"), TupleData::Toast]),
        }))
    );
}

#[test]
fn unknown_type_is_no_message() {
    assert_eq!(PgOutputParser::parse(b'Z', &[1, 2, 3]), Ok(None));
    assert_eq!(PgOutputParser::parse(0, &[]), Ok(None));
}

#[test]
fn type_only_messages_ignore_their_body() {
    assert_eq!(PgOutputParser::parse(b'T', &[9, 9]), Ok(Some(CdcMessage::Truncate)));
    assert_eq!(PgOutputParser::parse(b'O', &[]), Ok(Some(CdcMessage::Origin)));
    assert_eq!(PgOutputParser::parse(b'Y', &[0]), Ok(Some(CdcMessage::Type)));
}

#[test]
fn truncated_payloads_are_errors() {
    for message in sample_messages() {
        let (tag, body) = wire_message(&message, "public");
        for cut in 0..body.len() {
            let r = PgOutputParser::parse(tag, &body[..cut]);
            assert!(r.is_err(), "tag {} cut at {} of {}: {:?}", tag, cut, body.len(), r);
        }
    }
    assert_eq!(PgOutputParser::parse(b'B', &[]), Err(ParseError::Truncated));
    let mut no_end = be32(1);
    no_end.extend(b"public");
    assert_eq!(PgOutputParser::parse(b'R', &no_end), Err(ParseError::Truncated));
}

#[test]
fn malformed_tuples_are_errors() {
    let mut insert = be32(1);
    insert.push(b'X');
    insert.extend(be16(0));
    assert_eq!(PgOutputParser::parse(b'I', &insert), Err(ParseError::BadMarker));

    let mut kind = be32(1);
    kind.push(b'N');
    kind.extend(be16(1));
    kind.push(b'b');
    assert_eq!(PgOutputParser::parse(b'I', &kind), Err(ParseError::BadColumnKind));

    let mut length = be32(1);
    length.push(b'N');
    length.extend(be16(1));
    length.push(b't');
    length.extend((-1i32).to_be_bytes());
    assert_eq!(PgOutputParser::parse(b'I', &length), Err(ParseError::BadLength));

    let mut short = be32(1);
    short.push(b'N');
    short.extend(be16(1));
    short.push(b't');
    short.extend(be32(5));
    short.extend(b"abcd");
    assert_eq!(PgOutputParser::parse(b'I', &short), Err(ParseError::Truncated));

    let mut update = be32(1);
    update.push(b'O');
    update.extend(be16(0));
    update.push(b'K');
    update.extend(be16(0));
    assert_eq!(PgOutputParser::parse(b'U', &update), Err(ParseError::BadMarker));
}

#[test]
fn ill_formed_names_are_read_lossily() {
    let mut body = be32(1);
    body.extend(cstr("public"));
    body.extend([b'a', 0xFF, b'b', 0]);
    body.push(b'd');
    body.extend(be16(0));
    assert_eq!(
        PgOutputParser::parse(b'R', &body),
        Ok(Some(CdcMessage::Relation {
            relation_id: 1,
            name: "a\u{FFFD}b".to_string(),
            replica_identity: b'd',
            columns: Vec::new(),
        }))
    );
}

#[test]
fn toast_bitmap_marks_the_unchanged_columns() {
    let t = Tuple::new(vec![text("1"), TupleData::Toast, TupleData::Null, TupleData::Toast]);
    assert_eq!(t.toast_bitmap(), 0b1010);
    assert!(t.has_toast());
    assert!(!t.is_toast_column(0));
    assert!(t.is_toast_column(1));
    assert!(!t.is_toast_column(2));
    assert!(t.is_toast_column(3));
    assert!(!t.is_toast_column(4));
    assert_eq!(t.len(), 4);
    assert_eq!(t.clone(), t);

    let full = Tuple::new(vec![text("1"), TupleData::Null]);
    assert_eq!(full.toast_bitmap(), 0);
    assert!(!full.has_toast());

    let mut wide: Vec<TupleData> = (0..70).map(|_| TupleData::Null).collect();
    wide[63] = TupleData::Toast;
    wide[64] = TupleData::Toast;
    let wide = Tuple::new(wide);
    assert_eq!(wide.toast_bitmap(), 1u64 << 63);
    assert!(wide.is_toast_column(63));
    assert!(!wide.is_toast_column(64));
}
