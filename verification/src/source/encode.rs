//! The wire form of each message, and the proof that decoding inverts it.

use crate::source::parser::{
    parse_begin, parse_column, parse_columns, parse_commit, parse_delete, parse_insert,
    parse_message, parse_relation, parse_relation_columns, parse_tuple, parse_update,
    parse_update_new, parse_value, parse_values, CdcMessageView, ColumnView, TupleDataView,
    KIND_NULL, KIND_TEXT, KIND_UNCHANGED, MARKER_NEW, MARKER_OLD, TAG_BEGIN, TAG_COMMIT, TAG_DELETE,
    TAG_INSERT, TAG_ORIGIN, TAG_RELATION, TAG_TRUNCATE, TAG_TYPE, TAG_UPDATE,
};
use crate::source::wire::{
    be_bytes, lemma_be_round_trip, lemma_pow256_values, take_cstr, take_i32, take_u16, take_u32,
    take_u64, take_u8, unsigned32, ParseError,
};
use crate::text::{lemma_position_is, text_of_utf8};
use vstd::prelude::*;
use vstd::utf8::{
    char_is_scalar, encode_scalar, encode_utf8, encode_utf8_decode_utf8, encode_utf8_valid_utf8,
};

verus! {

/// The wire form of one column value.
pub open spec fn encode_value(v: TupleDataView) -> Seq<u8> {
    match v {
        TupleDataView::Null => seq![KIND_NULL],
        TupleDataView::Toast => seq![KIND_UNCHANGED],
        TupleDataView::Text(bytes) => seq![KIND_TEXT] + be_bytes(bytes.len(), 4) + bytes,
    }
}

/// The wire form of column values, one after the other.
pub open spec fn encode_values(values: Seq<TupleDataView>) -> Seq<u8>
    decreases values.len(),
{
    if values.len() == 0 {
        Seq::empty()
    } else {
        encode_value(values[0]) + encode_values(values.drop_first())
    }
}

/// The wire form of a row image.
pub open spec fn encode_tuple(values: Seq<TupleDataView>) -> Seq<u8> {
    be_bytes(values.len(), 2) + encode_values(values)
}

/// The wire form of a string: its UTF-8 bytes and a zero byte.
pub open spec fn encode_cstr(text: Seq<char>) -> Seq<u8> {
    encode_utf8(text).push(0u8)
}

/// The wire form of one column of a relation.
pub open spec fn encode_column(c: ColumnView) -> Seq<u8> {
    seq![c.flags] + encode_cstr(c.name) + be_bytes(c.pg_type_id as nat, 4) + be_bytes(
        unsigned32(c.type_mod as int),
        4,
    )
}

/// The wire form of the columns of a relation, one after the other.
pub open spec fn encode_columns(columns: Seq<ColumnView>) -> Seq<u8>
    decreases columns.len(),
{
    if columns.len() == 0 {
        Seq::empty()
    } else {
        encode_column(columns[0]) + encode_columns(columns.drop_first())
    }
}

/// The type byte of a message.
pub open spec fn message_tag(m: CdcMessageView) -> u8 {
    match m {
        CdcMessageView::Begin { .. } => TAG_BEGIN,
        CdcMessageView::Commit { .. } => TAG_COMMIT,
        CdcMessageView::Relation { .. } => TAG_RELATION,
        CdcMessageView::Insert { .. } => TAG_INSERT,
        CdcMessageView::Update { .. } => TAG_UPDATE,
        CdcMessageView::Delete { .. } => TAG_DELETE,
        CdcMessageView::Truncate => TAG_TRUNCATE,
        CdcMessageView::Origin => TAG_ORIGIN,
        CdcMessageView::Type => TAG_TYPE,
    }
}

/// The bytes after the type byte. A relation is written in `namespace`; a
/// commit is written with flags 0; an old image is written after the marker
/// `O`; truncations, origins and type descriptions are written without a
/// body.
pub open spec fn encode_body(m: CdcMessageView, namespace: Seq<char>) -> Seq<u8> {
    match m {
        CdcMessageView::Begin { final_lsn, commit_ts, xid } => be_bytes(final_lsn as nat, 8)
            + be_bytes(commit_ts as nat, 8) + be_bytes(xid as nat, 4),
        CdcMessageView::Commit { commit_lsn, end_lsn, commit_ts } => seq![0u8] + be_bytes(
            commit_lsn as nat,
            8,
        ) + be_bytes(end_lsn as nat, 8) + be_bytes(commit_ts as nat, 8),
        CdcMessageView::Relation { relation_id, name, replica_identity, columns } => be_bytes(
            relation_id as nat,
            4,
        ) + encode_cstr(namespace) + encode_cstr(name) + seq![replica_identity] + be_bytes(
            columns.len(),
            2,
        ) + encode_columns(columns),
        CdcMessageView::Insert { relation_id, tuple } => be_bytes(relation_id as nat, 4)
            + seq![MARKER_NEW] + encode_tuple(tuple),
        CdcMessageView::Update { relation_id, old_tuple, new_tuple } => be_bytes(
            relation_id as nat,
            4,
        ) + (match old_tuple {
            Some(old) => seq![MARKER_OLD] + encode_tuple(old),
            None => Seq::empty(),
        }) + seq![MARKER_NEW] + encode_tuple(new_tuple),
        CdcMessageView::Delete { relation_id, old_tuple } => be_bytes(relation_id as nat, 4)
            + seq![MARKER_OLD] + (match old_tuple {
            Some(old) => encode_tuple(old),
            None => Seq::empty(),
        }),
        _ => Seq::empty(),
    }
}

/// Whether a text has no NUL character, so that it can be written as a
/// zero-ended string.
pub open spec fn no_nul(text: Seq<char>) -> bool {
    forall|i: int| 0 <= i < text.len() ==> text[i] != '\0'
}

/// Whether a row image has a wire form: at most 65535 values, each text of
/// at most 2^31 - 1 bytes.
pub open spec fn tuple_encodable(values: Seq<TupleDataView>) -> bool {
    &&& values.len() <= u16::MAX
    &&& forall|i: int|
        0 <= i < values.len() ==> (#[trigger] values[i] matches TupleDataView::Text(bytes)
            ==> bytes.len() <= i32::MAX)
}

/// Whether a message has a wire form that says all of it: its row images
/// and column list fit their length fields, its names have no NUL
/// character, and a deletion carries its old image.
pub open spec fn encodable(m: CdcMessageView) -> bool {
    match m {
        CdcMessageView::Relation { name, columns, .. } => {
            &&& no_nul(name)
            &&& columns.len() <= u16::MAX
            &&& forall|i: int| 0 <= i < columns.len() ==> no_nul(#[trigger] columns[i].name)
        },
        CdcMessageView::Insert { tuple, .. } => tuple_encodable(tuple),
        CdcMessageView::Update { old_tuple, new_tuple, .. } => {
            &&& tuple_encodable(new_tuple)
            &&& old_tuple matches Some(old) ==> tuple_encodable(old)
        },
        CdcMessageView::Delete { old_tuple, .. } => old_tuple matches Some(old)
            && tuple_encodable(old),
        _ => true,
    }
}

proof fn lemma_take_u8(b: u8, rest: Seq<u8>)
    ensures
        take_u8(seq![b] + rest) == Ok::<(u8, Seq<u8>), ParseError>((b, rest)),
{
    assert((seq![b] + rest).skip(1) == rest);
}

proof fn lemma_take_u16(v: u16, rest: Seq<u8>)
    ensures
        take_u16(be_bytes(v as nat, 2) + rest) == Ok::<(u16, Seq<u8>), ParseError>((v, rest)),
{
    lemma_pow256_values();
    lemma_be_round_trip(v as nat, 2);
    let s = be_bytes(v as nat, 2) + rest;
    assert(s.take(2) == be_bytes(v as nat, 2));
    assert(s.skip(2) == rest);
}

proof fn lemma_take_u32(v: u32, rest: Seq<u8>)
    ensures
        take_u32(be_bytes(v as nat, 4) + rest) == Ok::<(u32, Seq<u8>), ParseError>((v, rest)),
{
    lemma_pow256_values();
    lemma_be_round_trip(v as nat, 4);
    let s = be_bytes(v as nat, 4) + rest;
    assert(s.take(4) == be_bytes(v as nat, 4));
    assert(s.skip(4) == rest);
}

proof fn lemma_take_i32(v: i32, rest: Seq<u8>)
    ensures
        take_i32(be_bytes(unsigned32(v as int), 4) + rest) == Ok::<(i32, Seq<u8>), ParseError>((v, rest)),
{
    lemma_pow256_values();
    lemma_be_round_trip(unsigned32(v as int), 4);
    let s = be_bytes(unsigned32(v as int), 4) + rest;
    assert(s.take(4) == be_bytes(unsigned32(v as int), 4));
    assert(s.skip(4) == rest);
}

proof fn lemma_take_u64(v: u64, rest: Seq<u8>)
    ensures
        take_u64(be_bytes(v as nat, 8) + rest) == Ok::<(u64, Seq<u8>), ParseError>((v, rest)),
{
    lemma_pow256_values();
    lemma_be_round_trip(v as nat, 8);
    let s = be_bytes(v as nat, 8) + rest;
    assert(s.take(8) == be_bytes(v as nat, 8));
    assert(s.skip(8) == rest);
}

proof fn lemma_scalar_bytes_nonzero(c: u32)
    by (bit_vector)
    requires
        c != 0,
        c <= 0x10FFFF,
    ensures
        c <= 0x7F ==> (c & 0x7F) as u8 != 0,
        0xC0u8 | ((c >> 6) & 0x1F) as u8 != 0,
        0xE0u8 | ((c >> 12) & 0x0F) as u8 != 0,
        0xF0u8 | ((c >> 18) & 0x7) as u8 != 0,
        0x80u8 | (c & 0x3F) as u8 != 0,
        0x80u8 | ((c >> 6) & 0x3F) as u8 != 0,
        0x80u8 | ((c >> 12) & 0x3F) as u8 != 0,
{
}

/// The UTF-8 bytes of a text without NUL hold no zero byte.
pub proof fn lemma_utf8_without_zero(text: Seq<char>)
    requires
        no_nul(text),
    ensures
        forall|i: int| 0 <= i < encode_utf8(text).len() ==> encode_utf8(text)[i] != 0u8,
    decreases text.len(),
{
    if text.len() > 0 {
        let c = text[0] as u32;
        let head = encode_scalar(c);
        let tail = text.drop_first();
        assert(no_nul(tail)) by {
            assert forall|i: int| 0 <= i < tail.len() implies tail[i] != '\0' by {
                assert(tail[i] == text[i + 1]);
            }
        }
        lemma_utf8_without_zero(tail);
        char_is_scalar(text[0]);
        assert(text[0] != '\0');
        assert(c != 0) by {
            vstd::utf8::char_u32_cast(text[0], c);
            assert(0u32 as char == '\0');
        }
        lemma_scalar_bytes_nonzero(c);
        assert forall|i: int| 0 <= i < encode_utf8(text).len() implies encode_utf8(text)[i]
            != 0u8 by {
            if i < head.len() {
                assert(encode_utf8(text)[i] == head[i]);
            } else {
                assert(encode_utf8(text)[i] == encode_utf8(tail)[i - head.len()]);
            }
        }
    }
}

proof fn lemma_take_cstr(text: Seq<char>, rest: Seq<u8>)
    requires
        no_nul(text),
    ensures
        take_cstr(encode_cstr(text) + rest) == Ok::<(Seq<u8>, Seq<u8>), ParseError>(
            (encode_utf8(text), rest),
        ),
        text_of_utf8(encode_utf8(text)) == text,
{
    let bytes = encode_utf8(text);
    let s = encode_cstr(text) + rest;
    lemma_utf8_without_zero(text);
    assert forall|j: int| 0 <= j < bytes.len() implies s[j] != 0u8 by {
        assert(s[j] == bytes[j]);
    }
    assert(s[bytes.len() as int] == 0u8);
    lemma_position_is(s, 0u8, bytes.len() as int);
    assert(s.take(bytes.len() as int) == bytes);
    assert(s.skip(bytes.len() as int + 1) == rest);
    encode_utf8_valid_utf8(text);
    encode_utf8_decode_utf8(text);
}

proof fn lemma_parse_value(v: TupleDataView, rest: Seq<u8>)
    requires
        v matches TupleDataView::Text(bytes) ==> bytes.len() <= i32::MAX,
    ensures
        parse_value(encode_value(v) + rest) == Ok::<(TupleDataView, Seq<u8>), ParseError>((v, rest)),
{
    match v {
        TupleDataView::Null => {
            lemma_take_u8(KIND_NULL, rest);
        },
        TupleDataView::Toast => {
            lemma_take_u8(KIND_UNCHANGED, rest);
        },
        TupleDataView::Text(bytes) => {
            let len = bytes.len() as i32;
            let after_kind = be_bytes(bytes.len(), 4) + (bytes + rest);
            assert(encode_value(v) + rest == seq![KIND_TEXT] + after_kind);
            lemma_take_u8(KIND_TEXT, after_kind);
            assert(unsigned32(len as int) == bytes.len());
            lemma_take_i32(len, bytes + rest);
            assert((bytes + rest).take(bytes.len() as int) == bytes);
            assert((bytes + rest).skip(bytes.len() as int) == rest);
        },
    }
}

proof fn lemma_parse_values(values: Seq<TupleDataView>, rest: Seq<u8>)
    requires
        forall|i: int|
            0 <= i < values.len() ==> (#[trigger] values[i] matches TupleDataView::Text(bytes)
                ==> bytes.len() <= i32::MAX),
    ensures
        parse_values(encode_values(values) + rest, values.len()) == Ok::<
            (Seq<TupleDataView>, Seq<u8>), ParseError>((values, rest)),
    decreases values.len(),
{
    if values.len() > 0 {
        let tail = values.drop_first();
        let after = encode_values(tail) + rest;
        assert(encode_values(values) + rest == encode_value(values[0]) + after);
        assert(values[0] matches TupleDataView::Text(bytes) ==> bytes.len() <= i32::MAX);
        lemma_parse_value(values[0], after);
        assert forall|i: int| 0 <= i < tail.len() implies (#[trigger] tail[i] matches TupleDataView::Text(
            bytes,
        ) ==> bytes.len() <= i32::MAX) by {
            assert(tail[i] == values[i + 1]);
        }
        lemma_parse_values(tail, rest);
        assert(seq![values[0]] + tail == values);
    } else {
        assert(encode_values(values) + rest == rest);
        assert(values == Seq::<TupleDataView>::empty());
    }
}

proof fn lemma_parse_tuple(values: Seq<TupleDataView>, rest: Seq<u8>)
    requires
        tuple_encodable(values),
    ensures
        parse_tuple(encode_tuple(values) + rest) == Ok::<(Seq<TupleDataView>, Seq<u8>), ParseError>(
            (values, rest),
        ),
{
    let after = encode_values(values) + rest;
    assert(encode_tuple(values) + rest == be_bytes(values.len(), 2) + after);
    lemma_take_u16(values.len() as u16, after);
    lemma_parse_values(values, rest);
}

proof fn lemma_parse_column(c: ColumnView, rest: Seq<u8>)
    requires
        no_nul(c.name),
    ensures
        parse_column(encode_column(c) + rest) == Ok::<(ColumnView, Seq<u8>), ParseError>((c, rest)),
{
    let after_mod = rest;
    let after_type = be_bytes(unsigned32(c.type_mod as int), 4) + after_mod;
    let after_name = be_bytes(c.pg_type_id as nat, 4) + after_type;
    let after_flags = encode_cstr(c.name) + after_name;
    assert(encode_column(c) + rest == seq![c.flags] + after_flags);
    lemma_take_u8(c.flags, after_flags);
    lemma_take_cstr(c.name, after_name);
    lemma_take_u32(c.pg_type_id, after_type);
    lemma_take_i32(c.type_mod, after_mod);
}

proof fn lemma_parse_columns(columns: Seq<ColumnView>, rest: Seq<u8>)
    requires
        forall|i: int| 0 <= i < columns.len() ==> no_nul(#[trigger] columns[i].name),
    ensures
        parse_columns(encode_columns(columns) + rest, columns.len()) == Ok::<
            (Seq<ColumnView>, Seq<u8>), ParseError>((columns, rest)),
    decreases columns.len(),
{
    if columns.len() > 0 {
        let tail = columns.drop_first();
        let after = encode_columns(tail) + rest;
        assert(encode_columns(columns) + rest == encode_column(columns[0]) + after);
        assert(no_nul(columns[0].name));
        lemma_parse_column(columns[0], after);
        assert forall|i: int| 0 <= i < tail.len() implies no_nul(#[trigger] tail[i].name) by {
            assert(tail[i] == columns[i + 1]);
        }
        lemma_parse_columns(tail, rest);
        assert(seq![columns[0]] + tail == columns);
    } else {
        assert(encode_columns(columns) + rest == rest);
        assert(columns == Seq::<ColumnView>::empty());
    }
}

proof fn lemma_begin(final_lsn: u64, commit_ts: u64, xid: u32, trailing: Seq<u8>)
    ensures
        parse_begin(
            be_bytes(final_lsn as nat, 8) + be_bytes(commit_ts as nat, 8) + be_bytes(xid as nat, 4)
                + trailing,
        ) == Ok::<CdcMessageView, ParseError>(CdcMessageView::Begin { final_lsn, commit_ts, xid }),
{
    let rest2 = be_bytes(xid as nat, 4) + trailing;
    let rest1 = be_bytes(commit_ts as nat, 8) + rest2;
    assert(be_bytes(final_lsn as nat, 8) + be_bytes(commit_ts as nat, 8) + be_bytes(xid as nat, 4)
        + trailing == be_bytes(final_lsn as nat, 8) + rest1);
    lemma_take_u64(final_lsn, rest1);
    lemma_take_u64(commit_ts, rest2);
    lemma_take_u32(xid, trailing);
}

proof fn lemma_commit(commit_lsn: u64, end_lsn: u64, commit_ts: u64, trailing: Seq<u8>)
    ensures
        parse_commit(
            seq![0u8] + be_bytes(commit_lsn as nat, 8) + be_bytes(end_lsn as nat, 8) + be_bytes(
                commit_ts as nat,
                8,
            ) + trailing,
        ) == Ok::<CdcMessageView, ParseError>(CdcMessageView::Commit { commit_lsn, end_lsn, commit_ts }),
{
    let rest2 = be_bytes(commit_ts as nat, 8) + trailing;
    let rest1 = be_bytes(end_lsn as nat, 8) + rest2;
    let rest0 = be_bytes(commit_lsn as nat, 8) + rest1;
    assert(seq![0u8] + be_bytes(commit_lsn as nat, 8) + be_bytes(end_lsn as nat, 8) + be_bytes(
        commit_ts as nat,
        8,
    ) + trailing == seq![0u8] + rest0);
    lemma_take_u8(0u8, rest0);
    lemma_take_u64(commit_lsn, rest1);
    lemma_take_u64(end_lsn, rest2);
    lemma_take_u64(commit_ts, trailing);
}

proof fn lemma_relation_columns(
    relation_id: u32,
    name: Seq<char>,
    replica_identity: u8,
    columns: Seq<ColumnView>,
    trailing: Seq<u8>,
)
    requires
        no_nul(name),
        columns.len() <= u16::MAX,
        forall|i: int| 0 <= i < columns.len() ==> no_nul(#[trigger] columns[i].name),
    ensures
        parse_relation_columns(
            relation_id,
            encode_utf8(name),
            seq![replica_identity] + (be_bytes(columns.len(), 2) + (encode_columns(columns)
                + trailing)),
        ) == Ok::<CdcMessageView, ParseError>(
            CdcMessageView::Relation { relation_id, name, replica_identity, columns },
        ),
{
    let after_count = encode_columns(columns) + trailing;
    let after_identity = be_bytes(columns.len(), 2) + after_count;
    lemma_take_u8(replica_identity, after_identity);
    lemma_take_u16(columns.len() as u16, after_count);
    lemma_parse_columns(columns, trailing);
    encode_utf8_valid_utf8(name);
    encode_utf8_decode_utf8(name);
}

proof fn lemma_relation(
    relation_id: u32,
    namespace: Seq<char>,
    name: Seq<char>,
    replica_identity: u8,
    columns: Seq<ColumnView>,
    trailing: Seq<u8>,
)
    requires
        no_nul(namespace),
        no_nul(name),
        columns.len() <= u16::MAX,
        forall|i: int| 0 <= i < columns.len() ==> no_nul(#[trigger] columns[i].name),
    ensures
        parse_relation(
            be_bytes(relation_id as nat, 4) + encode_cstr(namespace) + encode_cstr(name)
                + seq![replica_identity] + be_bytes(columns.len(), 2) + encode_columns(columns)
                + trailing,
        ) == Ok::<CdcMessageView, ParseError>(
            CdcMessageView::Relation { relation_id, name, replica_identity, columns },
        ),
{
    let after_name = seq![replica_identity] + (be_bytes(columns.len(), 2) + (encode_columns(
        columns,
    ) + trailing));
    let after_namespace = encode_cstr(name) + after_name;
    let after_id = encode_cstr(namespace) + after_namespace;
    assert(be_bytes(relation_id as nat, 4) + encode_cstr(namespace) + encode_cstr(name)
        + seq![replica_identity] + be_bytes(columns.len(), 2) + encode_columns(columns) + trailing
        == be_bytes(relation_id as nat, 4) + after_id);
    lemma_take_u32(relation_id, after_id);
    lemma_take_cstr(namespace, after_namespace);
    lemma_take_cstr(name, after_name);
    lemma_relation_columns(relation_id, name, replica_identity, columns, trailing);
}

proof fn lemma_insert(relation_id: u32, tuple: Seq<TupleDataView>, trailing: Seq<u8>)
    requires
        tuple_encodable(tuple),
    ensures
        parse_insert(
            be_bytes(relation_id as nat, 4) + seq![MARKER_NEW] + encode_tuple(tuple) + trailing,
        ) == Ok::<CdcMessageView, ParseError>(CdcMessageView::Insert { relation_id, tuple }),
{
    let rest2 = encode_tuple(tuple) + trailing;
    let rest1 = seq![MARKER_NEW] + rest2;
    assert(be_bytes(relation_id as nat, 4) + seq![MARKER_NEW] + encode_tuple(tuple) + trailing
        == be_bytes(relation_id as nat, 4) + rest1);
    lemma_take_u32(relation_id, rest1);
    lemma_take_u8(MARKER_NEW, rest2);
    lemma_parse_tuple(tuple, trailing);
}

proof fn lemma_update_new(
    relation_id: u32,
    old_tuple: Option<Seq<TupleDataView>>,
    new_tuple: Seq<TupleDataView>,
    trailing: Seq<u8>,
)
    requires
        tuple_encodable(new_tuple),
    ensures
        parse_update_new(
            relation_id,
            old_tuple,
            seq![MARKER_NEW] + (encode_tuple(new_tuple) + trailing),
        ) == Ok::<CdcMessageView, ParseError>(CdcMessageView::Update { relation_id, old_tuple, new_tuple }),
{
    lemma_take_u8(MARKER_NEW, encode_tuple(new_tuple) + trailing);
    lemma_parse_tuple(new_tuple, trailing);
}

proof fn lemma_update_with_old(
    relation_id: u32,
    old: Seq<TupleDataView>,
    new_tuple: Seq<TupleDataView>,
    trailing: Seq<u8>,
)
    requires
        tuple_encodable(old),
        tuple_encodable(new_tuple),
    ensures
        parse_update(
            be_bytes(relation_id as nat, 4) + (seq![MARKER_OLD] + encode_tuple(old))
                + seq![MARKER_NEW] + encode_tuple(new_tuple) + trailing,
        ) == Ok::<CdcMessageView, ParseError>(
            CdcMessageView::Update { relation_id, old_tuple: Some(old), new_tuple },
        ),
{
    let new_part = seq![MARKER_NEW] + (encode_tuple(new_tuple) + trailing);
    let rest2 = encode_tuple(old) + new_part;
    let rest1 = seq![MARKER_OLD] + rest2;
    assert(be_bytes(relation_id as nat, 4) + (seq![MARKER_OLD] + encode_tuple(old))
        + seq![MARKER_NEW] + encode_tuple(new_tuple) + trailing == be_bytes(relation_id as nat, 4)
        + rest1);
    lemma_take_u32(relation_id, rest1);
    lemma_take_u8(MARKER_OLD, rest2);
    lemma_parse_tuple(old, new_part);
    lemma_update_new(relation_id, Some(old), new_tuple, trailing);
}

proof fn lemma_update_without_old(
    relation_id: u32,
    new_tuple: Seq<TupleDataView>,
    trailing: Seq<u8>,
)
    requires
        tuple_encodable(new_tuple),
    ensures
        parse_update(
            be_bytes(relation_id as nat, 4) + Seq::<u8>::empty() + seq![MARKER_NEW] + encode_tuple(
                new_tuple,
            ) + trailing,
        ) == Ok::<CdcMessageView, ParseError>(
            CdcMessageView::Update { relation_id, old_tuple: None, new_tuple },
        ),
{
    let new_part = seq![MARKER_NEW] + (encode_tuple(new_tuple) + trailing);
    assert(be_bytes(relation_id as nat, 4) + Seq::<u8>::empty() + seq![MARKER_NEW] + encode_tuple(
        new_tuple,
    ) + trailing == be_bytes(relation_id as nat, 4) + new_part);
    lemma_take_u32(relation_id, new_part);
    lemma_take_u8(MARKER_NEW, encode_tuple(new_tuple) + trailing);
    lemma_update_new(relation_id, None, new_tuple, trailing);
}

proof fn lemma_delete(relation_id: u32, old: Seq<TupleDataView>, trailing: Seq<u8>)
    requires
        tuple_encodable(old),
    ensures
        parse_delete(
            be_bytes(relation_id as nat, 4) + seq![MARKER_OLD] + encode_tuple(old) + trailing,
        ) == Ok::<CdcMessageView, ParseError>(
            CdcMessageView::Delete { relation_id, old_tuple: Some(old) },
        ),
{
    let rest2 = encode_tuple(old) + trailing;
    let rest1 = seq![MARKER_OLD] + rest2;
    assert(be_bytes(relation_id as nat, 4) + seq![MARKER_OLD] + encode_tuple(old) + trailing
        == be_bytes(relation_id as nat, 4) + rest1);
    lemma_take_u32(relation_id, rest1);
    lemma_take_u8(MARKER_OLD, rest2);
    lemma_parse_tuple(old, trailing);
}

/// Decoding inverts encoding: the wire form of a message, written in any
/// namespace and followed by any bytes, decodes to that message. This holds
/// of every message that has a wire form which says all of it.
pub proof fn lemma_decode_inverts_encode(
    m: CdcMessageView,
    namespace: Seq<char>,
    trailing: Seq<u8>,
)
    requires
        encodable(m),
        no_nul(namespace),
    ensures
        parse_message(message_tag(m), encode_body(m, namespace) + trailing) == Ok::<
            Option<CdcMessageView>, ParseError>(Some(m)),
{
    match m {
        CdcMessageView::Begin { final_lsn, commit_ts, xid } => {
            lemma_begin(final_lsn, commit_ts, xid, trailing);
        },
        CdcMessageView::Commit { commit_lsn, end_lsn, commit_ts } => {
            lemma_commit(commit_lsn, end_lsn, commit_ts, trailing);
        },
        CdcMessageView::Relation { relation_id, name, replica_identity, columns } => {
            lemma_relation(relation_id, namespace, name, replica_identity, columns, trailing);
        },
        CdcMessageView::Insert { relation_id, tuple } => {
            lemma_insert(relation_id, tuple, trailing);
        },
        CdcMessageView::Update { relation_id, old_tuple, new_tuple } => match old_tuple {
            Some(old) => {
                lemma_update_with_old(relation_id, old, new_tuple, trailing);
            },
            None => {
                lemma_update_without_old(relation_id, new_tuple, trailing);
            },
        },
        CdcMessageView::Delete { relation_id, old_tuple } => {
            lemma_delete(relation_id, old_tuple->0, trailing);
        },
        _ => {},
    }
}

} // verus!
