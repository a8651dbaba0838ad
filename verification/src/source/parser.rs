//! The messages of the `pgoutput` logical decoding plugin: their data model,
//! the grammar of their wire form, the decoder, and the encoder that the
//! decoder inverts.

use crate::source::wire::{
    read_bytes, read_cstr, read_i32, read_u16, read_u32, read_u64, read_u8, take_bytes, take_cstr,
    take_i32, take_u16, take_u32, take_u64, take_u8, ParseError,
};
use crate::text::{text_of_bytes, text_of_utf8};
use vstd::prelude::*;

verus! {

/// A column of a relation.
#[derive(Debug, Clone, PartialEq, Eq)]
pub struct Column {
    pub flags: u8,
    pub name: String,
    pub pg_type_id: u32,
    pub type_mod: i32,
}

/// A `Column` as plain values.
pub struct ColumnView {
    pub flags: u8,
    pub name: Seq<char>,
    pub pg_type_id: u32,
    pub type_mod: i32,
}

impl View for Column {
    type V = ColumnView;

    open spec fn view(&self) -> ColumnView {
        ColumnView {
            flags: self.flags,
            name: self.name@,
            pg_type_id: self.pg_type_id,
            type_mod: self.type_mod,
        }
    }
}

impl DeepView for Column {
    type V = ColumnView;

    open spec fn deep_view(&self) -> ColumnView {
        self@
    }
}

impl Column {
    /// A copy of the column.
    pub fn duplicate(&self) -> (r: Column)
        ensures
            r@ == self@,
    {
        Column {
            flags: self.flags,
            name: self.name.clone(),
            pg_type_id: self.pg_type_id,
            type_mod: self.type_mod,
        }
    }
}

/// The value of one column in a row image: SQL `NULL`, a value that did not
/// change and was not shipped, or the value's text form.
#[derive(Debug, Clone, PartialEq, Eq)]
pub enum TupleData {
    Null,
    Toast,
    Text(Vec<u8>),
}

/// A `TupleData` as plain values.
pub enum TupleDataView {
    Null,
    Toast,
    Text(Seq<u8>),
}

impl View for TupleData {
    type V = TupleDataView;

    open spec fn view(&self) -> TupleDataView {
        match self {
            TupleData::Null => TupleDataView::Null,
            TupleData::Toast => TupleDataView::Toast,
            TupleData::Text(bytes) => TupleDataView::Text(bytes@),
        }
    }
}

impl DeepView for TupleData {
    type V = TupleDataView;

    open spec fn deep_view(&self) -> TupleDataView {
        self@
    }
}

/// Whether bit `i` of `bits` is set. No bit is set at 64 or above.
pub open spec fn bit_is_set(bits: u64, i: int) -> bool {
    0 <= i < 64 && (bits >> (i as u64)) & 1 == 1
}

/// The bitmap of the unchanged values among the first `n` columns: bit `i`
/// is set if and only if `i` is below `n`, 64 and the number of columns,
/// and column `i` is unchanged.
pub open spec fn toast_bits(cols: Seq<TupleDataView>, n: int) -> u64
    decreases n,
{
    if n <= 0 {
        0
    } else {
        let before = toast_bits(cols, n - 1);
        if n - 1 < 64 && n - 1 < cols.len() && cols[n - 1] is Toast {
            before | (1u64 << ((n - 1) as u64))
        } else {
            before
        }
    }
}

/// The bitmap of the unchanged values of a row image.
pub open spec fn toast_bitmap_of(cols: Seq<TupleDataView>) -> u64 {
    toast_bits(cols, cols.len() as int)
}

proof fn lemma_set_bit(bits: u64, i: u64, j: u64)
    by (bit_vector)
    requires
        i < 64,
        j < 64,
    ensures
        ((bits | (1u64 << i)) >> j) & 1 == 1 <==> (j == i || (bits >> j) & 1 == 1),
{
}

proof fn lemma_no_bit(j: u64)
    by (bit_vector)
    requires
        j < 64,
    ensures
        (0u64 >> j) & 1 == 0,
{
}

/// Bit `j` of the bitmap says whether column `j` is unchanged.
pub proof fn lemma_toast_bits(cols: Seq<TupleDataView>, n: int, j: int)
    ensures
        bit_is_set(toast_bits(cols, n), j) <==> (0 <= j < 64 && j < n && j < cols.len()
            && cols[j] is Toast),
    decreases n,
{
    if 0 <= j < 64 {
        if n <= 0 {
            lemma_no_bit(j as u64);
        } else {
            lemma_toast_bits(cols, n - 1, j);
            if n - 1 < 64 && n - 1 < cols.len() && cols[n - 1] is Toast {
                lemma_set_bit(toast_bits(cols, n - 1), (n - 1) as u64, j as u64);
            }
        }
    }
}

/// A row image: one value for each column of its relation, in the
/// relation's order, with the bitmap of the unchanged ones.
#[derive(Debug, PartialEq, Eq)]
pub struct Tuple {
    cols: Vec<TupleData>,
    toast_bitmap: u64,
}

impl View for Tuple {
    type V = Seq<TupleDataView>;

    closed spec fn view(&self) -> Seq<TupleDataView> {
        self.cols.deep_view()
    }
}

impl DeepView for Tuple {
    type V = Seq<TupleDataView>;

    open spec fn deep_view(&self) -> Seq<TupleDataView> {
        self@
    }
}

impl TupleData {
    /// A copy of the value.
    pub fn duplicate(&self) -> (r: TupleData)
        ensures
            r@ == self@,
    {
        match self {
            TupleData::Null => TupleData::Null,
            TupleData::Toast => TupleData::Toast,
            TupleData::Text(bytes) => {
                let copy = bytes.clone();
                TupleData::Text(copy)
            },
        }
    }
}

impl Clone for Tuple {
    fn clone(&self) -> (r: Self)
        ensures
            r@ == self@,
    {
        let mut cols: Vec<TupleData> = Vec::new();
        let mut i: usize = 0;
        while i < self.cols.len()
            invariant
                i <= self.cols.len(),
                cols.deep_view() == self.cols.deep_view().take(i as int),
            decreases self.cols.len() - i,
        {
            let ghost before = cols.deep_view();
            let value = self.cols[i].duplicate();
            cols.push(value);
            assert(cols.deep_view() == before.push(self.cols@[i as int]@));
            i += 1;
        }
        Tuple::new(cols)
    }
}

impl Tuple {
    #[verifier::type_invariant]
    spec fn consistent(self) -> bool {
        self.toast_bitmap == toast_bitmap_of(self.cols.deep_view())
    }

    /// The row image of the given values.
    pub fn new(cols: Vec<TupleData>) -> (r: Tuple)
        ensures
            r@ == cols.deep_view(),
    {
        let mut bitmap: u64 = 0;
        let mut i: usize = 0;
        let ghost view = cols.deep_view();
        while i < cols.len()
            invariant
                i <= cols.len(),
                view == cols.deep_view(),
                bitmap == toast_bits(view, i as int),
            decreases cols.len() - i,
        {
            if i < 64 {
                match &cols[i] {
                    TupleData::Toast => {
                        bitmap = bitmap | (1u64 << (i as u64));
                    },
                    _ => {},
                }
            }
            i += 1;
        }
        Tuple { cols, toast_bitmap: bitmap }
    }

    /// The values, one for each column.
    pub fn cols(&self) -> (r: &Vec<TupleData>)
        ensures
            r.deep_view() == self@,
    {
        &self.cols
    }

    /// The number of values.
    pub fn len(&self) -> (r: usize)
        ensures
            r == self@.len(),
    {
        self.cols.len()
    }

    /// The bitmap of the unchanged values.
    pub fn toast_bitmap(&self) -> (r: u64)
        ensures
            r == toast_bitmap_of(self@),
    {
        proof {
            use_type_invariant(self);
        }
        self.toast_bitmap
    }

    /// Whether some bit of the bitmap is set.
    pub fn has_toast(&self) -> (r: bool)
        ensures
            r == (toast_bitmap_of(self@) != 0),
    {
        proof {
            use_type_invariant(self);
        }
        self.toast_bitmap != 0
    }

    /// Whether the bitmap marks column `idx` as unchanged.
    pub fn is_toast_column(&self, idx: usize) -> (r: bool)
        ensures
            r == bit_is_set(toast_bitmap_of(self@), idx as int),
            r == (idx < 64 && idx < self@.len() && self@[idx as int] is Toast),
    {
        proof {
            use_type_invariant(self);
            lemma_toast_bits(self@, self@.len() as int, idx as int);
        }
        idx < 64 && (self.toast_bitmap >> (idx as u64)) & 1 == 1
    }
}

/// One decoded message of the replication stream.
#[derive(Debug, Clone, PartialEq, Eq)]
pub enum CdcMessage {
    Begin { final_lsn: u64, commit_ts: u64, xid: u32 },
    Commit { commit_lsn: u64, end_lsn: u64, commit_ts: u64 },
    Relation { relation_id: u32, name: String, replica_identity: u8, columns: Vec<Column> },
    Insert { relation_id: u32, tuple: Tuple },
    Update { relation_id: u32, old_tuple: Option<Tuple>, new_tuple: Tuple },
    Delete { relation_id: u32, old_tuple: Option<Tuple> },
    Truncate,
    Origin,
    Type,
}

/// A `CdcMessage` as plain values; a row image is the sequence of its
/// values.
pub enum CdcMessageView {
    Begin { final_lsn: u64, commit_ts: u64, xid: u32 },
    Commit { commit_lsn: u64, end_lsn: u64, commit_ts: u64 },
    Relation {
        relation_id: u32,
        name: Seq<char>,
        replica_identity: u8,
        columns: Seq<ColumnView>,
    },
    Insert { relation_id: u32, tuple: Seq<TupleDataView> },
    Update {
        relation_id: u32,
        old_tuple: Option<Seq<TupleDataView>>,
        new_tuple: Seq<TupleDataView>,
    },
    Delete { relation_id: u32, old_tuple: Option<Seq<TupleDataView>> },
    Truncate,
    Origin,
    Type,
}

/// The plain values of an optional row image.
pub open spec fn opt_tuple(t: Option<Tuple>) -> Option<Seq<TupleDataView>> {
    match t {
        Some(v) => Some(v@),
        None => None,
    }
}

impl View for CdcMessage {
    type V = CdcMessageView;

    open spec fn view(&self) -> CdcMessageView {
        match self {
            CdcMessage::Begin { final_lsn, commit_ts, xid } => CdcMessageView::Begin {
                final_lsn: *final_lsn,
                commit_ts: *commit_ts,
                xid: *xid,
            },
            CdcMessage::Commit { commit_lsn, end_lsn, commit_ts } => CdcMessageView::Commit {
                commit_lsn: *commit_lsn,
                end_lsn: *end_lsn,
                commit_ts: *commit_ts,
            },
            CdcMessage::Relation {
                relation_id,
                name,
                replica_identity,
                columns,
            } => CdcMessageView::Relation {
                relation_id: *relation_id,
                name: name@,
                replica_identity: *replica_identity,
                columns: columns.deep_view(),
            },
            CdcMessage::Insert { relation_id, tuple } => CdcMessageView::Insert {
                relation_id: *relation_id,
                tuple: tuple@,
            },
            CdcMessage::Update { relation_id, old_tuple, new_tuple } => CdcMessageView::Update {
                relation_id: *relation_id,
                old_tuple: opt_tuple(*old_tuple),
                new_tuple: new_tuple@,
            },
            CdcMessage::Delete { relation_id, old_tuple } => CdcMessageView::Delete {
                relation_id: *relation_id,
                old_tuple: opt_tuple(*old_tuple),
            },
            CdcMessage::Truncate => CdcMessageView::Truncate,
            CdcMessage::Origin => CdcMessageView::Origin,
            CdcMessage::Type => CdcMessageView::Type,
        }
    }
}

impl DeepView for CdcMessage {
    type V = CdcMessageView;

    open spec fn deep_view(&self) -> CdcMessageView {
        self@
    }
}

/// Message type `B`: the start of a transaction.
pub const TAG_BEGIN: u8 = 0x42;

/// Message type `C`: the commit of a transaction.
pub const TAG_COMMIT: u8 = 0x43;

/// Message type `R`: the description of a relation.
pub const TAG_RELATION: u8 = 0x52;

/// Message type `I`: an inserted row.
pub const TAG_INSERT: u8 = 0x49;

/// Message type `U`: an updated row.
pub const TAG_UPDATE: u8 = 0x55;

/// Message type `D`: a deleted row.
pub const TAG_DELETE: u8 = 0x44;

/// Message type `T`: a truncation.
pub const TAG_TRUNCATE: u8 = 0x54;

/// Message type `O`: the origin of a transaction.
pub const TAG_ORIGIN: u8 = 0x4F;

/// Message type `Y`: the description of a data type.
pub const TAG_TYPE: u8 = 0x59;

/// Marker `N` before the new image of a row.
pub const MARKER_NEW: u8 = 0x4E;

/// Marker `K` before the key of the old image of a row.
pub const MARKER_KEY: u8 = 0x4B;

/// Marker `O` before the old image of a row.
pub const MARKER_OLD: u8 = 0x4F;

/// Value kind `n`: SQL `NULL`.
pub const KIND_NULL: u8 = 0x6E;

/// Value kind `u`: unchanged, not shipped.
pub const KIND_UNCHANGED: u8 = 0x75;

/// Value kind `t`: text.
pub const KIND_TEXT: u8 = 0x74;

/// A list that is read with `done` before it.
pub open spec fn prepend<T>(
    done: Seq<T>,
    read: Result<(Seq<T>, Seq<u8>), ParseError>,
) -> Result<(Seq<T>, Seq<u8>), ParseError> {
    match read {
        Ok((items, rest)) => Ok((done + items, rest)),
        Err(e) => Err(e),
    }
}

proof fn lemma_prepend_push<T>(done: Seq<T>, item: T, read: Result<(Seq<T>, Seq<u8>), ParseError>)
    ensures
        prepend(done, prepend(seq![item], read)) == prepend(done.push(item), read),
{
    match read {
        Ok((items, rest)) => {
            assert(done + (seq![item] + items) == done.push(item) + items);
        },
        Err(e) => {},
    }
}

/// One column value: its kind, and for a text its length and bytes.
pub open spec fn parse_value(s: Seq<u8>) -> Result<(TupleDataView, Seq<u8>), ParseError> {
    match take_u8(s) {
        Err(e) => Err(e),
        Ok((kind, after_kind)) => if kind == KIND_NULL {
            Ok((TupleDataView::Null, after_kind))
        } else if kind == KIND_UNCHANGED {
            Ok((TupleDataView::Toast, after_kind))
        } else if kind == KIND_TEXT {
            match take_i32(after_kind) {
                Err(e) => Err(e),
                Ok((len, after_len)) => if len < 0 {
                    Err(ParseError::BadLength)
                } else {
                    match take_bytes(after_len, len as nat) {
                        Err(e) => Err(e),
                        Ok((bytes, rest)) => Ok((TupleDataView::Text(bytes), rest)),
                    }
                },
            }
        } else {
            Err(ParseError::BadColumnKind)
        },
    }
}

/// `n` column values, one after the other.
pub open spec fn parse_values(s: Seq<u8>, n: nat) -> Result<
    (Seq<TupleDataView>, Seq<u8>),
    ParseError,
>
    decreases n,
{
    if n == 0 {
        Ok((Seq::empty(), s))
    } else {
        match parse_value(s) {
            Err(e) => Err(e),
            Ok((value, rest)) => prepend(seq![value], parse_values(rest, (n - 1) as nat)),
        }
    }
}

/// A row image: the number of its values, then the values.
pub open spec fn parse_tuple(s: Seq<u8>) -> Result<(Seq<TupleDataView>, Seq<u8>), ParseError> {
    match take_u16(s) {
        Err(e) => Err(e),
        Ok((n, rest)) => parse_values(rest, n as nat),
    }
}

/// One column of a relation: flags, name, type and type modifier.
pub open spec fn parse_column(s: Seq<u8>) -> Result<(ColumnView, Seq<u8>), ParseError> {
    match take_u8(s) {
        Err(e) => Err(e),
        Ok((flags, after_flags)) => match take_cstr(after_flags) {
            Err(e) => Err(e),
            Ok((name, after_name)) => match take_u32(after_name) {
                Err(e) => Err(e),
                Ok((pg_type_id, after_type)) => match take_i32(after_type) {
                    Err(e) => Err(e),
                    Ok((type_mod, rest)) => Ok(
                        (ColumnView { flags, name: text_of_utf8(name), pg_type_id, type_mod }, rest),
                    ),
                },
            },
        },
    }
}

/// `n` columns of a relation, one after the other.
pub open spec fn parse_columns(s: Seq<u8>, n: nat) -> Result<
    (Seq<ColumnView>, Seq<u8>),
    ParseError,
>
    decreases n,
{
    if n == 0 {
        Ok((Seq::empty(), s))
    } else {
        match parse_column(s) {
            Err(e) => Err(e),
            Ok((column, rest)) => prepend(seq![column], parse_columns(rest, (n - 1) as nat)),
        }
    }
}

/// The body of a `Begin`: final LSN, commit time, transaction id.
pub open spec fn parse_begin(s: Seq<u8>) -> Result<CdcMessageView, ParseError> {
    match take_u64(s) {
        Err(e) => Err(e),
        Ok((final_lsn, rest1)) => match take_u64(rest1) {
            Err(e) => Err(e),
            Ok((commit_ts, rest2)) => match take_u32(rest2) {
                Err(e) => Err(e),
                Ok((xid, _)) => Ok(CdcMessageView::Begin { final_lsn, commit_ts, xid }),
            },
        },
    }
}

/// The body of a `Commit`: flags, which are not kept, commit LSN, end LSN,
/// commit time.
pub open spec fn parse_commit(s: Seq<u8>) -> Result<CdcMessageView, ParseError> {
    match take_u8(s) {
        Err(e) => Err(e),
        Ok((_, rest0)) => match take_u64(rest0) {
            Err(e) => Err(e),
            Ok((commit_lsn, rest1)) => match take_u64(rest1) {
                Err(e) => Err(e),
                Ok((end_lsn, rest2)) => match take_u64(rest2) {
                    Err(e) => Err(e),
                    Ok((commit_ts, _)) => Ok(
                        CdcMessageView::Commit { commit_lsn, end_lsn, commit_ts },
                    ),
                },
            },
        },
    }
}

/// The end of a `Relation`, after its name: replica identity, number of
/// columns, columns.
pub open spec fn parse_relation_columns(relation_id: u32, name: Seq<u8>, s: Seq<u8>) -> Result<
    CdcMessageView,
    ParseError,
> {
    match take_u8(s) {
        Err(e) => Err(e),
        Ok((replica_identity, rest1)) => match take_u16(rest1) {
            Err(e) => Err(e),
            Ok((n, rest2)) => match parse_columns(rest2, n as nat) {
                Err(e) => Err(e),
                Ok((columns, _)) => Ok(
                    CdcMessageView::Relation {
                        relation_id,
                        name: text_of_utf8(name),
                        replica_identity,
                        columns,
                    },
                ),
            },
        },
    }
}

/// The body of a `Relation`: id, namespace, which is not kept, name, replica
/// identity, number of columns, columns.
pub open spec fn parse_relation(s: Seq<u8>) -> Result<CdcMessageView, ParseError> {
    match take_u32(s) {
        Err(e) => Err(e),
        Ok((relation_id, rest1)) => match take_cstr(rest1) {
            Err(e) => Err(e),
            Ok((_, rest2)) => match take_cstr(rest2) {
                Err(e) => Err(e),
                Ok((name, rest3)) => parse_relation_columns(relation_id, name, rest3),
            },
        },
    }
}

/// The body of an `Insert`: relation id, the marker `N`, the new image.
pub open spec fn parse_insert(s: Seq<u8>) -> Result<CdcMessageView, ParseError> {
    match take_u32(s) {
        Err(e) => Err(e),
        Ok((relation_id, rest1)) => match take_u8(rest1) {
            Err(e) => Err(e),
            Ok((marker, rest2)) => if marker != MARKER_NEW {
                Err(ParseError::BadMarker)
            } else {
                match parse_tuple(rest2) {
                    Err(e) => Err(e),
                    Ok((tuple, _)) => Ok(CdcMessageView::Insert { relation_id, tuple }),
                }
            },
        },
    }
}

/// The new image of an `Update`, after its marker `N`.
pub open spec fn parse_update_new(
    relation_id: u32,
    old_tuple: Option<Seq<TupleDataView>>,
    s: Seq<u8>,
) -> Result<CdcMessageView, ParseError> {
    match take_u8(s) {
        Err(e) => Err(e),
        Ok((marker, r)) => if marker != MARKER_NEW {
            Err(ParseError::BadMarker)
        } else {
            match parse_tuple(r) {
                Err(e) => Err(e),
                Ok((new_tuple, _)) => Ok(
                    CdcMessageView::Update { relation_id, old_tuple, new_tuple },
                ),
            }
        },
    }
}

/// The body of an `Update`: relation id, then an old image after `K` or `O`
/// if there is one, then the new image after `N`.
pub open spec fn parse_update(s: Seq<u8>) -> Result<CdcMessageView, ParseError> {
    match take_u32(s) {
        Err(e) => Err(e),
        Ok((relation_id, rest1)) => match take_u8(rest1) {
            Err(e) => Err(e),
            Ok((marker, rest2)) => if marker == MARKER_KEY || marker == MARKER_OLD {
                match parse_tuple(rest2) {
                    Err(e) => Err(e),
                    Ok((old_tuple, rest3)) => parse_update_new(relation_id, Some(old_tuple), rest3),
                }
            } else {
                parse_update_new(relation_id, None, rest1)
            },
        },
    }
}

/// The body of a `Delete`: relation id, the marker `K` or `O`, the old
/// image.
pub open spec fn parse_delete(s: Seq<u8>) -> Result<CdcMessageView, ParseError> {
    match take_u32(s) {
        Err(e) => Err(e),
        Ok((relation_id, rest1)) => match take_u8(rest1) {
            Err(e) => Err(e),
            Ok((marker, rest2)) => if marker != MARKER_KEY && marker != MARKER_OLD {
                Err(ParseError::BadMarker)
            } else {
                match parse_tuple(rest2) {
                    Err(e) => Err(e),
                    Ok((old_tuple, _)) => Ok(
                        CdcMessageView::Delete { relation_id, old_tuple: Some(old_tuple) },
                    ),
                }
            },
        },
    }
}

/// A message that is present.
pub open spec fn present(r: Result<CdcMessageView, ParseError>) -> Result<
    Option<CdcMessageView>,
    ParseError,
> {
    match r {
        Ok(m) => Ok(Some(m)),
        Err(e) => Err(e),
    }
}

/// What a payload says: the message of the type that its first byte names,
/// decoded from the bytes after it. Truncations, origins and type
/// descriptions are recognised by their type alone. A type that is not a
/// message of the stream gives no message. Bytes after the end of the
/// message are not looked at.
pub open spec fn parse_message(tag: u8, body: Seq<u8>) -> Result<
    Option<CdcMessageView>,
    ParseError,
> {
    if tag == TAG_BEGIN {
        present(parse_begin(body))
    } else if tag == TAG_COMMIT {
        present(parse_commit(body))
    } else if tag == TAG_RELATION {
        present(parse_relation(body))
    } else if tag == TAG_INSERT {
        present(parse_insert(body))
    } else if tag == TAG_UPDATE {
        present(parse_update(body))
    } else if tag == TAG_DELETE {
        present(parse_delete(body))
    } else if tag == TAG_TRUNCATE {
        Ok(Some(CdcMessageView::Truncate))
    } else if tag == TAG_ORIGIN {
        Ok(Some(CdcMessageView::Origin))
    } else if tag == TAG_TYPE {
        Ok(Some(CdcMessageView::Type))
    } else {
        Ok(None)
    }
}

/// The plain values of a decoding.
pub open spec fn parsed_view(r: Result<Option<CdcMessage>, ParseError>) -> Result<
    Option<CdcMessageView>,
    ParseError,
> {
    match r {
        Ok(Some(m)) => Ok(Some(m@)),
        Ok(None) => Ok(None),
        Err(e) => Err(e),
    }
}

/// The plain values of a decoded message body.
pub open spec fn body_view(r: Result<CdcMessage, ParseError>) -> Result<
    CdcMessageView,
    ParseError,
> {
    match r {
        Ok(m) => Ok(m@),
        Err(e) => Err(e),
    }
}

fn read_value(data: &[u8], pos: usize) -> (r: Result<(TupleData, usize), ParseError>)
    requires
        pos <= data.len(),
    ensures
        match parse_value(data@.skip(pos as int)) {
            Ok((value, rest)) => r matches Ok((v, p)) && v@ == value && p <= data.len()
                && data@.skip(p as int) == rest,
            Err(e) => r matches Err(x) && x == e,
        },
{
    let (kind, at1) = read_u8(data, pos)?;
    if kind == KIND_NULL {
        Ok((TupleData::Null, at1))
    } else if kind == KIND_UNCHANGED {
        Ok((TupleData::Toast, at1))
    } else if kind == KIND_TEXT {
        let (len, at2) = read_i32(data, at1)?;
        if len < 0 {
            return Err(ParseError::BadLength);
        }
        let (bytes, at3) = read_bytes(data, at2, len as usize)?;
        Ok((TupleData::Text(bytes), at3))
    } else {
        Err(ParseError::BadColumnKind)
    }
}

fn read_tuple(data: &[u8], pos: usize) -> (r: Result<(Tuple, usize), ParseError>)
    requires
        pos <= data.len(),
    ensures
        match parse_tuple(data@.skip(pos as int)) {
            Ok((value, rest)) => r matches Ok((v, p)) && v@ == value && p <= data.len()
                && data@.skip(p as int) == rest,
            Err(e) => r matches Err(x) && x == e,
        },
{
    let (n, start) = read_u16(data, pos)?;
    let mut out: Vec<TupleData> = Vec::new();
    let mut p: usize = start;
    let mut i: u16 = 0;
    let ghost whole = parse_values(data@.skip(start as int), n as nat);
    while i < n
        invariant
            i <= n,
            p <= data.len(),
            parse_tuple(data@.skip(pos as int)) == whole,
            whole == prepend(out.deep_view(), parse_values(data@.skip(p as int), (n - i) as nat)),
        decreases n - i,
    {
        let ghost before = out.deep_view();
        match read_value(data, p) {
            Err(e) => {
                return Err(e);
            },
            Ok((value, next)) => {
                proof {
                    lemma_prepend_push(
                        before,
                        value@,
                        parse_values(data@.skip(next as int), (n - i - 1) as nat),
                    );
                }
                out.push(value);
                assert(out.deep_view() == before.push(value@));
                p = next;
            },
        }
        i += 1;
    }
    Ok((Tuple::new(out), p))
}

fn read_column(data: &[u8], pos: usize) -> (r: Result<(Column, usize), ParseError>)
    requires
        pos <= data.len(),
    ensures
        match parse_column(data@.skip(pos as int)) {
            Ok((value, rest)) => r matches Ok((v, p)) && v@ == value && p <= data.len()
                && data@.skip(p as int) == rest,
            Err(e) => r matches Err(x) && x == e,
        },
{
    let (flags, at1) = read_u8(data, pos)?;
    let (name, at2) = read_cstr(data, at1)?;
    let (pg_type_id, at3) = read_u32(data, at2)?;
    let (type_mod, at4) = read_i32(data, at3)?;
    Ok((Column { flags, name: text_of_bytes(name.as_slice()), pg_type_id, type_mod }, at4))
}

fn read_columns(data: &[u8], pos: usize, n: u16) -> (r: Result<(Vec<Column>, usize), ParseError>)
    requires
        pos <= data.len(),
    ensures
        match parse_columns(data@.skip(pos as int), n as nat) {
            Ok((value, rest)) => r matches Ok((v, p)) && v.deep_view() == value && p <= data.len()
                && data@.skip(p as int) == rest,
            Err(e) => r matches Err(x) && x == e,
        },
{
    let mut out: Vec<Column> = Vec::new();
    let mut p: usize = pos;
    let mut i: u16 = 0;
    let ghost whole = parse_columns(data@.skip(pos as int), n as nat);
    while i < n
        invariant
            i <= n,
            p <= data.len(),
            whole == parse_columns(data@.skip(pos as int), n as nat),
            whole == prepend(
                out.deep_view(),
                parse_columns(data@.skip(p as int), (n - i) as nat),
            ),
        decreases n - i,
    {
        let ghost before = out.deep_view();
        match read_column(data, p) {
            Err(e) => {
                return Err(e);
            },
            Ok((column, next)) => {
                proof {
                    lemma_prepend_push(
                        before,
                        column@,
                        parse_columns(data@.skip(next as int), (n - i - 1) as nat),
                    );
                }
                out.push(column);
                assert(out.deep_view() == before.push(column@));
                p = next;
            },
        }
        i += 1;
    }
    Ok((out, p))
}

fn read_begin(data: &[u8]) -> (r: Result<CdcMessage, ParseError>)
    ensures
        body_view(r) == parse_begin(data@),
{
    assert(data@.skip(0) == data@);
    let (final_lsn, at1) = read_u64(data, 0)?;
    let (commit_ts, at2) = read_u64(data, at1)?;
    let (xid, _) = read_u32(data, at2)?;
    Ok(CdcMessage::Begin { final_lsn, commit_ts, xid })
}

fn read_commit(data: &[u8]) -> (r: Result<CdcMessage, ParseError>)
    ensures
        body_view(r) == parse_commit(data@),
{
    let (_, at0) = read_u8(data, 0)?;
    let (commit_lsn, at1) = read_u64(data, at0)?;
    let (end_lsn, at2) = read_u64(data, at1)?;
    let (commit_ts, _) = read_u64(data, at2)?;
    Ok(CdcMessage::Commit { commit_lsn, end_lsn, commit_ts })
}

fn read_relation_columns(data: &[u8], pos: usize, relation_id: u32, name: Vec<u8>) -> (r: Result<
    CdcMessage,
    ParseError,
>)
    requires
        pos <= data.len(),
    ensures
        body_view(r) == parse_relation_columns(relation_id, name@, data@.skip(pos as int)),
{
    let (replica_identity, at1) = read_u8(data, pos)?;
    let (n, at2) = read_u16(data, at1)?;
    let (columns, _) = read_columns(data, at2, n)?;
    Ok(
        CdcMessage::Relation {
            relation_id,
            name: text_of_bytes(name.as_slice()),
            replica_identity,
            columns,
        },
    )
}

fn read_relation(data: &[u8]) -> (r: Result<CdcMessage, ParseError>)
    ensures
        body_view(r) == parse_relation(data@),
{
    assert(data@.skip(0) == data@);
    let (relation_id, at1) = read_u32(data, 0)?;
    let (_, at2) = read_cstr(data, at1)?;
    let (name, at3) = read_cstr(data, at2)?;
    read_relation_columns(data, at3, relation_id, name)
}

fn read_insert(data: &[u8]) -> (r: Result<CdcMessage, ParseError>)
    ensures
        body_view(r) == parse_insert(data@),
{
    assert(data@.skip(0) == data@);
    let (relation_id, at1) = read_u32(data, 0)?;
    let (marker, at2) = read_u8(data, at1)?;
    if marker != MARKER_NEW {
        return Err(ParseError::BadMarker);
    }
    let (tuple, _) = read_tuple(data, at2)?;
    Ok(CdcMessage::Insert { relation_id, tuple })
}

fn read_update_new(data: &[u8], pos: usize, relation_id: u32, old_tuple: Option<Tuple>) -> (r:
    Result<CdcMessage, ParseError>)
    requires
        pos <= data.len(),
    ensures
        body_view(r) == parse_update_new(relation_id, opt_tuple(old_tuple), data@.skip(pos as int)),
{
    let (marker, p) = read_u8(data, pos)?;
    if marker != MARKER_NEW {
        return Err(ParseError::BadMarker);
    }
    let (new_tuple, _) = read_tuple(data, p)?;
    Ok(CdcMessage::Update { relation_id, old_tuple, new_tuple })
}

fn read_update(data: &[u8]) -> (r: Result<CdcMessage, ParseError>)
    ensures
        body_view(r) == parse_update(data@),
{
    assert(data@.skip(0) == data@);
    let (relation_id, at1) = read_u32(data, 0)?;
    let (marker, at2) = read_u8(data, at1)?;
    if marker == MARKER_KEY || marker == MARKER_OLD {
        let (old_tuple, at3) = read_tuple(data, at2)?;
        read_update_new(data, at3, relation_id, Some(old_tuple))
    } else {
        read_update_new(data, at1, relation_id, None)
    }
}

fn read_delete(data: &[u8]) -> (r: Result<CdcMessage, ParseError>)
    ensures
        body_view(r) == parse_delete(data@),
{
    assert(data@.skip(0) == data@);
    let (relation_id, at1) = read_u32(data, 0)?;
    let (marker, at2) = read_u8(data, at1)?;
    if marker != MARKER_KEY && marker != MARKER_OLD {
        return Err(ParseError::BadMarker);
    }
    let (old_tuple, _) = read_tuple(data, at2)?;
    Ok(CdcMessage::Delete { relation_id, old_tuple: Some(old_tuple) })
}

/// The decoder of `pgoutput` payloads.
pub struct PgOutputParser;

impl PgOutputParser {
    /// Decodes the payload whose first byte is `tag` and whose other bytes
    /// are `body`: at most one message.
    pub fn parse(tag: u8, body: &[u8]) -> (r: Result<Option<CdcMessage>, ParseError>)
        ensures
            parsed_view(r) == parse_message(tag, body@),
    {
        let message = if tag == TAG_BEGIN {
            read_begin(body)
        } else if tag == TAG_COMMIT {
            read_commit(body)
        } else if tag == TAG_RELATION {
            read_relation(body)
        } else if tag == TAG_INSERT {
            read_insert(body)
        } else if tag == TAG_UPDATE {
            read_update(body)
        } else if tag == TAG_DELETE {
            read_delete(body)
        } else if tag == TAG_TRUNCATE {
            Ok(CdcMessage::Truncate)
        } else if tag == TAG_ORIGIN {
            Ok(CdcMessage::Origin)
        } else if tag == TAG_TYPE {
            Ok(CdcMessage::Type)
        } else {
            return Ok(None);
        };
        match message {
            Ok(m) => Ok(Some(m)),
            Err(e) => Err(e),
        }
    }
}

} // verus!
