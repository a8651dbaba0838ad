//! From row messages to what is loaded: the JSON value of each column, the
//! audit fields of each row, the grouping of rows into loads, the DDL that
//! a new column needs, and what follows a failed attempt.

use crate::pipeline::schema_cache::{
    SchemaCache, SchemaDelta, SchemaDeltaView, TableSchema, TableSchemaView,
};
use crate::sink::curl_loader::{
    first_request, load_error_text, load_headers, CurlStreamLoader,
    CurlStreamLoaderView, HttpRequest, HttpRequestView, LoadError, LoadErrorView,
};
use crate::source::parser::{
    bit_is_set, lemma_toast_bits, toast_bitmap_of, CdcMessage, CdcMessageView, ColumnView, Tuple,
    TupleData, TupleDataView,
};
use crate::text::{
    bounded_signed, contains, copy_str, decimal, decimal_text, is_float_literal, join,
    lemma_trim_end_twice, opt_text, opt_texts, parse_i64, parse_signed, reads_as_float, replace,
    replace_text, split, split_text, text_contains, text_eq, text_of_bytes, text_of_utf8, trim_end,
    trim_end_char,
};
use vstd::prelude::*;

verus! {

/// A JSON value of a row.
#[derive(Debug, Clone, PartialEq, Eq)]
pub enum JsonValue {
    Null,
    Bool(bool),
    Int(i64),
    Text(String),
    /// A text that spells a floating-point number; its JSON form is that
    /// number.
    Float(String),
}

/// A `JsonValue` as plain values.
pub enum JsonValueView {
    Null,
    Bool(bool),
    Int(i64),
    Text(Seq<char>),
    Float(Seq<char>),
}

impl View for JsonValue {
    type V = JsonValueView;

    open spec fn view(&self) -> JsonValueView {
        match self {
            JsonValue::Null => JsonValueView::Null,
            JsonValue::Bool(b) => JsonValueView::Bool(*b),
            JsonValue::Int(n) => JsonValueView::Int(*n),
            JsonValue::Text(t) => JsonValueView::Text(t@),
            JsonValue::Float(t) => JsonValueView::Float(t@),
        }
    }
}

/// One member of a row: a name and its value. A row is a list of members
/// in the order in which they are set; a member set again under the same
/// name replaces the value set before.
#[derive(Debug, Clone, PartialEq, Eq)]
pub struct JsonField {
    pub name: String,
    pub value: JsonValue,
}

/// A `JsonField` as plain values.
pub struct JsonFieldView {
    pub name: Seq<char>,
    pub value: JsonValueView,
}

impl View for JsonField {
    type V = JsonFieldView;

    open spec fn view(&self) -> JsonFieldView {
        JsonFieldView { name: self.name@, value: self.value@ }
    }
}

impl DeepView for JsonField {
    type V = JsonFieldView;

    open spec fn deep_view(&self) -> JsonFieldView {
        self@
    }
}

/// Type id of `bool`.
pub const PG_BOOL: u32 = 16;

/// Type id of `int2`.
pub const PG_INT2: u32 = 21;

/// Type id of `int4`.
pub const PG_INT4: u32 = 23;

/// Type id of `int8`.
pub const PG_INT8: u32 = 20;

/// Type id of `float4`.
pub const PG_FLOAT4: u32 = 700;

/// Type id of `float8`.
pub const PG_FLOAT8: u32 = 701;

/// Type id of `numeric`.
pub const PG_NUMERIC: u32 = 1700;

/// Type id of `timestamp`.
pub const PG_TIMESTAMP: u32 = 1114;

/// Type id of `timestamptz`.
pub const PG_TIMESTAMPTZ: u32 = 1184;

/// Type id of `text`.
pub const PG_TEXT: u32 = 25;

/// Type id of `varchar`.
pub const PG_VARCHAR: u32 = 1043;

/// Type id of `bpchar`.
pub const PG_BPCHAR: u32 = 1042;

/// Type id of `jsonb`.
pub const PG_JSONB: u32 = 3802;

/// The JSON value of a column's text form. A boolean is true for `t`,
/// `true` and `1` and false for any other text. An integer column gives a
/// JSON integer where the text is a decimal numeral that fits 64 bits, and
/// keeps the text where it is not. A floating-point column gives a float
/// where the text spells a floating-point number, and keeps the text where
/// it does not. Every other type keeps the text.
pub open spec fn pg_value(text: Seq<char>, pg_type_id: u32) -> JsonValueView {
    if pg_type_id == PG_BOOL {
        JsonValueView::Bool(text == "t"@ || text == "true"@ || text == "1"@)
    } else if pg_type_id == PG_INT2 || pg_type_id == PG_INT4 || pg_type_id == PG_INT8 {
        match bounded_signed(parse_signed(text)) {
            Some(n) => JsonValueView::Int(n),
            None => JsonValueView::Text(text),
        }
    } else if pg_type_id == PG_FLOAT4 || pg_type_id == PG_FLOAT8 {
        if is_float_literal(text) {
            JsonValueView::Float(text)
        } else {
            JsonValueView::Text(text)
        }
    } else {
        JsonValueView::Text(text)
    }
}

/// The StarRocks type of a column of a PostgreSQL type.
pub open spec fn starrocks_type(pg_type_id: u32) -> Seq<char> {
    if pg_type_id == PG_BOOL {
        "BOOLEAN"@
    } else if pg_type_id == PG_INT2 {
        "SMALLINT"@
    } else if pg_type_id == PG_INT4 {
        "INT"@
    } else if pg_type_id == PG_INT8 {
        "BIGINT"@
    } else if pg_type_id == PG_FLOAT4 {
        "FLOAT"@
    } else if pg_type_id == PG_FLOAT8 {
        "DOUBLE"@
    } else if pg_type_id == PG_NUMERIC {
        "DECIMAL(38,9)"@
    } else if pg_type_id == PG_TIMESTAMP || pg_type_id == PG_TIMESTAMPTZ {
        "DATETIME"@
    } else if pg_type_id == PG_TEXT || pg_type_id == PG_VARCHAR || pg_type_id == PG_BPCHAR {
        "STRING"@
    } else if pg_type_id == PG_JSONB {
        "JSON"@
    } else {
        "STRING"@
    }
}

/// The JSON value of one column of a row image: `null` for SQL `NULL` and
/// for an unchanged value, else the value of the text.
pub open spec fn cell_value(data: TupleDataView, pg_type_id: u32) -> JsonValueView {
    match data {
        TupleDataView::Null => JsonValueView::Null,
        TupleDataView::Toast => JsonValueView::Null,
        TupleDataView::Text(bytes) => pg_value(text_of_utf8(bytes), pg_type_id),
    }
}

/// The members that the first `n` columns of a row image give, in column
/// order. With `exclude_toast` a column whose value is unchanged gives no
/// member.
pub open spec fn row_fields(
    columns: Seq<ColumnView>,
    tuple: Seq<TupleDataView>,
    exclude_toast: bool,
    n: int,
) -> Seq<JsonFieldView>
    decreases n,
{
    if n <= 0 {
        Seq::empty()
    } else {
        let before = row_fields(columns, tuple, exclude_toast, n - 1);
        if exclude_toast && tuple[n - 1] is Toast {
            before
        } else {
            before.push(
                JsonFieldView {
                    name: columns[n - 1].name,
                    value: cell_value(tuple[n - 1], columns[n - 1].pg_type_id),
                },
            )
        }
    }
}

/// The number of columns that a row image and its relation share.
pub open spec fn shared_columns(columns: Seq<ColumnView>, tuple: Seq<TupleDataView>) -> int {
    if columns.len() <= tuple.len() {
        columns.len() as int
    } else {
        tuple.len() as int
    }
}

/// The members that a row image gives under the columns of its relation.
pub open spec fn tuple_row(
    columns: Seq<ColumnView>,
    tuple: Seq<TupleDataView>,
    exclude_toast: bool,
) -> Seq<JsonFieldView> {
    row_fields(columns, tuple, exclude_toast, shared_columns(columns, tuple))
}

/// The names of the members of a row, in order.
pub open spec fn field_names(row: Seq<JsonFieldView>) -> Seq<Seq<char>> {
    row.map_values(|f: JsonFieldView| f.name)
}

/// The LSN as the signed 64-bit number that carries the same bits.
pub open spec fn cdc_version(lsn: u64) -> i64 {
    if lsn <= i64::MAX {
        lsn as i64
    } else {
        (lsn - 0x1_0000_0000_0000_0000) as i64
    }
}

/// Operation code of an insert.
pub const OP_INSERT: i64 = 0;

/// Operation code of an update.
pub const OP_UPDATE: i64 = 1;

/// Operation code of a delete.
pub const OP_DELETE: i64 = 2;

/// The four audit members that end every row.
pub open spec fn audit_fields(op: i64, deleted: bool, synced_at: Seq<char>, lsn: u64) -> Seq<
    JsonFieldView,
> {
    seq![
        JsonFieldView { name: "dbmazz_op_type"@, value: JsonValueView::Int(op) },
        JsonFieldView { name: "dbmazz_is_deleted"@, value: JsonValueView::Bool(deleted) },
        JsonFieldView { name: "dbmazz_synced_at"@, value: JsonValueView::Text(synced_at) },
        JsonFieldView { name: "dbmazz_cdc_version"@, value: JsonValueView::Int(cdc_version(lsn)) },
    ]
}

/// The names of the four audit members.
pub open spec fn audit_names() -> Seq<Seq<char>> {
    seq!["dbmazz_op_type"@, "dbmazz_is_deleted"@, "dbmazz_synced_at"@, "dbmazz_cdc_version"@]
}

/// One row on its way into a load: the key of its group, the row, and for
/// a partial update the columns that the row sets.
pub struct RowEntryView {
    pub relation_id: u32,
    pub toast_bitmap: u64,
    pub row: Seq<JsonFieldView>,
    pub columns: Option<Seq<Seq<char>>>,
}

/// The row that a message gives, if it gives one: an insert, an update or a
/// delete with its old image, of a relation that the cache has seen. Inserts
/// and deletes are full rows with bitmap 0. An update whose new image has no
/// bit set in its bitmap is a full row. An update with a bit set is a
/// partial update: its row leaves out the unchanged columns, and its column
/// list names the members of the row and the four audit members.
pub open spec fn row_entry(
    m: CdcMessageView,
    cache: Map<u32, TableSchemaView>,
    lsn: u64,
    synced_at: Seq<char>,
) -> Option<RowEntryView> {
    match m {
        CdcMessageView::Insert { relation_id, tuple } => if cache.contains_key(relation_id) {
            Some(
                RowEntryView {
                    relation_id,
                    toast_bitmap: 0,
                    row: tuple_row(cache[relation_id].columns, tuple, false) + audit_fields(
                        OP_INSERT,
                        false,
                        synced_at,
                        lsn,
                    ),
                    columns: None,
                },
            )
        } else {
            None
        },
        CdcMessageView::Update { relation_id, new_tuple, .. } => if cache.contains_key(
            relation_id,
        ) {
            let bitmap = toast_bitmap_of(new_tuple);
            let partial = bitmap != 0;
            let own = tuple_row(cache[relation_id].columns, new_tuple, partial);
            Some(
                RowEntryView {
                    relation_id,
                    toast_bitmap: bitmap,
                    row: own + audit_fields(OP_UPDATE, false, synced_at, lsn),
                    columns: if partial {
                        Some(field_names(own) + audit_names())
                    } else {
                        None
                    },
                },
            )
        } else {
            None
        },
        CdcMessageView::Delete { relation_id, old_tuple: Some(old) } => if cache.contains_key(
            relation_id,
        ) {
            Some(
                RowEntryView {
                    relation_id,
                    toast_bitmap: 0,
                    row: tuple_row(cache[relation_id].columns, old, false) + audit_fields(
                        OP_DELETE,
                        true,
                        synced_at,
                        lsn,
                    ),
                    columns: None,
                },
            )
        } else {
            None
        },
        _ => None,
    }
}

/// The rows of one load: those of one relation with one bitmap of unchanged
/// columns, so that one column list serves them all.
#[derive(Debug, Clone, PartialEq, Eq)]
pub struct LoadGroup {
    pub relation_id: u32,
    pub toast_bitmap: u64,
    /// Name of the table that is loaded.
    pub table: String,
    pub rows: Vec<Vec<JsonField>>,
    /// The columns of a partial update; `None` for full rows.
    pub columns: Option<Vec<String>>,
}

/// A `LoadGroup` as plain values.
pub struct LoadGroupView {
    pub relation_id: u32,
    pub toast_bitmap: u64,
    pub table: Seq<char>,
    pub rows: Seq<Seq<JsonFieldView>>,
    pub columns: Option<Seq<Seq<char>>>,
}

impl View for LoadGroup {
    type V = LoadGroupView;

    open spec fn view(&self) -> LoadGroupView {
        LoadGroupView {
            relation_id: self.relation_id,
            toast_bitmap: self.toast_bitmap,
            table: self.table@,
            rows: self.rows.deep_view(),
            columns: opt_texts(self.columns),
        }
    }
}

impl DeepView for LoadGroup {
    type V = LoadGroupView;

    open spec fn deep_view(&self) -> LoadGroupView {
        self@
    }
}

/// Index of the first group among the first `n` with the given key, or `n`
/// where there is none.
pub open spec fn group_position(
    groups: Seq<LoadGroupView>,
    relation_id: u32,
    toast_bitmap: u64,
    n: int,
) -> int
    decreases n,
{
    if n <= 0 {
        0
    } else {
        let p = group_position(groups, relation_id, toast_bitmap, n - 1);
        if p < n - 1 {
            p
        } else if groups[n - 1].relation_id == relation_id && groups[n - 1].toast_bitmap
            == toast_bitmap {
            n - 1
        } else {
            n
        }
    }
}

/// The groups after one more row: the row joins the group of its key, in
/// which it comes last, or, where no group has its key, begins a new group
/// after the others. A group keeps the column list of its first row.
pub open spec fn add_entry(
    groups: Seq<LoadGroupView>,
    entry: RowEntryView,
    table: Seq<char>,
) -> Seq<LoadGroupView> {
    let p = group_position(groups, entry.relation_id, entry.toast_bitmap, groups.len() as int);
    if 0 <= p < groups.len() {
        groups.update(p, LoadGroupView { rows: groups[p].rows.push(entry.row), ..groups[p] })
    } else {
        groups.push(
            LoadGroupView {
                relation_id: entry.relation_id,
                toast_bitmap: entry.toast_bitmap,
                table,
                rows: seq![entry.row],
                columns: entry.columns,
            },
        )
    }
}

/// The loads that a batch gives: the rows of its messages, in the order of
/// the messages, grouped by relation and bitmap; the groups stand in the
/// order in which their first rows came. A message of a relation that the
/// cache has not seen gives no row.
pub open spec fn load_groups(
    batch: Seq<CdcMessageView>,
    cache: Map<u32, TableSchemaView>,
    lsn: u64,
    synced_at: Seq<char>,
) -> Seq<LoadGroupView>
    decreases batch.len(),
{
    if batch.len() == 0 {
        Seq::empty()
    } else {
        let before = load_groups(batch.drop_last(), cache, lsn, synced_at);
        match row_entry(batch.last(), cache, lsn, synced_at) {
            Some(entry) => add_entry(before, entry, cache[entry.relation_id].name),
            None => before,
        }
    }
}

/// Whether two groups have the same key.
pub open spec fn same_key(a: LoadGroupView, b: LoadGroupView) -> bool {
    a.relation_id == b.relation_id && a.toast_bitmap == b.toast_bitmap
}

/// What holds of the loads of a batch: every group has a row, is of a
/// relation that the cache has seen and names that relation's table, and no
/// two groups have the same key.
pub open spec fn groups_well_formed(
    groups: Seq<LoadGroupView>,
    cache: Map<u32, TableSchemaView>,
) -> bool {
    &&& forall|i: int|
        0 <= i < groups.len() ==> {
            &&& (#[trigger] groups[i]).rows.len() > 0
            &&& cache.contains_key(groups[i].relation_id)
            &&& groups[i].table == cache[groups[i].relation_id].name
        }
    &&& forall|i: int, j: int|
        0 <= i < j < groups.len() ==> !same_key(#[trigger] groups[i], #[trigger] groups[j])
}

/// The position of a key is that of the first group with the key, and is the
/// number of groups looked at where none of them has it.
pub proof fn lemma_group_position(
    groups: Seq<LoadGroupView>,
    relation_id: u32,
    toast_bitmap: u64,
    n: int,
)
    requires
        0 <= n <= groups.len(),
    ensures
        0 <= group_position(groups, relation_id, toast_bitmap, n) <= n,
        group_position(groups, relation_id, toast_bitmap, n) < n ==> {
            let p = group_position(groups, relation_id, toast_bitmap, n);
            groups[p].relation_id == relation_id && groups[p].toast_bitmap == toast_bitmap
        },
        forall|i: int|
            0 <= i < group_position(groups, relation_id, toast_bitmap, n) ==> !((
            #[trigger] groups[i]).relation_id == relation_id && groups[i].toast_bitmap
                == toast_bitmap),
    decreases n,
{
    if n > 0 {
        lemma_group_position(groups, relation_id, toast_bitmap, n - 1);
    }
}

/// The loads of a batch are well formed: each group has at least one row
/// and names the table of its relation, and each key has one group.
pub proof fn lemma_load_groups_well_formed(
    batch: Seq<CdcMessageView>,
    cache: Map<u32, TableSchemaView>,
    lsn: u64,
    synced_at: Seq<char>,
)
    ensures
        groups_well_formed(load_groups(batch, cache, lsn, synced_at), cache),
    decreases batch.len(),
{
    if batch.len() > 0 {
        lemma_load_groups_well_formed(batch.drop_last(), cache, lsn, synced_at);
        let before = load_groups(batch.drop_last(), cache, lsn, synced_at);
        match row_entry(batch.last(), cache, lsn, synced_at) {
            Some(entry) => {
                lemma_group_position(
                    before,
                    entry.relation_id,
                    entry.toast_bitmap,
                    before.len() as int,
                );
            },
            None => {},
        }
    }
}

/// The relation of a row message; `None` for a message that is not a row.
pub open spec fn row_relation(m: CdcMessageView) -> Option<u32> {
    match m {
        CdcMessageView::Insert { relation_id, .. } => Some(relation_id),
        CdcMessageView::Update { relation_id, .. } => Some(relation_id),
        CdcMessageView::Delete { relation_id, .. } => Some(relation_id),
        _ => None,
    }
}

/// A row message of a relation that the cache has not seen is dropped: the
/// loads of a batch that ends with it are the loads of the batch without
/// it.
pub proof fn lemma_lookup_miss_drops_event(
    batch: Seq<CdcMessageView>,
    m: CdcMessageView,
    cache: Map<u32, TableSchemaView>,
    lsn: u64,
    synced_at: Seq<char>,
)
    requires
        row_relation(m) matches Some(relation_id) && !cache.contains_key(relation_id),
    ensures
        row_entry(m, cache, lsn, synced_at) is None,
        load_groups(batch.push(m), cache, lsn, synced_at) == load_groups(
            batch,
            cache,
            lsn,
            synced_at,
        ),
{
    assert(batch.push(m).drop_last() == batch);
}

/// The StarRocks type of a column of a PostgreSQL type.
pub fn pg_type_to_starrocks(pg_type: u32) -> (r: &'static str)
    ensures
        r@ == starrocks_type(pg_type),
{
    match pg_type {
        16 => "BOOLEAN",
        21 => "SMALLINT",
        23 => "INT",
        20 => "BIGINT",
        700 => "FLOAT",
        701 => "DOUBLE",
        1700 => "DECIMAL(38,9)",
        1114 => "DATETIME",
        1184 => "DATETIME",
        25 => "STRING",
        1043 => "STRING",
        1042 => "STRING",
        3802 => "JSON",
        _ => "STRING",
    }
}

/// The JSON value of a column's text form.
pub fn convert_pg_value(text: &str, pg_type_id: u32) -> (r: JsonValue)
    ensures
        r@ == pg_value(text@, pg_type_id),
{
    if pg_type_id == PG_BOOL {
        JsonValue::Bool(text_eq(text, "t") || text_eq(text, "true") || text_eq(text, "1"))
    } else if pg_type_id == PG_INT2 || pg_type_id == PG_INT4 || pg_type_id == PG_INT8 {
        match parse_i64(text) {
            Some(n) => JsonValue::Int(n),
            None => JsonValue::Text(copy_str(text)),
        }
    } else if pg_type_id == PG_FLOAT4 || pg_type_id == PG_FLOAT8 {
        if reads_as_float(text) {
            JsonValue::Float(copy_str(text))
        } else {
            JsonValue::Text(copy_str(text))
        }
    } else {
        JsonValue::Text(copy_str(text))
    }
}

/// The names of the members of a row.
pub fn names_of(row: &Vec<JsonField>) -> (r: Vec<String>)
    ensures
        r.deep_view() == field_names(row.deep_view()),
{
    let mut out: Vec<String> = Vec::new();
    let mut i: usize = 0;
    while i < row.len()
        invariant
            i <= row.len(),
            out.deep_view() == field_names(row.deep_view()).take(i as int),
        decreases row.len() - i,
    {
        let ghost before = out.deep_view();
        out.push(row[i].name.clone());
        assert(out.deep_view() == before.push(row@[i as int].name@));
        i += 1;
    }
    out
}

/// The members that a row image gives under the columns of `schema`, and
/// their names. With `exclude_toast` the unchanged columns are left out.
pub fn tuple_to_json_selective(tuple: &Tuple, schema: &TableSchema, exclude_toast: bool) -> (r: (
    Vec<JsonField>,
    Vec<String>,
))
    ensures
        r.0.deep_view() == tuple_row(schema@.columns, tuple@, exclude_toast),
        r.1.deep_view() == field_names(tuple_row(schema@.columns, tuple@, exclude_toast)),
{
    let cols = tuple.cols();
    let n = if schema.columns.len() <= cols.len() {
        schema.columns.len()
    } else {
        cols.len()
    };
    let mut row: Vec<JsonField> = Vec::new();
    let mut i: usize = 0;
    while i < n
        invariant
            i <= n,
            n <= schema.columns.len(),
            n <= cols.len(),
            cols.deep_view() == tuple@,
            row.deep_view() == row_fields(schema@.columns, tuple@, exclude_toast, i as int),
        decreases n - i,
    {
        let column = &schema.columns[i];
        match &cols[i] {
            TupleData::Null => {
                row.push(JsonField { name: column.name.clone(), value: JsonValue::Null });
            },
            TupleData::Toast => {
                if !exclude_toast {
                    row.push(JsonField { name: column.name.clone(), value: JsonValue::Null });
                }
            },
            TupleData::Text(bytes) => {
                let text = text_of_bytes(bytes.as_slice());
                let value = convert_pg_value(text.as_str(), column.pg_type_id);
                row.push(JsonField { name: column.name.clone(), value });
            },
        }
        i += 1;
    }
    let names = names_of(&row);
    (row, names)
}

/// The members that a row image gives under the columns of `schema`, with
/// `null` for an unchanged column.
pub fn tuple_to_json(tuple: &Tuple, schema: &TableSchema) -> (r: Vec<JsonField>)
    ensures
        r.deep_view() == tuple_row(schema@.columns, tuple@, false),
{
    let (row, _) = tuple_to_json_selective(tuple, schema, false);
    row
}

/// The LSN as a signed number.
pub fn cdc_version_of(lsn: u64) -> (r: i64)
    ensures
        r == cdc_version(lsn),
{
    if lsn <= 0x7FFF_FFFF_FFFF_FFFF {
        lsn as i64
    } else {
        let low: i64 = (lsn - 0x8000_0000_0000_0000) as i64;
        low + i64::MIN
    }
}

/// Ends a row with the four audit members.
pub fn push_audit_fields(row: &mut Vec<JsonField>, op: i64, deleted: bool, synced_at: &str, lsn: u64)
    ensures
        final(row).deep_view() == old(row).deep_view() + audit_fields(op, deleted, synced_at@, lsn),
{
    row.push(JsonField { name: copy_str("dbmazz_op_type"), value: JsonValue::Int(op) });
    row.push(JsonField { name: copy_str("dbmazz_is_deleted"), value: JsonValue::Bool(deleted) });
    row.push(
        JsonField { name: copy_str("dbmazz_synced_at"), value: JsonValue::Text(copy_str(synced_at)) },
    );
    row.push(
        JsonField {
            name: copy_str("dbmazz_cdc_version"),
            value: JsonValue::Int(cdc_version_of(lsn)),
        },
    );
}

/// Ends a column list with the names of the four audit members.
pub fn push_audit_names(names: &mut Vec<String>)
    ensures
        final(names).deep_view() == old(names).deep_view() + audit_names(),
{
    names.push(copy_str("dbmazz_op_type"));
    names.push(copy_str("dbmazz_is_deleted"));
    names.push(copy_str("dbmazz_synced_at"));
    names.push(copy_str("dbmazz_cdc_version"));
}

/// One row on its way into a load.
#[derive(Debug, Clone, PartialEq, Eq)]
pub struct RowEntry {
    pub relation_id: u32,
    pub toast_bitmap: u64,
    pub row: Vec<JsonField>,
    pub columns: Option<Vec<String>>,
}

impl View for RowEntry {
    type V = RowEntryView;

    open spec fn view(&self) -> RowEntryView {
        RowEntryView {
            relation_id: self.relation_id,
            toast_bitmap: self.toast_bitmap,
            row: self.row.deep_view(),
            columns: opt_texts(self.columns),
        }
    }
}

/// The plain values of an optional row entry.
pub open spec fn opt_entry(e: Option<RowEntry>) -> Option<RowEntryView> {
    match e {
        Some(v) => Some(v@),
        None => None,
    }
}

/// The row that a message gives, if it gives one.
pub fn entry_of(message: &CdcMessage, schema_cache: &SchemaCache, lsn: u64, synced_at: &str) -> (r:
    Option<RowEntry>)
    ensures
        opt_entry(r) == row_entry(message@, schema_cache@, lsn, synced_at@),
{
    match message {
        CdcMessage::Insert { relation_id, tuple } => match schema_cache.get(*relation_id) {
            Some(schema) => {
                let mut row = tuple_to_json(tuple, schema);
                push_audit_fields(&mut row, OP_INSERT, false, synced_at, lsn);
                Some(RowEntry { relation_id: *relation_id, toast_bitmap: 0, row, columns: None })
            },
            None => None,
        },
        CdcMessage::Update { relation_id, new_tuple, .. } => match schema_cache.get(*relation_id) {
            Some(schema) => {
                let has_toast = new_tuple.has_toast();
                let (mut row, mut names) = tuple_to_json_selective(new_tuple, schema, has_toast);
                let columns = if has_toast {
                    push_audit_names(&mut names);
                    Some(names)
                } else {
                    None
                };
                push_audit_fields(&mut row, OP_UPDATE, false, synced_at, lsn);
                Some(
                    RowEntry {
                        relation_id: *relation_id,
                        toast_bitmap: new_tuple.toast_bitmap(),
                        row,
                        columns,
                    },
                )
            },
            None => None,
        },
        CdcMessage::Delete { relation_id, old_tuple } => match old_tuple {
            Some(old) => match schema_cache.get(*relation_id) {
                Some(schema) => {
                    let mut row = tuple_to_json(old, schema);
                    push_audit_fields(&mut row, OP_DELETE, true, synced_at, lsn);
                    Some(
                        RowEntry { relation_id: *relation_id, toast_bitmap: 0, row, columns: None },
                    )
                },
                None => None,
            },
            None => None,
        },
        _ => None,
    }
}

/// Index of the first group with the given key, or the number of groups
/// where there is none.
pub fn find_group(groups: &Vec<LoadGroup>, relation_id: u32, toast_bitmap: u64) -> (r: usize)
    ensures
        r == group_position(groups.deep_view(), relation_id, toast_bitmap, groups.len() as int),
        r <= groups.len(),
{
    let mut i: usize = 0;
    while i < groups.len()
        invariant
            i <= groups.len(),
            group_position(groups.deep_view(), relation_id, toast_bitmap, i as int) == i,
        decreases groups.len() - i,
    {
        if groups[i].relation_id == relation_id && groups[i].toast_bitmap == toast_bitmap {
            proof {
                lemma_group_position_stays(
                    groups.deep_view(),
                    relation_id,
                    toast_bitmap,
                    i + 1,
                    groups.len() as int,
                );
            }
            return i;
        }
        i += 1;
    }
    i
}

/// Once a group with the key has been found, later groups do not change the
/// position.
pub proof fn lemma_group_position_stays(
    groups: Seq<LoadGroupView>,
    relation_id: u32,
    toast_bitmap: u64,
    m: int,
    n: int,
)
    requires
        0 <= m <= n,
        group_position(groups, relation_id, toast_bitmap, m) < m,
    ensures
        group_position(groups, relation_id, toast_bitmap, n) == group_position(
            groups,
            relation_id,
            toast_bitmap,
            m,
        ),
    decreases n - m,
{
    if m < n {
        lemma_group_position_stays(groups, relation_id, toast_bitmap, m, n - 1);
    }
}

/// Adds a row to the groups.
pub fn add_to_groups(groups: &mut Vec<LoadGroup>, entry: RowEntry, table: &str)
    ensures
        final(groups).deep_view() == add_entry(old(groups).deep_view(), entry@, table@),
{
    let p = find_group(groups, entry.relation_id, entry.toast_bitmap);
    if p < groups.len() {
        let mut group = groups.remove(p);
        let ghost rows_before = group.rows.deep_view();
        group.rows.push(entry.row);
        assert(group.rows.deep_view() == rows_before.push(entry.row.deep_view()));
        groups.insert(p, group);
    } else {
        let mut rows: Vec<Vec<JsonField>> = Vec::new();
        rows.push(entry.row);
        assert(rows.deep_view() =~= seq![entry.row.deep_view()]);
        let group = LoadGroup {
            relation_id: entry.relation_id,
            toast_bitmap: entry.toast_bitmap,
            table: copy_str(table),
            rows,
            columns: entry.columns,
        };
        groups.push(group);
    }
}

/// Builds the loads of a batch: every row message of a relation that the
/// cache has seen gives one row, stamped with `lsn` and `synced_at`; the rows
/// are grouped by relation and bitmap of unchanged columns. A message of a
/// relation that the cache has not seen gives nothing, and neither does any
/// message that is not a row.
pub fn build_load_groups(
    batch: &[CdcMessage],
    schema_cache: &SchemaCache,
    lsn: u64,
    synced_at: &str,
) -> (r: Vec<LoadGroup>)
    ensures
        r.deep_view() == load_groups(batch.deep_view(), schema_cache@, lsn, synced_at@),
{
    let mut groups: Vec<LoadGroup> = Vec::new();
    let mut i: usize = 0;
    let ghost all = batch.deep_view();
    while i < batch.len()
        invariant
            i <= batch.len(),
            all == batch.deep_view(),
            groups.deep_view() == load_groups(all.take(i as int), schema_cache@, lsn, synced_at@),
        decreases batch.len() - i,
    {
        assert(all.take(i + 1).drop_last() == all.take(i as int));
        match entry_of(&batch[i], schema_cache, lsn, synced_at) {
            Some(entry) => match schema_cache.get(entry.relation_id) {
                Some(schema) => {
                    add_to_groups(&mut groups, entry, schema.name.as_str());
                },
                None => {},
            },
            None => {},
        }
        i += 1;
    }
    assert(all.take(batch.len() as int) == all);
    groups
}

/// The names of the columns among the first `n` whose bit in `bitmap` is
/// clear, in column order.
pub open spec fn clear_bit_names(columns: Seq<ColumnView>, bitmap: u64, n: int) -> Seq<Seq<char>>
    decreases n,
{
    if n <= 0 {
        Seq::empty()
    } else {
        let before = clear_bit_names(columns, bitmap, n - 1);
        if bit_is_set(bitmap, n - 1) {
            before
        } else {
            before.push(columns[n - 1].name)
        }
    }
}

proof fn lemma_partial_row_names(columns: Seq<ColumnView>, tuple: Seq<TupleDataView>, n: int)
    requires
        0 <= n <= tuple.len(),
        tuple.len() <= 64,
    ensures
        field_names(row_fields(columns, tuple, true, n)) == clear_bit_names(
            columns,
            toast_bitmap_of(tuple),
            n,
        ),
    decreases n,
{
    if n > 0 {
        lemma_partial_row_names(columns, tuple, n - 1);
        lemma_toast_bits(tuple, tuple.len() as int, n - 1);
    }
}

/// An update whose new image has unchanged columns is loaded as a partial
/// update: its column list names exactly the columns whose bit in the
/// bitmap of unchanged columns is clear, in column order, and after them the
/// four audit columns; the headers of its load say `partial_update: true`
/// and carry that list. This holds where the image has one value for each
/// column of its relation and at most 64 of them, which is as many columns
/// as the bitmap has bits.
pub proof fn lemma_partial_update_columns(
    relation_id: u32,
    old_tuple: Option<Seq<TupleDataView>>,
    new_tuple: Seq<TupleDataView>,
    cache: Map<u32, TableSchemaView>,
    lsn: u64,
    synced_at: Seq<char>,
)
    requires
        cache.contains_key(relation_id),
        new_tuple.len() == cache[relation_id].columns.len(),
        new_tuple.len() <= 64,
        toast_bitmap_of(new_tuple) != 0,
    ensures
        ({
            let entry = row_entry(
                CdcMessageView::Update { relation_id, old_tuple, new_tuple },
                cache,
                lsn,
                synced_at,
            );
            let columns = clear_bit_names(
                cache[relation_id].columns,
                toast_bitmap_of(new_tuple),
                new_tuple.len() as int,
            ) + audit_names();
            &&& entry matches Some(e) && e.columns == Some(columns)
            &&& load_headers(entry->0.columns).len() == 8
            &&& load_headers(entry->0.columns)[5] == "partial_update: true"@
            &&& load_headers(entry->0.columns)[7] == "columns: "@ + join(columns, ","@)
        }),
{
    lemma_partial_row_names(cache[relation_id].columns, new_tuple, new_tuple.len() as int);
}

/// Where StarRocks takes DDL: the front end, over the MySQL protocol.
#[derive(Debug, Clone, PartialEq, Eq)]
pub struct MysqlTarget {
    pub host: String,
    pub port: u16,
    pub user: String,
    pub pass: String,
    pub database: String,
}

/// A `MysqlTarget` as plain values.
pub struct MysqlTargetView {
    pub host: Seq<char>,
    pub port: u16,
    pub user: Seq<char>,
    pub pass: Seq<char>,
    pub database: Seq<char>,
}

impl View for MysqlTarget {
    type V = MysqlTargetView;

    open spec fn view(&self) -> MysqlTargetView {
        MysqlTargetView {
            host: self.host@,
            port: self.port,
            user: self.user@,
            pass: self.pass@,
            database: self.database@,
        }
    }
}

/// TCP port on which a StarRocks front end speaks the MySQL protocol.
pub const STARROCKS_MYSQL_PORT: u16 = 9030;

/// Attempts that a load is given.
pub const LOAD_ATTEMPTS: u32 = 3;

/// The most attempts for which a back-off can be computed.
pub const MAX_ATTEMPTS: u32 = 58;

/// The host of a front end's URL: the URL without `http://` and `https://`,
/// up to its first `:`.
pub open spec fn mysql_host(base_url: Seq<char>) -> Seq<char> {
    split(replace(replace(base_url, "http://"@, Seq::empty()), "https://"@, Seq::empty()), ':')[0]
}

/// Why the sink gave up.
#[derive(Debug, Clone, PartialEq, Eq)]
pub enum SinkError {
    /// A column could not be added.
    Ddl { column: String, table: String, message: String },
    /// Every attempt of a load failed; `cause` is the last failure.
    RetriesExhausted { partial: bool, attempts: u32, cause: String },
}

/// A `SinkError` as plain values.
pub enum SinkErrorView {
    Ddl { column: Seq<char>, table: Seq<char>, message: Seq<char> },
    RetriesExhausted { partial: bool, attempts: u32, cause: Seq<char> },
}

impl View for SinkError {
    type V = SinkErrorView;

    open spec fn view(&self) -> SinkErrorView {
        match self {
            SinkError::Ddl { column, table, message } => SinkErrorView::Ddl {
                column: column@,
                table: table@,
                message: message@,
            },
            SinkError::RetriesExhausted {
                partial,
                attempts,
                cause,
            } => SinkErrorView::RetriesExhausted {
                partial: *partial,
                attempts: *attempts,
                cause: cause@,
            },
        }
    }
}

/// The text of a sink error.
pub open spec fn sink_error_text(e: SinkErrorView) -> Seq<char> {
    match e {
        SinkErrorView::Ddl { column, table, message } => "Failed to add column "@ + column
            + " to "@ + table + ": "@ + message,
        SinkErrorView::RetriesExhausted { partial, attempts, cause } => (if partial {
            "Partial update failed after "@
        } else {
            "Failed after "@
        }) + decimal(attempts as nat) + " attempts: "@ + cause,
    }
}

impl SinkError {
    /// The error as one line of text.
    pub fn message(&self) -> (r: String)
        ensures
            r@ == sink_error_text(self@),
    {
        match self {
            SinkError::Ddl { column, table, message } => {
                let mut out = String::from_str("Failed to add column ");
                out.append(column.as_str());
                out.append(" to ");
                out.append(table.as_str());
                out.append(": ");
                out.append(message.as_str());
                out
            },
            SinkError::RetriesExhausted { partial, attempts, cause } => {
                let mut out = if *partial {
                    String::from_str("Partial update failed after ")
                } else {
                    String::from_str("Failed after ")
                };
                out.append(decimal_text(*attempts as u64).as_str());
                out.append(" attempts: ");
                out.append(cause.as_str());
                out
            },
        }
    }
}

/// The statement that adds a column to a table of `database`.
pub open spec fn add_column_statement(
    database: Seq<char>,
    table: Seq<char>,
    column: ColumnView,
) -> Seq<char> {
    "ALTER TABLE "@ + database + "."@ + table + " ADD COLUMN "@ + column.name + " "@
        + starrocks_type(column.pg_type_id)
}

/// The statements that apply a delta: one for each added column, in order.
pub open spec fn delta_statements(database: Seq<char>, delta: SchemaDeltaView) -> Seq<Seq<char>> {
    delta.added_columns.map_values(
        |c: ColumnView| add_column_statement(database, delta.table_name, c),
    )
}

/// Whether the error text of a DDL statement says that the column is there
/// already.
pub open spec fn ddl_error_is_benign(message: Seq<char>) -> bool {
    contains(message, "Duplicate column"@) || contains(message, "already exists"@)
}

/// The outcome of adding `column` to `table`, from what the statement
/// returned: success where it succeeded or failed because the column is
/// there already, else the failure.
pub open spec fn ddl_outcome(
    column: Seq<char>,
    table: Seq<char>,
    result: Result<(), Seq<char>>,
) -> Result<(), SinkErrorView> {
    match result {
        Ok(_) => Ok(()),
        Err(message) => if ddl_error_is_benign(message) {
            Ok(())
        } else {
            Err(SinkErrorView::Ddl { column, table, message })
        },
    }
}

/// The plain values of what a statement returned.
pub open spec fn ddl_result_view(r: Result<(), String>) -> Result<(), Seq<char>> {
    match r {
        Ok(_) => Ok(()),
        Err(m) => Err(m@),
    }
}

/// The plain values of a sink outcome.
pub open spec fn sink_result_view(r: Result<(), SinkError>) -> Result<(), SinkErrorView> {
    match r {
        Ok(_) => Ok(()),
        Err(e) => Err(e@),
    }
}

/// Milliseconds to wait after the failure number `attempt`: 100 doubled
/// `attempt` times.
pub open spec fn backoff_millis(attempt: nat) -> nat
    decreases attempt,
{
    if attempt == 0 {
        100
    } else {
        2 * backoff_millis((attempt - 1) as nat)
    }
}

/// The wait grows with the number of failures and fits 64 bits up to the
/// failure number 57.
pub proof fn lemma_backoff_bound(attempt: nat)
    requires
        attempt <= 57,
    ensures
        backoff_millis(attempt) <= 14411518807585587200,
    decreases 57 - attempt,
{
    if attempt < 57 {
        lemma_backoff_bound(attempt + 1);
    } else {
        lemma_backoff_values();
    }
}

proof fn lemma_backoff_values()
    ensures
        backoff_millis(57) == 14411518807585587200,
{
    assert(backoff_millis(10) == 102400) by {
        reveal_with_fuel(backoff_millis, 11);
    }
    assert(backoff_millis(20) == 104857600) by {
        reveal_with_fuel(backoff_millis, 11);
    }
    assert(backoff_millis(30) == 107374182400) by {
        reveal_with_fuel(backoff_millis, 11);
    }
    assert(backoff_millis(40) == 109951162777600) by {
        reveal_with_fuel(backoff_millis, 11);
    }
    assert(backoff_millis(50) == 112589990684262400) by {
        reveal_with_fuel(backoff_millis, 11);
    }
    assert(backoff_millis(57) == 14411518807585587200) by {
        reveal_with_fuel(backoff_millis, 8);
    }
}

/// What follows an attempt of a load.
#[derive(Debug, Clone, PartialEq, Eq)]
pub enum RetryStep {
    /// The load succeeded.
    Done,
    /// The load failed for the time number `attempt`: wait, then try again.
    Wait { attempt: u32, millis: u64 },
    /// The load failed for the last time.
    Fail(SinkError),
}

/// A `RetryStep` as plain values.
pub enum RetryStepView {
    Done,
    Wait { attempt: u32, millis: u64 },
    Fail(SinkErrorView),
}

impl View for RetryStep {
    type V = RetryStepView;

    open spec fn view(&self) -> RetryStepView {
        match self {
            RetryStep::Done => RetryStepView::Done,
            RetryStep::Wait { attempt, millis } => RetryStepView::Wait {
                attempt: *attempt,
                millis: *millis,
            },
            RetryStep::Fail(e) => RetryStepView::Fail(e@),
        }
    }
}

/// What follows an attempt after `attempt` failures before it: nothing more
/// after a success; after a failure that brings the failures to
/// `max_retries`, the end; after any other failure, a wait of 100 ms doubled
/// once for each failure so far.
pub open spec fn retry_step(
    partial: bool,
    attempt: u32,
    max_retries: u32,
    outcome: Result<(), LoadErrorView>,
) -> RetryStepView {
    match outcome {
        Ok(_) => RetryStepView::Done,
        Err(e) => if attempt + 1 >= max_retries {
            RetryStepView::Fail(
                SinkErrorView::RetriesExhausted {
                    partial,
                    attempts: max_retries,
                    cause: load_error_text(e),
                },
            )
        } else {
            RetryStepView::Wait {
                attempt: (attempt + 1) as u32,
                millis: backoff_millis((attempt + 1) as nat) as u64,
            }
        },
    }
}

/// The plain values of the outcome of an attempt.
pub open spec fn attempt_view(r: Result<(), LoadError>) -> Result<(), LoadErrorView> {
    match r {
        Ok(_) => Ok(()),
        Err(e) => Err(e@),
    }
}

fn backoff(attempt: u32) -> (r: u64)
    requires
        attempt <= 57,
    ensures
        r == backoff_millis(attempt as nat),
{
    let mut millis: u64 = 100;
    let mut k: u32 = 0;
    while k < attempt
        invariant
            k <= attempt <= 57,
            millis == backoff_millis(k as nat),
        decreases attempt - k,
    {
        proof {
            lemma_backoff_bound((k + 1) as nat);
        }
        millis = millis * 2;
        k += 1;
    }
    millis
}

fn next_step(partial: bool, attempt: u32, max_retries: u32, outcome: &Result<(), LoadError>) -> (r:
    RetryStep)
    requires
        max_retries <= MAX_ATTEMPTS,
        attempt < max_retries,
    ensures
        r@ == retry_step(partial, attempt, max_retries, attempt_view(*outcome)),
{
    match outcome {
        Ok(_) => RetryStep::Done,
        Err(e) => {
            let failures = attempt + 1;
            if failures >= max_retries {
                RetryStep::Fail(
                    SinkError::RetriesExhausted {
                        partial,
                        attempts: max_retries,
                        cause: e.message(),
                    },
                )
            } else {
                RetryStep::Wait { attempt: failures, millis: backoff(failures) }
            }
        },
    }
}

/// The text that `chrono` writes for the time `secs` seconds after the Unix
/// epoch, in UTC, under a `strftime` pattern; `None` for a time outside the
/// range of its calendar.
pub uninterp spec fn utc_text(secs: i64, pattern: Seq<char>) -> Option<Seq<char>>;

/// Makes the time with `chrono::DateTime::from_timestamp` and writes it with
/// `DateTime::format`.
///
/// The contract only names the result: the same time and pattern give the
/// same text. An ill-formed pattern makes `chrono` panic when the text is
/// written; `requires` admits only the pattern of the audit column.
#[verifier::external_body]
fn format_utc(secs: i64, pattern: &str) -> (r: Option<String>)
    requires
        pattern@ == "%Y-%m-%d %H:%M:%S"@,
    ensures
        opt_text(r) == utc_text(secs, pattern@),
{
    let time = chrono::DateTime::from_timestamp(secs, 0)?;
    Some(time.format(pattern).to_string())
}

/// The plain values of optional loads.
pub open spec fn opt_groups(g: Option<Vec<LoadGroup>>) -> Option<Seq<LoadGroupView>> {
    match g {
        Some(v) => Some(v.deep_view()),
        None => None,
    }
}

/// The time at which rows are synced, as the audit column holds it: year,
/// month, day, hour, minute and second in UTC.
pub open spec fn synced_at_text(now_secs: i64) -> Option<Seq<char>> {
    utc_text(now_secs, "%Y-%m-%d %H:%M:%S"@)
}

/// The sink: the Stream Load client, the database, and where DDL goes.
#[derive(Debug, Clone, PartialEq, Eq)]
pub struct StarRocksSink {
    curl_loader: CurlStreamLoader,
    database: String,
    mysql: MysqlTarget,
}

/// A `StarRocksSink` as plain values.
pub struct StarRocksSinkView {
    pub curl_loader: CurlStreamLoaderView,
    pub database: Seq<char>,
    pub mysql: MysqlTargetView,
}

impl View for StarRocksSink {
    type V = StarRocksSinkView;

    closed spec fn view(&self) -> StarRocksSinkView {
        StarRocksSinkView {
            curl_loader: self.curl_loader@,
            database: self.database@,
            mysql: self.mysql@,
        }
    }
}

/// The plain values of a request that may be missing.
pub open spec fn opt_request_view(r: Option<HttpRequest>) -> Option<HttpRequestView> {
    match r {
        Some(v) => Some(v@),
        None => None,
    }
}

/// The sink for `database` behind the front end at `base_url`. Slashes at
/// the end of the URL are dropped. DDL goes to the host of the URL, at the
/// MySQL port, under the same user and database.
pub open spec fn sink_for(
    base_url: Seq<char>,
    database: Seq<char>,
    user: Seq<char>,
    pass: Seq<char>,
) -> StarRocksSinkView {
    StarRocksSinkView {
        curl_loader: CurlStreamLoaderView {
            base_url: trim_end(base_url, '/'),
            database,
            user,
            pass,
        },
        database,
        mysql: MysqlTargetView {
            host: mysql_host(trim_end(base_url, '/')),
            port: STARROCKS_MYSQL_PORT,
            user,
            pass,
            database,
        },
    }
}

impl StarRocksSink {
    /// A sink for `database` behind the front end at `base_url`.
    pub fn new(base_url: String, database: String, user: String, pass: String) -> (r: Self)
        ensures
            r@ == sink_for(base_url@, database@, user@, pass@),
    {
        let base = trim_end_char(base_url.as_str(), '/');
        proof {
            reveal_strlit("");
            assert(""@ =~= Seq::<char>::empty());
            lemma_trim_end_twice(base_url@, '/');
        }
        let without_http = replace_text(base.as_str(), "http://", "");
        let without_scheme = replace_text(without_http.as_str(), "https://", "");
        let mut pieces = split_text(without_scheme.as_str(), ':');
        let host = pieces.swap_remove(0);
        let mysql = MysqlTarget {
            host,
            port: STARROCKS_MYSQL_PORT,
            user: user.clone(),
            pass: pass.clone(),
            database: database.clone(),
        };
        let curl_loader = CurlStreamLoader::new(base, database.clone(), user, pass);
        StarRocksSink { curl_loader, database, mysql }
    }

    /// Builds the loads of a batch that is synced at `now_secs`, in seconds
    /// since the Unix epoch: the loads of `build_load_groups` with that time
    /// as text, or `None` for a time that the calendar cannot hold.
    pub fn push_batch(
        &self,
        batch: &[CdcMessage],
        schema_cache: &SchemaCache,
        lsn: u64,
        now_secs: i64,
    ) -> (r: Option<Vec<LoadGroup>>)
        ensures
            opt_groups(r) == match synced_at_text(now_secs) {
                Some(synced_at) => Some(
                    load_groups(batch.deep_view(), schema_cache@, lsn, synced_at),
                ),
                None => None,
            },
    {
        match format_utc(now_secs, "%Y-%m-%d %H:%M:%S") {
            Some(synced_at) => Some(
                build_load_groups(batch, schema_cache, lsn, synced_at.as_str()),
            ),
            None => None,
        }
    }

    /// Where DDL goes.
    pub fn mysql_target(&self) -> (r: &MysqlTarget)
        ensures
            r@ == self@.mysql,
    {
        &self.mysql
    }

    /// The request that loads `row_count` rows into `table_name`, or `None`
    /// where there is no row, for which nothing is sent.
    pub fn send_to_starrocks_internal(
        &self,
        table_name: &str,
        row_count: usize,
        partial_columns: &Option<Vec<String>>,
    ) -> (r: Option<HttpRequest>)
        ensures
            opt_request_view(r) == if row_count == 0 {
                None
            } else {
                Some(first_request(self@.curl_loader, table_name@, opt_texts(*partial_columns)))
            },
    {
        if row_count == 0 {
            return None;
        }
        Some(self.curl_loader.send(table_name, partial_columns))
    }

    /// The request that loads full rows into `table_name`.
    pub fn send_to_starrocks(&self, table_name: &str, row_count: usize) -> (r: Option<
        HttpRequest,
    >)
        ensures
            opt_request_view(r) == if row_count == 0 {
                None
            } else {
                Some(first_request(self@.curl_loader, table_name@, None))
            },
    {
        self.send_to_starrocks_internal(table_name, row_count, &None)
    }

    /// The request that loads a partial update of `columns` into
    /// `table_name`.
    pub fn send_partial_update(&self, table_name: &str, row_count: usize, columns: Vec<String>) -> (r:
        Option<HttpRequest>)
        ensures
            opt_request_view(r) == if row_count == 0 {
                None
            } else {
                Some(first_request(self@.curl_loader, table_name@, Some(columns.deep_view())))
            },
    {
        self.send_to_starrocks_internal(table_name, row_count, &Some(columns))
    }

    /// What follows an attempt of a load of full rows, made after `attempt`
    /// failures.
    pub fn send_with_retry(attempt: u32, max_retries: u32, outcome: &Result<(), LoadError>) -> (r:
        RetryStep)
        requires
            max_retries <= MAX_ATTEMPTS,
            attempt < max_retries,
        ensures
            r@ == retry_step(false, attempt, max_retries, attempt_view(*outcome)),
    {
        next_step(false, attempt, max_retries, outcome)
    }

    /// What follows an attempt of a partial update, made after `attempt`
    /// failures.
    pub fn send_partial_update_with_retry(
        attempt: u32,
        max_retries: u32,
        outcome: &Result<(), LoadError>,
    ) -> (r: RetryStep)
        requires
            max_retries <= MAX_ATTEMPTS,
            attempt < max_retries,
        ensures
            r@ == retry_step(true, attempt, max_retries, attempt_view(*outcome)),
    {
        next_step(true, attempt, max_retries, outcome)
    }

    /// The statements that add the columns of a delta, one for each column,
    /// in order. Each is to be run, and its result judged by `execute_ddl`,
    /// before the next.
    pub fn apply_schema_delta(&self, delta: &SchemaDelta) -> (r: Vec<String>)
        ensures
            r.deep_view() == delta_statements(self@.database, delta@),
    {
        let mut out: Vec<String> = Vec::new();
        let mut i: usize = 0;
        let ghost all = delta_statements(self@.database, delta@);
        while i < delta.added_columns.len()
            invariant
                i <= delta.added_columns.len(),
                all == delta_statements(self@.database, delta@),
                out.deep_view() == all.take(i as int),
            decreases delta.added_columns.len() - i,
        {
            let column = &delta.added_columns[i];
            let mut sql = String::from_str("ALTER TABLE ");
            sql.append(self.database.as_str());
            sql.append(".");
            sql.append(delta.table_name.as_str());
            sql.append(" ADD COLUMN ");
            sql.append(column.name.as_str());
            sql.append(" ");
            sql.append(pg_type_to_starrocks(column.pg_type_id));
            let ghost before = out.deep_view();
            out.push(sql);
            assert(out.deep_view() == before.push(sql@));
            i += 1;
        }
        out
    }

    /// Judges what the statement that adds `column` to `table` returned. An
    /// error that says the column is there already counts as success; any
    /// other error fails the flush.
    pub fn execute_ddl(column: &str, table: &str, result: Result<(), String>) -> (r: Result<
        (),
        SinkError,
    >)
        ensures
            sink_result_view(r) == ddl_outcome(column@, table@, ddl_result_view(result)),
    {
        match result {
            Ok(_) => Ok(()),
            Err(message) => {
                if text_contains(message.as_str(), "Duplicate column") || text_contains(
                    message.as_str(),
                    "already exists",
                ) {
                    Ok(())
                } else {
                    Err(
                        SinkError::Ddl {
                            column: copy_str(column),
                            table: copy_str(table),
                            message,
                        },
                    )
                }
            },
        }
    }
}

} // verus!
