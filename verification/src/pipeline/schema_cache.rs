//! The latest description of each relation, by relation id, and what a new
//! description adds to the one before it.

use crate::source::parser::{CdcMessage, CdcMessageView, Column, ColumnView};
use crate::source::wire::ParseError;
use crate::text::{copy_str, text_eq};
use std::collections::HashMap;
use vstd::prelude::*;

verus! {

/// The description of a table, as its last `Relation` message gave it.
#[derive(Debug, Clone, PartialEq, Eq)]
pub struct TableSchema {
    pub relation_id: u32,
    pub name: String,
    pub columns: Vec<Column>,
}

/// A `TableSchema` as plain values.
pub struct TableSchemaView {
    pub relation_id: u32,
    pub name: Seq<char>,
    pub columns: Seq<ColumnView>,
}

impl View for TableSchema {
    type V = TableSchemaView;

    open spec fn view(&self) -> TableSchemaView {
        TableSchemaView {
            relation_id: self.relation_id,
            name: self.name@,
            columns: self.columns.deep_view(),
        }
    }
}

/// The columns that a new description of a table adds.
#[derive(Debug, Clone, PartialEq, Eq)]
pub struct SchemaDelta {
    pub table_name: String,
    pub added_columns: Vec<Column>,
}

/// A `SchemaDelta` as plain values.
pub struct SchemaDeltaView {
    pub table_name: Seq<char>,
    pub added_columns: Seq<ColumnView>,
}

impl View for SchemaDelta {
    type V = SchemaDeltaView;

    open spec fn view(&self) -> SchemaDeltaView {
        SchemaDeltaView {
            table_name: self.table_name@,
            added_columns: self.added_columns.deep_view(),
        }
    }
}

impl DeepView for SchemaDelta {
    type V = SchemaDeltaView;

    open spec fn deep_view(&self) -> SchemaDeltaView {
        self@
    }
}

/// The plain values of an optional delta.
pub open spec fn opt_delta(d: Option<SchemaDelta>) -> Option<SchemaDeltaView> {
    match d {
        Some(v) => Some(v@),
        None => None,
    }
}

/// Whether some column of `columns` has the name `name`.
pub open spec fn has_column(columns: Seq<ColumnView>, name: Seq<char>) -> bool {
    exists|i: int| 0 <= i < columns.len() && #[trigger] columns[i].name == name
}

/// The columns of `new` whose name no column of `old` has, in their order.
pub open spec fn added_columns(old: Seq<ColumnView>, new: Seq<ColumnView>) -> Seq<ColumnView>
    decreases new.len(),
{
    if new.len() == 0 {
        Seq::empty()
    } else {
        let before = added_columns(old, new.drop_last());
        if has_column(old, new.last().name) {
            before
        } else {
            before.push(new.last())
        }
    }
}

/// What a new description of relation `relation_id` adds to the cached one:
/// nothing where the relation was not cached or no column is new.
pub open spec fn schema_delta(
    cache: Map<u32, TableSchemaView>,
    relation_id: u32,
    name: Seq<char>,
    columns: Seq<ColumnView>,
) -> Option<SchemaDeltaView> {
    if cache.contains_key(relation_id) && added_columns(cache[relation_id].columns, columns).len()
        > 0 {
        Some(
            SchemaDeltaView {
                table_name: name,
                added_columns: added_columns(cache[relation_id].columns, columns),
            },
        )
    } else {
        None
    }
}

/// The number of values that the row image of a message must have: the
/// number of columns of its relation, for a row message of a cached
/// relation.
pub open spec fn arity_agrees(cache: Map<u32, TableSchemaView>, m: CdcMessageView) -> bool {
    match m {
        CdcMessageView::Insert { relation_id, tuple } => cache.contains_key(relation_id)
            ==> tuple.len() == cache[relation_id].columns.len(),
        CdcMessageView::Update { relation_id, old_tuple, new_tuple } => cache.contains_key(
            relation_id,
        ) ==> {
            &&& new_tuple.len() == cache[relation_id].columns.len()
            &&& old_tuple matches Some(old) ==> old.len() == cache[relation_id].columns.len()
        },
        CdcMessageView::Delete { relation_id, old_tuple } => cache.contains_key(relation_id) ==> (
        old_tuple matches Some(old) ==> old.len() == cache[relation_id].columns.len()),
        _ => true,
    }
}

/// The cache after a message: a `Relation` replaces the description of its
/// relation, any other message leaves the cache as it is.
pub open spec fn cache_after(cache: Map<u32, TableSchemaView>, m: CdcMessageView) -> Map<
    u32,
    TableSchemaView,
> {
    match m {
        CdcMessageView::Relation { relation_id, name, columns, .. } => cache.insert(
            relation_id,
            TableSchemaView { relation_id, name, columns },
        ),
        _ => cache,
    }
}

/// What a message adds to the cached description of its relation.
pub open spec fn delta_of(cache: Map<u32, TableSchemaView>, m: CdcMessageView) -> Option<
    SchemaDeltaView,
> {
    match m {
        CdcMessageView::Relation { relation_id, name, columns, .. } => schema_delta(
            cache,
            relation_id,
            name,
            columns,
        ),
        _ => None,
    }
}

/// A copy of a list of columns.
pub fn copy_columns(columns: &Vec<Column>) -> (r: Vec<Column>)
    ensures
        r.deep_view() == columns.deep_view(),
{
    let mut out: Vec<Column> = Vec::new();
    let mut i: usize = 0;
    while i < columns.len()
        invariant
            i <= columns.len(),
            out.deep_view() == columns.deep_view().take(i as int),
        decreases columns.len() - i,
    {
        let ghost before = out.deep_view();
        let c = columns[i].duplicate();
        out.push(c);
        assert(out.deep_view() == before.push(columns@[i as int]@));
        i += 1;
    }
    out
}

/// Whether some column of `columns` has the name `name`.
pub fn contains_column(columns: &Vec<Column>, name: &str) -> (r: bool)
    ensures
        r == has_column(columns.deep_view(), name@),
{
    let mut i: usize = 0;
    while i < columns.len()
        invariant
            i <= columns.len(),
            forall|j: int| 0 <= j < i ==> columns.deep_view()[j].name != name@,
        decreases columns.len() - i,
    {
        if text_eq(columns[i].name.as_str(), name) {
            assert(columns.deep_view()[i as int].name == name@);
            return true;
        }
        i += 1;
    }
    false
}

/// The columns of `new` that `old` does not have by name.
pub fn columns_added(old: &Vec<Column>, new: &Vec<Column>) -> (r: Vec<Column>)
    ensures
        r.deep_view() == added_columns(old.deep_view(), new.deep_view()),
{
    let mut out: Vec<Column> = Vec::new();
    let mut i: usize = 0;
    let ghost all = new.deep_view();
    while i < new.len()
        invariant
            i <= new.len(),
            all == new.deep_view(),
            out.deep_view() == added_columns(old.deep_view(), all.take(i as int)),
        decreases new.len() - i,
    {
        assert(all.take(i + 1).drop_last() == all.take(i as int));
        if !contains_column(old, new[i].name.as_str()) {
            let c = new[i].duplicate();
            out.push(c);
        }
        i += 1;
    }
    assert(all.take(new.len() as int) == all);
    out
}

/// The cache of table descriptions.
#[derive(Debug, Clone, PartialEq, Eq)]
pub struct SchemaCache {
    tables: HashMap<u32, TableSchema>,
}

impl View for SchemaCache {
    type V = Map<u32, TableSchemaView>;

    closed spec fn view(&self) -> Map<u32, TableSchemaView> {
        Map::new(|id: u32| self.tables@.contains_key(id), |id: u32| self.tables@[id]@)
    }
}

impl SchemaCache {
    /// An empty cache.
    pub fn new() -> (r: Self)
        ensures
            r@ == Map::<u32, TableSchemaView>::empty(),
    {
        let r = SchemaCache { tables: HashMap::new() };
        r
    }

    /// The cached description of a relation; `None` for a relation that the
    /// cache has not seen.
    pub fn get(&self, relation_id: u32) -> (r: Option<&TableSchema>)
        ensures
            match r {
                Some(schema) => self@.contains_key(relation_id) && schema@ == self@[relation_id],
                None => !self@.contains_key(relation_id),
            },
    {
        self.tables.get(&relation_id)
    }

    /// Takes in a description of a relation: it replaces what was cached for
    /// the relation, and the columns that it adds to what was cached are
    /// returned.
    pub fn update(&mut self, relation_id: u32, name: &str, columns: &Vec<Column>) -> (r: Option<
        SchemaDelta,
    >)
        ensures
            opt_delta(r) == schema_delta(old(self)@, relation_id, name@, columns.deep_view()),
            final(self)@ == old(self)@.insert(
                relation_id,
                TableSchemaView { relation_id, name: name@, columns: columns.deep_view() },
            ),
    {
        let delta = match self.tables.get(&relation_id) {
            Some(cached) => {
                let added = columns_added(&cached.columns, columns);
                if added.len() > 0 {
                    Some(SchemaDelta { table_name: copy_str(name), added_columns: added })
                } else {
                    None
                }
            },
            None => None,
        };
        let schema = TableSchema {
            relation_id,
            name: copy_str(name),
            columns: copy_columns(columns),
        };
        self.tables.insert(relation_id, schema);
        delta
    }

    /// Takes in a message: a `Relation` updates the cache, any other message
    /// leaves it as it is.
    pub fn observe(&mut self, message: &CdcMessage) -> (r: Option<SchemaDelta>)
        ensures
            opt_delta(r) == delta_of(old(self)@, message@),
            final(self)@ == cache_after(old(self)@, message@),
    {
        match message {
            CdcMessage::Relation { relation_id, name, columns, .. } => self.update(
                *relation_id,
                name.as_str(),
                columns,
            ),
            _ => None,
        }
    }

    /// Holds a row message against its relation: the number of values of
    /// each of its row images must be the number of columns of the relation.
    /// A message of a relation that the cache has not seen passes, as does
    /// any message without a row image.
    pub fn check_arity(&self, message: &CdcMessage) -> (r: Result<(), ParseError>)
        ensures
            arity_agrees(self@, message@) ==> r is Ok,
            !arity_agrees(self@, message@) ==> r == Err::<(), ParseError>(
                ParseError::ProtocolMismatch,
            ),
    {
        match message {
            CdcMessage::Insert { relation_id, tuple } => match self.get(*relation_id) {
                Some(schema) => if tuple.len() != schema.columns.len() {
                    Err(ParseError::ProtocolMismatch)
                } else {
                    Ok(())
                },
                None => Ok(()),
            },
            CdcMessage::Update { relation_id, old_tuple, new_tuple } => match self.get(
                *relation_id,
            ) {
                Some(schema) => {
                    if new_tuple.len() != schema.columns.len() {
                        return Err(ParseError::ProtocolMismatch);
                    }
                    match old_tuple {
                        Some(old) => if old.len() != schema.columns.len() {
                            Err(ParseError::ProtocolMismatch)
                        } else {
                            Ok(())
                        },
                        None => Ok(()),
                    }
                },
                None => Ok(()),
            },
            CdcMessage::Delete { relation_id, old_tuple } => match self.get(*relation_id) {
                Some(schema) => match old_tuple {
                    Some(old) => if old.len() != schema.columns.len() {
                        Err(ParseError::ProtocolMismatch)
                    } else {
                        Ok(())
                    },
                    None => Ok(()),
                },
                None => Ok(()),
            },
            _ => Ok(()),
        }
    }
}

} // verus!
