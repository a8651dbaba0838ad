use dbmazz::grpc::state::{CdcConfig, SharedState};
use dbmazz::pipeline::schema_cache::{SchemaCache, SchemaDelta, TableSchema};
use dbmazz::pipeline::{max_lsn_of, FlushTrigger, Pipeline};
use dbmazz::replication::wal_handler::CdcEvent;
use dbmazz::source::parser::{CdcMessage, Column, Tuple, TupleData};
use dbmazz::source::wire::ParseError;

fn column(name: &str, pg_type_id: u32) -> Column {
    Column { flags: 0, name: name.to_string(), pg_type_id, type_mod: -1 }
}

fn relation(relation_id: u32, name: &str, columns: Vec<Column>) -> CdcMessage {
    CdcMessage::Relation { relation_id, name: name.to_string(), replica_identity: b'f', columns }
}

fn insert(relation_id: u32, values: &[&str]) -> CdcMessage {
    let cols = values.iter().map(|v| TupleData::Text(v.as_bytes().to_vec())).collect();
    CdcMessage::Insert { relation_id, tuple: Tuple::new(cols) }
}

fn event(lsn: u64, message: CdcMessage) -> CdcEvent {
    CdcEvent { lsn, message }
}

#[test]
fn cache_keeps_the_latest_description() {
    let mut cache = SchemaCache::new();
    assert!(cache.get(1).is_none());
    assert_eq!(cache.update(1, "orders", &vec![column("id", 23)]), None);
    assert_eq!(
        cache.get(1),
        Some(&TableSchema {
            relation_id: 1,
            name: "orders".to_string(),
            columns: vec![column("id", 23)],
        })
    );
    assert_eq!(cache.update(1, "orders_v2", &vec![column("id", 20)]), None);
    assert_eq!(cache.get(1).unwrap().name, "orders_v2");
    assert_eq!(cache.get(1).unwrap().columns[0].pg_type_id, 20);
    assert!(cache.get(2).is_none());
}

#[test]
fn delta_names_the_added_columns_only() {
    let mut cache = SchemaCache::new();
    cache.update(1, "t", &vec![column("a", 23), column("b", 25)]);
    let delta = cache.update(1, "t", &vec![column("c", 16), column("b", 23), column("d", 701)]);
    assert_eq!(
        delta,
        Some(SchemaDelta {
            table_name: "t".to_string(),
            added_columns: vec![column("c", 16), column("d", 701)],
        })
    );
    assert_eq!(cache.update(1, "t", &vec![column("c", 16)]), None);
    assert_eq!(cache.update(2, "u", &vec![column("x", 16)]), None);
}

#[test]
fn observing_messages() {
    let mut cache = SchemaCache::new();
    assert_eq!(cache.observe(&insert(1, &["1"])), None);
    assert!(cache.get(1).is_none());
    assert_eq!(cache.observe(&relation(1, "t", vec![column("a", 23)])), None);
    let delta = cache.observe(&relation(1, "t", vec![column("a", 23), column("b", 23)]));
    assert_eq!(delta.unwrap().added_columns, vec![column("b", 23)]);
}

#[test]
fn arity_is_held_against_the_relation() {
    let mut cache = SchemaCache::new();
    cache.update(1, "t", &vec![column("a", 23), column("b", 25)]);
    assert_eq!(cache.check_arity(&insert(1, &["1", "2"])), Ok(()));
    assert_eq!(cache.check_arity(&insert(1, &["1"])), Err(ParseError::ProtocolMismatch));
    assert_eq!(cache.check_arity(&insert(9, &["1"])), Ok(()));
    let update = |old: Option<usize>, new: usize| CdcMessage::Update {
        relation_id: 1,
        old_tuple: old.map(|n| Tuple::new((0..n).map(|_| TupleData::Null).collect())),
        new_tuple: Tuple::new((0..new).map(|_| TupleData::Null).collect()),
    };
    assert_eq!(cache.check_arity(&update(None, 2)), Ok(()));
    assert_eq!(cache.check_arity(&update(Some(2), 2)), Ok(()));
    assert_eq!(cache.check_arity(&update(Some(1), 2)), Err(ParseError::ProtocolMismatch));
    assert_eq!(cache.check_arity(&update(None, 3)), Err(ParseError::ProtocolMismatch));
    let delete = |n: usize| CdcMessage::Delete {
        relation_id: 1,
        old_tuple: Some(Tuple::new((0..n).map(|_| TupleData::Null).collect())),
    };
    assert_eq!(cache.check_arity(&delete(2)), Ok(()));
    assert_eq!(cache.check_arity(&delete(0)), Err(ParseError::ProtocolMismatch));
    assert_eq!(cache.check_arity(&CdcMessage::Delete { relation_id: 1, old_tuple: None }), Ok(()));
    assert_eq!(cache.check_arity(&CdcMessage::Truncate), Ok(()));
}

#[test]
fn batch_is_flushed_when_it_reaches_the_flush_size() {
    let mut pipeline = Pipeline::new(3, 5000, 0);
    let job = pipeline.on_event(event(0x10, relation(1, "t", vec![column("a", 23)])), None, 1);
    assert!(job.is_none());
    let job = pipeline.on_event(event(0x30, insert(1, &["1"])), None, 2);
    assert!(job.is_none());
    assert_eq!(pipeline.len(), 2);
    let job = pipeline.on_event(event(0x20, insert(1, &["2"])), None, 3);
    let job = job.unwrap();
    assert_eq!(job.trigger, FlushTrigger::Size);
    assert_eq!(job.max_lsn, 0x30);
    assert_eq!(
        job.messages,
        vec![relation(1, "t", vec![column("a", 23)]), insert(1, &["1"]), insert(1, &["2"])]
    );
    assert!(job.deltas.is_empty());
    assert_eq!(pipeline.len(), 0);
    assert_eq!(pipeline.due(10_000), None);
}

#[test]
fn batch_is_flushed_when_the_interval_has_passed() {
    let mut pipeline = Pipeline::new(100, 5000, 1000);
    pipeline.on_event(event(5, CdcMessage::Truncate), None, 1000);
    assert!(pipeline.on_tick(5999).is_none());
    assert_eq!(pipeline.len(), 1);
    let job = pipeline.on_tick(6000).unwrap();
    assert_eq!(job.trigger, FlushTrigger::Interval);
    assert_eq!(job.max_lsn, 5);
    assert_eq!(job.messages, vec![CdcMessage::Truncate]);
    pipeline.on_event(event(6, CdcMessage::Truncate), None, 6001);
    assert!(pipeline.on_tick(10_999).is_none());
    assert!(pipeline.on_tick(11_000).is_some());
}

#[test]
fn interval_without_events_issues_no_flush() {
    let mut pipeline = Pipeline::new(1, 10, 0);
    assert!(pipeline.on_tick(1_000_000).is_none());
    assert!(pipeline.on_tick(u64::MAX).is_none());
    assert_eq!(pipeline.due(u64::MAX), None);
    assert!(pipeline.on_shutdown(5).is_none());
    let job = pipeline.on_event(event(1, CdcMessage::Truncate), None, 1_000_001);
    assert_eq!(job.unwrap().trigger, FlushTrigger::Size);
}

#[test]
fn size_comes_before_interval() {
    let mut pipeline = Pipeline::new(1, 0, 0);
    let job = pipeline.on_event(event(1, CdcMessage::Truncate), None, 100);
    assert_eq!(job.unwrap().trigger, FlushTrigger::Size);
    let mut by_time = Pipeline::new(2, 0, 0);
    let job = by_time.on_event(event(1, CdcMessage::Truncate), None, 100);
    assert_eq!(job.unwrap().trigger, FlushTrigger::Interval);
}

#[test]
fn shutdown_flushes_what_is_left() {
    let mut pipeline = Pipeline::new(100, 5000, 0);
    pipeline.on_event(event(9, CdcMessage::Origin), None, 1);
    pipeline.on_event(event(8, CdcMessage::Type), None, 2);
    let job = pipeline.on_shutdown(3).unwrap();
    assert_eq!(job.trigger, FlushTrigger::Shutdown);
    assert_eq!(job.max_lsn, 9);
    assert_eq!(job.messages.len(), 2);
    assert!(pipeline.on_shutdown(4).is_none());
}

#[test]
fn clock_that_goes_back_counts_as_no_time_passed() {
    let mut pipeline = Pipeline::new(100, 10, 1000);
    pipeline.on_event(event(1, CdcMessage::Origin), None, 1000);
    assert!(pipeline.on_tick(5).is_none());
}

#[test]
fn schema_change_travels_with_the_batch_that_holds_its_relation() {
    let mut cache = SchemaCache::new();
    let mut pipeline = Pipeline::new(100, 5000, 0);
    let first = relation(1, "orders", vec![column("id", 23)]);
    let delta = cache.observe(&first);
    pipeline.on_event(event(1, first), delta, 0);
    pipeline.on_event(event(2, insert(1, &["1"])), None, 0);
    let job = pipeline.on_shutdown(0).unwrap();
    assert!(job.deltas.is_empty());
    let second = relation(1, "orders", vec![column("id", 23), column("email", 25)]);
    let delta = cache.observe(&second);
    assert!(delta.is_some());
    pipeline.on_event(event(3, second), delta, 0);
    pipeline.on_event(event(4, insert(1, &["1", "a@b"])), None, 0);
    let job = pipeline.on_shutdown(0).unwrap();
    assert_eq!(
        job.deltas,
        vec![SchemaDelta {
            table_name: "orders".to_string(),
            added_columns: vec![column("email", 25)],
        }]
    );
    assert_eq!(job.messages.len(), 2);
    pipeline.on_event(event(5, CdcMessage::Origin), None, 0);
    assert!(pipeline.on_shutdown(0).unwrap().deltas.is_empty());
}

#[test]
fn largest_lsn_of_a_batch() {
    assert_eq!(max_lsn_of(&Vec::new()), 0);
    let batch = vec![
        event(5, CdcMessage::Origin),
        event(u64::MAX, CdcMessage::Origin),
        event(7, CdcMessage::Origin),
    ];
    assert_eq!(max_lsn_of(&batch), u64::MAX);
}

#[test]
fn confirmations_do_not_go_back_when_events_come_in_order() {
    let mut pipeline = Pipeline::new(2, 5000, 0);
    let mut confirmed: Vec<u64> = Vec::new();
    for lsn in [1u64, 1, 2, 5, 5, 5, 9, 10] {
        if let Some(job) = pipeline.on_event(event(lsn, CdcMessage::Origin), None, 0) {
            confirmed.push(job.max_lsn);
        }
    }
    assert_eq!(confirmed, vec![1, 5, 5, 10]);
    assert!(confirmed.windows(2).all(|w| w[0] <= w[1]));
}

#[test]
fn completed_job_counts_a_batch_and_gives_the_lsn_to_confirm() {
    let mut state = SharedState::new(CdcConfig {
        flush_size: 1,
        flush_interval_ms: 1,
        tables: Vec::new(),
        slot_name: "s".to_string(),
    });
    let mut pipeline = Pipeline::new(1, 5000, 0);
    let job = pipeline.on_event(event(0x1000, insert(1, &["42"])), None, 0);
    let job = job.unwrap();
    assert_eq!(job.completed(&mut state), 0x1000);
    assert_eq!(state.get_batches_sent(), 1);
    state.confirm_lsn(job.max_lsn);
    assert_eq!(state.get_confirmed_lsn(), 0x1000);
}

#[test]
fn reconfigured_pipeline_flushes_by_the_new_size() {
    let mut pipeline = Pipeline::new(10, 5000, 0);
    pipeline.on_event(event(1, CdcMessage::Origin), None, 0);
    assert_eq!(pipeline.due(0), None);
    pipeline.reconfigure(1, 5000);
    assert_eq!(pipeline.due(0), Some(FlushTrigger::Size));
}
