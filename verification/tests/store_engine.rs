use multithreaded_kv_store::{
    AvailableOperationsOnKv, DeleteKv, KvOutput, MemStorage, Op, ReadKv, Step, StoreEngine, Wal,
    WriteKv,
};

fn write_op(key: &str, value: &str) -> AvailableOperationsOnKv {
    AvailableOperationsOnKv {
        op: Some(Op::WriteOp(WriteKv { key: key.to_string(), value: value.to_string() })),
    }
}

fn read_op(key: &str) -> AvailableOperationsOnKv {
    AvailableOperationsOnKv { op: Some(Op::ReadOp(ReadKv { key: key.to_string() })) }
}

fn delete_op(key: &str) -> AvailableOperationsOnKv {
    AvailableOperationsOnKv { op: Some(Op::DeleteOp(DeleteKv { key: key.to_string() })) }
}

fn pair(key: &str, value: &str) -> KvOutput {
    KvOutput { key: key.to_string(), value: value.to_string() }
}

fn record_of(step: Step) -> Vec<u8> {
    match step {
        Step::AppendToWal(record) => record,
        Step::Finished(_) => panic!("expected a log record"),
    }
}

fn finished(step: Step) -> Option<KvOutput> {
    match step {
        Step::Finished(out) => out,
        Step::AppendToWal(_) => panic!("expected a finished read"),
    }
}

#[test]
fn read_after_write_returns_written_value() {
    let mut engine = StoreEngine::new("my_kv");
    let step = engine.execute_operation(write_op("name", "Amey")).unwrap();
    let _ = record_of(step);
    let out = engine.complete_operation(Ok(())).unwrap();
    assert_eq!(out, Some(pair("name", "Amey")));
    let read = finished(engine.execute_operation(read_op("name")).unwrap());
    assert_eq!(read, Some(pair("name", "Amey")));
}

#[test]
fn read_of_missing_key_returns_none() {
    let mut engine = StoreEngine::new("my_kv");
    let read = finished(engine.execute_operation(read_op("name")).unwrap());
    assert_eq!(read, None);
    assert_eq!(engine.next_seq_no(), 1);
}

#[test]
fn read_after_delete_returns_none() {
    let mut engine = StoreEngine::new("my_kv");
    let _ = record_of(engine.execute_operation(write_op("name", "Amey")).unwrap());
    engine.complete_operation(Ok(())).unwrap();
    let _ = record_of(engine.execute_operation(delete_op("name")).unwrap());
    let removed = engine.complete_operation(Ok(())).unwrap();
    assert_eq!(removed, Some(pair("name", "Amey")));
    let read = finished(engine.execute_operation(read_op("name")).unwrap());
    assert_eq!(read, None);
    assert_eq!(engine.next_seq_no(), 3);
}

#[test]
fn delete_of_missing_key_still_takes_a_sequence_number() {
    let mut engine = StoreEngine::new("my_kv");
    let _ = record_of(engine.execute_operation(delete_op("ghost")).unwrap());
    assert_eq!(engine.complete_operation(Ok(())).unwrap(), None);
    assert_eq!(engine.next_seq_no(), 2);
}

#[test]
fn write_leaves_other_keys_alone() {
    let mut engine = StoreEngine::new("my_kv");
    let _ = record_of(engine.execute_operation(write_op("a", "1")).unwrap());
    engine.complete_operation(Ok(())).unwrap();
    let _ = record_of(engine.execute_operation(write_op("b", "2")).unwrap());
    engine.complete_operation(Ok(())).unwrap();
    let _ = record_of(engine.execute_operation(write_op("a", "3")).unwrap());
    engine.complete_operation(Ok(())).unwrap();
    assert_eq!(finished(engine.execute_operation(read_op("b")).unwrap()), Some(pair("b", "2")));
    assert_eq!(finished(engine.execute_operation(read_op("a")).unwrap()), Some(pair("a", "3")));
}

#[test]
fn failed_wal_append_is_not_applied() {
    let mut engine = StoreEngine::new("my_kv");
    let _ = record_of(engine.execute_operation(write_op("name", "Amey")).unwrap());
    let err = engine.complete_operation(Err("disk full".to_string())).unwrap_err();
    assert_eq!(err, "disk full");
    assert_eq!(engine.next_seq_no(), 1);
    assert_eq!(finished(engine.execute_operation(read_op("name")).unwrap()), None);
}

#[test]
fn complete_without_pending_operation_is_refused() {
    let mut engine = StoreEngine::new("my_kv");
    assert_eq!(engine.complete_operation(Ok(())).unwrap_err(), "Operation is None!");
}

#[test]
fn operation_without_op_is_refused() {
    let mut engine = StoreEngine::new("my_kv");
    let err = engine.execute_operation(AvailableOperationsOnKv { op: None }).err().unwrap();
    assert_eq!(err, "Operation is None!");
}

#[test]
fn wal_record_of_write_is_protobuf_encoded() {
    let mut engine = StoreEngine::new("my_kv");
    let op = StoreEngine::prepare_operation("Write name = Amey").unwrap();
    let record = record_of(engine.execute_operation(op).unwrap());
    let expected: Vec<u8> = vec![
        0x08, 0x01, 0x12, 0x0e, 0x0a, 0x0c, 0x0a, 0x04, b'n', b'a', b'm', b'e', 0x12, 0x04, b'A',
        b'm', b'e', b'y',
    ];
    assert_eq!(record, expected);
}

#[test]
fn wal_record_of_delete_carries_next_sequence_number() {
    let mut engine = StoreEngine::new("my_kv");
    let _ = record_of(engine.execute_operation(write_op("k", "v")).unwrap());
    engine.complete_operation(Ok(())).unwrap();
    let record = record_of(engine.execute_operation(delete_op("k")).unwrap());
    assert_eq!(record, vec![0x08, 0x02, 0x12, 0x05, 0x1a, 0x03, 0x0a, 0x01, b'k']);
}

#[test]
fn recovery_restart_starts_fresh() {
    let mut engine = StoreEngine::recovery_restart("my_kv");
    assert_eq!(engine.next_seq_no(), 1);
    assert_eq!(finished(engine.execute_operation(read_op("name")).unwrap()), None);
}

#[test]
fn wal_encode_uses_multi_byte_varints_and_utf8() {
    let wal = Wal {
        sq_no: 300,
        operation: Some(AvailableOperationsOnKv {
            op: Some(Op::ReadOp(ReadKv { key: "é".to_string() })),
        }),
    };
    let mut buf = vec![0xff];
    wal.encode(&mut buf).unwrap();
    assert_eq!(buf, vec![0xff, 0x08, 0xac, 0x02, 0x12, 0x06, 0x12, 0x04, 0x0a, 0x02, 0xc3, 0xa9]);
}

#[test]
fn wal_encode_skips_default_fields() {
    let wal = Wal {
        sq_no: 0,
        operation: Some(AvailableOperationsOnKv {
            op: Some(Op::WriteOp(WriteKv { key: String::new(), value: String::new() })),
        }),
    };
    let mut buf = Vec::new();
    wal.encode(&mut buf).unwrap();
    assert_eq!(buf, vec![0x12, 0x02, 0x0a, 0x00]);
    let empty = Wal { sq_no: 0, operation: None };
    let mut buf = Vec::new();
    empty.encode(&mut buf).unwrap();
    assert!(buf.is_empty());
    let no_op = Wal { sq_no: 0, operation: Some(AvailableOperationsOnKv { op: None }) };
    let mut buf = Vec::new();
    no_op.encode(&mut buf).unwrap();
    assert_eq!(buf, vec![0x12, 0x00]);
}

#[test]
fn mem_storage_write_read_delete() {
    let mut storage = MemStorage::new();
    assert!(storage.read("k".to_string()).is_none());
    assert_eq!(storage.write("k".to_string(), "v".to_string(), 7), pair("k", "v"));
    assert_eq!(storage.read("k".to_string()), Some(pair("k", "v")));
    assert_eq!(storage.write("k".to_string(), "w".to_string(), 8), pair("k", "w"));
    assert_eq!(storage.delete("k".to_string(), 9), Some(pair("k", "w")));
    assert_eq!(storage.delete("k".to_string(), 10), None);
    assert!(storage.read("k".to_string()).is_none());
}

#[test]
fn keys_are_case_sensitive_in_storage() {
    let mut engine = StoreEngine::new("my_kv");
    let _ = record_of(engine.execute_operation(write_op("name", "Amey")).unwrap());
    engine.complete_operation(Ok(())).unwrap();
    assert_eq!(finished(engine.execute_operation(read_op("Name")).unwrap()), None);
}
