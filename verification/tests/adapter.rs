use resource_bridge::{AuditRecord, BridgeError, InterfaceAdapter};

#[test]
fn adapter_scenario_new_get_set_drop() {
    let mut adapter = InterfaceAdapter::default();
    let h0 = adapter.new(7).unwrap();
    assert_eq!(adapter.get(h0), Ok(7));
    assert_eq!(adapter.set(h0, 9), Ok(()));
    assert_eq!(adapter.get(h0), Ok(9));
    assert_eq!(adapter.drop(h0), Ok(()));
    assert_eq!(adapter.get(h0), Err(BridgeError::UnknownHandle(h0)));
}

#[test]
fn adapter_records_what_was_created_and_destroyed() {
    let mut adapter = InterfaceAdapter::default();
    let a = adapter.new(1).unwrap();
    let b = adapter.new(2).unwrap();
    assert_eq!(adapter.set(a, 5), Ok(()));
    assert_eq!(adapter.drop(a), Ok(()));
    assert_eq!(
        adapter.take_audit(),
        vec![
            AuditRecord::Created { handle: a, state: 1 },
            AuditRecord::Created { handle: b, state: 2 },
            AuditRecord::Destroyed { handle: a, state: 5 },
        ]
    );
    assert_eq!(adapter.take_audit(), vec![]);
    assert_eq!(adapter.get(b), Ok(2));
}

#[test]
fn adapter_calls_on_unknown_handles_fail_and_record_nothing() {
    let mut adapter = InterfaceAdapter::default();
    let h = adapter.new(4).unwrap();
    assert_eq!(adapter.take_audit().len(), 1);
    assert_eq!(adapter.set(9, 1), Err(BridgeError::UnknownHandle(9)));
    assert_eq!(adapter.get(9), Err(BridgeError::UnknownHandle(9)));
    assert_eq!(adapter.drop(9), Err(BridgeError::UnknownHandle(9)));
    assert_eq!(adapter.take_audit(), vec![]);
    assert_eq!(adapter.get(h), Ok(4));
    assert_eq!(adapter.table().len(), 1);
}

#[test]
fn adapter_release_all_destroys_what_is_left() {
    let mut adapter = InterfaceAdapter::default();
    let a = adapter.new(10).unwrap();
    let b = adapter.new(20).unwrap();
    let c = adapter.new(30).unwrap();
    assert_eq!(adapter.drop(b), Ok(()));
    assert_eq!(adapter.take_audit().len(), 4);
    adapter.release_all();
    assert_eq!(
        adapter.take_audit(),
        vec![
            AuditRecord::Destroyed { handle: a, state: 10 },
            AuditRecord::Destroyed { handle: c, state: 30 },
        ]
    );
    assert_eq!(adapter.table().len(), 0);
    assert_eq!(adapter.get(a), Err(BridgeError::UnknownHandle(a)));
    adapter.release_all();
    assert_eq!(adapter.take_audit(), vec![]);
}
