use move_core_types::language_storage::TypeTag;
use transaction_builder::{
    encode_block_prologue_script, encode_stdlib_upgrade_transaction, paths_are_distinct,
    AccessPath, AccountAddress, BlockMetadata, ContractEvent, SerializedModule, Transaction,
    WriteOp, WriteSetError, WriteSetMut,
};

fn core_address() -> AccountAddress {
    let mut bytes = [0u8; 16];
    bytes[15] = 1;
    AccountAddress::new(bytes)
}

fn module(tag: u8, code: &[u8]) -> SerializedModule {
    SerializedModule {
        access_path: AccessPath::new(core_address(), vec![0, tag]),
        code: code.to_vec(),
    }
}

#[test]
fn upgrade_writes_one_value_per_module_in_order() {
    let modules = vec![module(3, &[0xa, 0xb]), module(1, &[0xc]), module(2, &[])];
    assert!(paths_are_distinct(&modules));
    let change_set = encode_stdlib_upgrade_transaction(modules.clone());
    assert!(change_set.events().is_empty());
    let write_set = change_set.write_set();
    assert_eq!(write_set.len(), 3);
    for (i, module) in modules.iter().enumerate() {
        let (path, op) = write_set.get(i);
        assert_eq!(path, &module.access_path);
        assert_eq!(op, &WriteOp::Value(module.code.clone()));
    }
}

#[test]
fn upgrade_of_no_module_is_empty() {
    let change_set = encode_stdlib_upgrade_transaction(Vec::new());
    assert!(change_set.write_set().is_empty());
    assert_eq!(change_set.write_set().len(), 0);
    assert!(change_set.events().is_empty());
}

#[test]
fn upgrade_paths_do_not_collide() {
    let modules: Vec<SerializedModule> = (0..20u8).map(|i| module(i, &[i])).collect();
    let change_set = encode_stdlib_upgrade_transaction(modules);
    let write_set = change_set.write_set();
    for i in 0..write_set.len() {
        for j in 0..i {
            assert!(!write_set.get(i).0.same_as(&write_set.get(j).0));
        }
    }
}

#[test]
fn colliding_modules_are_told_apart() {
    let modules = vec![module(1, &[1]), module(2, &[2]), module(1, &[3])];
    assert!(!paths_are_distinct(&modules));
    assert!(paths_are_distinct(&modules[..2]));
    assert!(paths_are_distinct(&[]));
}

#[test]
fn same_path_under_other_address_is_distinct() {
    let other = AccountAddress::new([7u8; 16]);
    let a = AccessPath::new(core_address(), vec![0, 1]);
    let b = AccessPath::new(other, vec![0, 1]);
    let c = AccessPath::new(core_address(), vec![0, 1, 0]);
    assert!(!a.same_as(&b));
    assert!(!a.same_as(&c));
    assert!(a.same_as(&a.clone()));
    let modules = vec![
        SerializedModule { access_path: a, code: vec![] },
        SerializedModule { access_path: b, code: vec![] },
        SerializedModule { access_path: c, code: vec![] },
    ];
    assert!(paths_are_distinct(&modules));
}

#[test]
fn freeze_keeps_distinct_writes() {
    let mut writes = WriteSetMut::new(Vec::new());
    writes.push((AccessPath::new(core_address(), vec![1]), WriteOp::Value(vec![9])));
    writes.push((AccessPath::new(core_address(), vec![2]), WriteOp::Deletion));
    assert_eq!(writes.len(), 2);
    let frozen = writes.freeze().unwrap();
    assert_eq!(frozen.len(), 2);
    assert_eq!(frozen.get(0).1, WriteOp::Value(vec![9]));
    assert_eq!(frozen.get(1).1, WriteOp::Deletion);
    assert_eq!(frozen.into_mut().len(), 2);
}

#[test]
fn freeze_refuses_a_path_written_twice() {
    let mut writes = WriteSetMut::new(Vec::new());
    writes.push((AccessPath::new(core_address(), vec![1]), WriteOp::Value(vec![9])));
    writes.push((AccessPath::new(core_address(), vec![2]), WriteOp::Deletion));
    writes.push((AccessPath::new(core_address(), vec![1]), WriteOp::Deletion));
    assert_eq!(writes.freeze(), Err(WriteSetError::DuplicateAccessPath));
}

#[test]
fn change_set_parts_round_trip() {
    let change_set = encode_stdlib_upgrade_transaction(vec![module(1, &[5])]);
    let (write_set, events) = change_set.into_inner();
    assert_eq!(write_set.len(), 1);
    assert!(events.is_empty());
}

#[test]
fn block_prologue_wraps_metadata() {
    let metadata = BlockMetadata {
        id: [3u8; 32],
        round: 4,
        timestamp_usecs: 1_000_000,
        previous_block_votes: vec![core_address()],
        proposer: core_address(),
    };
    assert_eq!(
        encode_block_prologue_script(metadata.clone()),
        Transaction::BlockMetadata(metadata)
    );
}

#[test]
fn clones_are_equal() {
    let event = ContractEvent {
        key: vec![1, 2, 3],
        sequence_number: 5,
        type_tag: TypeTag::Vector(Box::new(TypeTag::U8)),
        event_data: vec![9],
    };
    let copy = event.clone();
    assert_eq!(copy, event);
    assert_eq!(copy.type_tag, TypeTag::Vector(Box::new(TypeTag::U8)));
    let change_set = encode_stdlib_upgrade_transaction(vec![module(1, &[5])]);
    assert_eq!(change_set.clone(), change_set);
}
