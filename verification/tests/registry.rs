use transaction_builder::{
    get_transaction_name, RegistryError, ScriptRegistry, StdlibScript, SCRIPT_COUNT,
};

fn blobs() -> Vec<Vec<u8>> {
    (0..SCRIPT_COUNT).map(|i| vec![0xa1, 0x1c, i as u8]).collect()
}

fn registry() -> ScriptRegistry {
    ScriptRegistry::new(blobs()).unwrap()
}

#[test]
fn script_count_is_thirty_one() {
    assert_eq!(SCRIPT_COUNT, 31);
    assert_eq!(StdlibScript::all().len(), 31);
}

#[test]
fn all_lists_scripts_by_index() {
    let all = StdlibScript::all();
    for (i, script) in all.iter().enumerate() {
        assert_eq!(script.index(), i);
        assert_eq!(StdlibScript::from_index(i), Some(*script));
    }
    assert_eq!(all[0], StdlibScript::AddCurrencyToAccount);
    assert_eq!(all[1], StdlibScript::AddValidator);
    assert_eq!(all[30], StdlibScript::UpdateMintingAbility);
}

#[test]
fn from_index_ends_at_script_count() {
    assert_eq!(StdlibScript::from_index(30), Some(StdlibScript::UpdateMintingAbility));
    assert_eq!(StdlibScript::from_index(31), None);
    assert_eq!(StdlibScript::from_index(usize::MAX), None);
}

#[test]
fn names_are_lowercase_with_underscores() {
    assert_eq!(StdlibScript::AddValidator.name(), "add_validator");
    assert_eq!(StdlibScript::PeerToPeerWithMetadata.name(), "peer_to_peer_with_metadata");
    assert_eq!(
        StdlibScript::PublishSharedEd2551PublicKey.name(),
        "publish_shared_ed25519_public_key"
    );
    assert_eq!(StdlibScript::MintLbrToAddress.name(), "mint_lbr_to_address");
    assert_eq!(StdlibScript::UpdateLibraVersion.name(), "update_libra_version");
}

#[test]
fn names_are_distinct() {
    let all = StdlibScript::all();
    for a in all.iter() {
        for b in all.iter() {
            assert_eq!(a.name() == b.name(), a == b);
        }
    }
}

#[test]
fn registry_accepts_a_valid_table() {
    let registry = registry();
    for script in StdlibScript::all() {
        assert_eq!(registry.bytecode_for(script), &[0xa1, 0x1c, script.index() as u8][..]);
    }
}

#[test]
fn registry_rejects_wrong_count() {
    let mut short = blobs();
    short.pop();
    assert_eq!(ScriptRegistry::new(short), Err(RegistryError::WrongCount));
    let mut long = blobs();
    long.push(vec![0xff]);
    assert_eq!(ScriptRegistry::new(long), Err(RegistryError::WrongCount));
    assert_eq!(ScriptRegistry::new(Vec::new()), Err(RegistryError::WrongCount));
}

#[test]
fn registry_rejects_empty_bytecode() {
    let mut table = blobs();
    table[7] = Vec::new();
    assert_eq!(ScriptRegistry::new(table), Err(RegistryError::EmptyBytecode));
}

#[test]
fn registry_rejects_duplicate_bytecode() {
    let mut table = blobs();
    table[30] = table[0].clone();
    assert_eq!(ScriptRegistry::new(table), Err(RegistryError::DuplicateBytecode));
}

#[test]
fn registry_reports_empty_before_duplicate() {
    let mut table = blobs();
    table[3] = table[2].clone();
    table[20] = Vec::new();
    assert_eq!(ScriptRegistry::new(table), Err(RegistryError::EmptyBytecode));
}

#[test]
fn script_of_finds_every_registered_bytecode() {
    let registry = registry();
    for script in StdlibScript::all() {
        let code = registry.bytecode_for(script).to_vec();
        assert_eq!(registry.script_of(&code), Some(script));
        assert_eq!(registry.display_name_for(&code), Some(script.name()));
    }
}

#[test]
fn script_of_misses_other_bytes() {
    let registry = registry();
    assert_eq!(registry.script_of(&[]), None);
    assert_eq!(registry.script_of(&[0xa1, 0x1c]), None);
    assert_eq!(registry.script_of(&[0xa1, 0x1c, 31]), None);
    assert_eq!(registry.script_of(&[0xa1, 0x1c, 0, 0]), None);
    assert_eq!(registry.display_name_for(&[0xde, 0xad]), None);
}

#[test]
fn transaction_name_of_registered_bytecode() {
    let registry = registry();
    for script in StdlibScript::all() {
        let code = registry.bytecode_for(script).to_vec();
        assert_eq!(
            get_transaction_name(&registry, &code),
            format!("{}_transaction", script.name())
        );
    }
    assert_eq!(
        get_transaction_name(&registry, &[0xa1, 0x1c, 1]),
        "add_validator_transaction"
    );
    assert_eq!(
        get_transaction_name(&registry, &[0xa1, 0x1c, 13]),
        "peer_to_peer_with_metadata_transaction"
    );
}

#[test]
fn transaction_name_of_unknown_bytecode() {
    let registry = registry();
    assert_eq!(get_transaction_name(&registry, &[]), "<unknown transaction>");
    assert_eq!(get_transaction_name(&registry, &[1, 2, 3]), "<unknown transaction>");
    assert_eq!(get_transaction_name(&registry, &[0xa1, 0x1c]), "<unknown transaction>");
}
