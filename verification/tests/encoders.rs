use move_core_types::language_storage::TypeTag;
use transaction_builder::{
    encode_add_currency_to_account_script, encode_add_validator_script, encode_burn_script,
    encode_burn_txn_fees_script, encode_cancel_burn_script, encode_create_child_vasp_account,
    encode_create_designated_dealer, encode_create_parent_vasp_account, encode_freeze_account,
    encode_mint_lbr, encode_mint_lbr_to_address_script, encode_mint_script,
    encode_preburn_script, encode_publish_shared_ed25519_public_key_script,
    encode_publishing_option_script, encode_register_preburner_script,
    encode_register_validator_script, encode_remove_validator_script,
    encode_rotate_authentication_key_script_with_nonce, encode_rotate_base_url_script,
    encode_rotate_compliance_public_key_script, encode_rotate_consensus_pubkey_script,
    encode_rotate_shared_ed25519_public_key_script, encode_stdlib_script, encode_tiered_mint,
    encode_transfer_with_metadata_script, encode_unfreeze_account, encode_unmint_lbr,
    encode_update_exchange_rate, encode_update_libra_version, encode_update_minting_ability,
    is_valid_auth_key_prefix, matches_schema, rotate_authentication_key_script, AccountAddress,
    ArgumentKind, LibraVersion, Script, ScriptRegistry, StdlibScript, TransactionArgument,
    ADDRESS_LENGTH, AUTHENTICATION_KEY_LENGTH, SCRIPT_COUNT,
};

fn make_registry() -> ScriptRegistry {
    let blobs = (0..SCRIPT_COUNT).map(|i| vec![0x4c, i as u8, 0x01, 0x00]).collect();
    ScriptRegistry::new(blobs).unwrap()
}

fn addr(last: u8) -> AccountAddress {
    let mut bytes = [0u8; 16];
    bytes[15] = last;
    AccountAddress::new(bytes)
}

fn kinds(script: &Script) -> Vec<ArgumentKind> {
    script.args().iter().map(|arg| arg.kind()).collect()
}

fn check(registry: &ScriptRegistry, script: &Script, expected: StdlibScript) {
    assert_eq!(script.code(), registry.bytecode_for(expected));
    assert_eq!(script.ty_args().len(), expected.type_arity());
    assert_eq!(kinds(script), expected.schema());
    assert!(matches_schema(expected, script.ty_args(), script.args()));
}

#[test]
fn address_keeps_its_bytes() {
    let bytes = [1u8, 2, 3, 4, 5, 6, 7, 8, 9, 10, 11, 12, 13, 14, 15, 16];
    let address = AccountAddress::new(bytes);
    assert_eq!(address.to_bytes(), bytes);
    assert!(address.same_as(&AccountAddress::new(bytes)));
    assert!(!address.same_as(&addr(16)));
    assert!(!addr(1).same_as(&addr(2)));
}

#[test]
fn key_and_address_lengths() {
    assert_eq!(ADDRESS_LENGTH, 16);
    assert_eq!(AUTHENTICATION_KEY_LENGTH, 32);
}

#[test]
fn auth_key_prefix_of_accepted_length() {
    assert!(is_valid_auth_key_prefix(&[]));
    assert!(is_valid_auth_key_prefix(&[7u8; 16]));
}

#[test]
fn auth_key_prefix_of_other_length() {
    assert!(!is_valid_auth_key_prefix(&[0x01]));
    assert!(!is_valid_auth_key_prefix(&[0u8; 15]));
    assert!(!is_valid_auth_key_prefix(&[0u8; 17]));
    assert!(!is_valid_auth_key_prefix(&[0u8; 32]));
}

#[test]
fn add_validator_scenario() {
    let registry = make_registry();
    let script = encode_add_validator_script(&registry, addr(0x58));
    assert_eq!(script.code(), registry.bytecode_for(StdlibScript::AddValidator));
    assert_eq!(script.code(), &[0x4c, 1, 0x01, 0x00][..]);
    assert!(script.ty_args().is_empty());
    assert_eq!(script.args(), &[TransactionArgument::Address(addr(0x58))][..]);
}

#[test]
fn mint_lbr_to_address_with_empty_prefix() {
    let registry = make_registry();
    let script = encode_mint_lbr_to_address_script(&registry, &addr(0x59), vec![], 100);
    assert_eq!(script.code(), registry.bytecode_for(StdlibScript::MintLbrToAddress));
    assert!(script.ty_args().is_empty());
    assert_eq!(
        script.args(),
        &[
            TransactionArgument::Address(addr(0x59)),
            TransactionArgument::U8Vector(vec![]),
            TransactionArgument::U64(100),
        ][..]
    );
}

#[test]
fn mint_lbr_to_address_with_full_prefix() {
    let registry = make_registry();
    let prefix = vec![9u8; 16];
    let script = encode_mint_lbr_to_address_script(&registry, &addr(0x59), prefix.clone(), 7);
    assert_eq!(
        script.args(),
        &[
            TransactionArgument::Address(addr(0x59)),
            TransactionArgument::U8Vector(prefix),
            TransactionArgument::U64(7),
        ][..]
    );
    check(&registry, &script, StdlibScript::MintLbrToAddress);
}

#[test]
fn mint_lbr_to_address_refuses_one_byte_prefix() {
    let prefix = vec![0x01u8];
    assert!(prefix.len() != 0 && prefix.len() != AUTHENTICATION_KEY_LENGTH - ADDRESS_LENGTH);
    assert!(!is_valid_auth_key_prefix(&prefix));
}

#[test]
fn mint_script_lists_sender_prefix_amount() {
    let registry = make_registry();
    let script = encode_mint_script(&registry, TypeTag::U64, &addr(3), vec![5u8; 16], 42);
    assert_eq!(script.ty_args(), &[TypeTag::U64][..]);
    assert_eq!(
        script.args(),
        &[
            TransactionArgument::Address(addr(3)),
            TransactionArgument::U8Vector(vec![5u8; 16]),
            TransactionArgument::U64(42),
        ][..]
    );
    check(&registry, &script, StdlibScript::Mint);
}

#[test]
fn create_parent_vasp_account_schema() {
    let registry = make_registry();
    let script = encode_create_parent_vasp_account(
        &registry,
        TypeTag::Bool,
        addr(1),
        vec![1],
        vec![2, 2],
        vec![3, 3, 3],
        vec![4],
        true,
    );
    assert_eq!(
        kinds(&script),
        vec![
            ArgumentKind::Address,
            ArgumentKind::Bytes,
            ArgumentKind::Bytes,
            ArgumentKind::Bytes,
            ArgumentKind::Bytes,
            ArgumentKind::Bool,
        ]
    );
    assert_eq!(script.ty_args(), &[TypeTag::Bool][..]);
    assert_eq!(
        script.args(),
        &[
            TransactionArgument::Address(addr(1)),
            TransactionArgument::U8Vector(vec![1]),
            TransactionArgument::U8Vector(vec![2, 2]),
            TransactionArgument::U8Vector(vec![3, 3, 3]),
            TransactionArgument::U8Vector(vec![4]),
            TransactionArgument::Bool(true),
        ][..]
    );
    check(&registry, &script, StdlibScript::CreateParentVaspAccount);
}

#[test]
fn transfer_keeps_argument_order() {
    let registry = make_registry();
    let script = encode_transfer_with_metadata_script(
        &registry,
        TypeTag::U8,
        addr(8),
        1_000,
        vec![0xaa],
        vec![0xbb, 0xcc],
    );
    assert_eq!(
        script.args(),
        &[
            TransactionArgument::Address(addr(8)),
            TransactionArgument::U64(1_000),
            TransactionArgument::U8Vector(vec![0xaa]),
            TransactionArgument::U8Vector(vec![0xbb, 0xcc]),
        ][..]
    );
    check(&registry, &script, StdlibScript::PeerToPeerWithMetadata);
}

#[test]
fn update_exchange_rate_puts_denominator_first() {
    let registry = make_registry();
    let script = encode_update_exchange_rate(&registry, TypeTag::U64, 3, 2);
    assert_eq!(
        script.args(),
        &[TransactionArgument::U64(3), TransactionArgument::U64(2)][..]
    );
    check(&registry, &script, StdlibScript::UpdateExchangeRate);
}

#[test]
fn register_validator_keeps_five_blobs_in_order() {
    let registry = make_registry();
    let script = encode_register_validator_script(
        &registry,
        vec![1],
        vec![2],
        vec![3],
        vec![4],
        vec![5],
    );
    assert_eq!(
        script.args(),
        &[
            TransactionArgument::U8Vector(vec![1]),
            TransactionArgument::U8Vector(vec![2]),
            TransactionArgument::U8Vector(vec![3]),
            TransactionArgument::U8Vector(vec![4]),
            TransactionArgument::U8Vector(vec![5]),
        ][..]
    );
    check(&registry, &script, StdlibScript::RegisterValidator);
}

#[test]
fn update_libra_version_takes_major() {
    let registry = make_registry();
    let script = encode_update_libra_version(&registry, LibraVersion { major: 12 });
    assert!(script.ty_args().is_empty());
    assert_eq!(script.args(), &[TransactionArgument::U64(12)][..]);
    check(&registry, &script, StdlibScript::UpdateLibraVersion);
}

#[test]
fn publishing_option_carries_serialized_config() {
    let registry = make_registry();
    let script = encode_publishing_option_script(&registry, vec![0x02]);
    assert!(script.ty_args().is_empty());
    assert_eq!(script.args(), &[TransactionArgument::U8Vector(vec![0x02])][..]);
    check(&registry, &script, StdlibScript::ModifyPublishingOption);
}

#[test]
fn bytecode_does_not_depend_on_arguments() {
    let registry = make_registry();
    let a = encode_burn_script(&registry, TypeTag::U64, 0, addr(1));
    let b = encode_burn_script(&registry, TypeTag::Address, u64::MAX, addr(2));
    assert_eq!(a.code(), b.code());
    assert_eq!(a.code(), registry.bytecode_for(StdlibScript::Burn));
    let c = encode_freeze_account(&registry, 1, addr(1));
    let d = encode_freeze_account(&registry, 2, addr(9));
    assert_eq!(c.code(), d.code());
    assert_ne!(a.code(), c.code());
}

#[test]
fn every_encoder_follows_its_schema() {
    let r = make_registry();
    let t = || TypeTag::U64;
    check(&r, &encode_add_currency_to_account_script(&r, t()), StdlibScript::AddCurrencyToAccount);
    check(&r, &encode_add_validator_script(&r, addr(1)), StdlibScript::AddValidator);
    check(&r, &encode_burn_script(&r, t(), 1, addr(1)), StdlibScript::Burn);
    check(&r, &encode_burn_txn_fees_script(&r, t()), StdlibScript::BurnTxnFees);
    check(&r, &encode_cancel_burn_script(&r, t(), addr(1)), StdlibScript::CancelBurn);
    check(
        &r,
        &encode_create_child_vasp_account(&r, t(), addr(1), vec![], false, 5),
        StdlibScript::CreateChildVaspAccount,
    );
    check(
        &r,
        &encode_create_designated_dealer(&r, t(), 1, addr(1), vec![]),
        StdlibScript::CreateDesignatedDealer,
    );
    check(&r, &encode_freeze_account(&r, 1, addr(1)), StdlibScript::FreezeAccount);
    check(&r, &encode_mint_lbr(&r, 1), StdlibScript::MintLbr);
    check(&r, &encode_preburn_script(&r, t(), 1), StdlibScript::Preburn);
    check(
        &r,
        &encode_publish_shared_ed25519_public_key_script(&r, vec![0; 32]),
        StdlibScript::PublishSharedEd2551PublicKey,
    );
    check(&r, &encode_register_preburner_script(&r, t()), StdlibScript::RegisterPreburner);
    check(&r, &encode_remove_validator_script(&r, addr(1)), StdlibScript::RemoveValidator);
    check(
        &r,
        &rotate_authentication_key_script(&r, vec![0; 32]),
        StdlibScript::RotateAuthenticationKey,
    );
    check(
        &r,
        &encode_rotate_authentication_key_script_with_nonce(&r, 1, vec![0; 32]),
        StdlibScript::RotateAuthenticationKeyWithNonce,
    );
    check(&r, &encode_rotate_base_url_script(&r, vec![1]), StdlibScript::RotateBaseUrl);
    check(
        &r,
        &encode_rotate_compliance_public_key_script(&r, vec![1]),
        StdlibScript::RotateCompliancePublicKey,
    );
    check(
        &r,
        &encode_rotate_consensus_pubkey_script(&r, vec![1]),
        StdlibScript::RotateConsensusPubkey,
    );
    check(
        &r,
        &encode_rotate_shared_ed25519_public_key_script(&r, vec![1]),
        StdlibScript::RotateSharedEd2551PublicKey,
    );
    check(&r, &encode_tiered_mint(&r, t(), 1, addr(1), 2, 3), StdlibScript::TieredMint);
    check(&r, &encode_unfreeze_account(&r, 1, addr(1)), StdlibScript::UnfreezeAccount);
    check(&r, &encode_unmint_lbr(&r, 1), StdlibScript::UnmintLbr);
    check(&r, &encode_update_minting_ability(&r, t(), true), StdlibScript::UpdateMintingAbility);
}

#[test]
fn tiered_mint_keeps_argument_order() {
    let registry = make_registry();
    let script = encode_tiered_mint(&registry, TypeTag::U64, 10, addr(4), 20, 3);
    assert_eq!(
        script.args(),
        &[
            TransactionArgument::U64(10),
            TransactionArgument::Address(addr(4)),
            TransactionArgument::U64(20),
            TransactionArgument::U64(3),
        ][..]
    );
}

#[test]
fn untyped_encoder_takes_anything() {
    let registry = make_registry();
    let args = vec![TransactionArgument::Bool(false), TransactionArgument::U64(1)];
    let script = encode_stdlib_script(
        &registry,
        StdlibScript::AddValidator,
        vec![TypeTag::U8, TypeTag::U64],
        args.clone(),
    );
    assert_eq!(script.code(), registry.bytecode_for(StdlibScript::AddValidator));
    assert_eq!(script.ty_args(), &[TypeTag::U8, TypeTag::U64][..]);
    assert_eq!(script.args(), &args[..]);
    assert!(!matches_schema(StdlibScript::AddValidator, script.ty_args(), script.args()));
}

#[test]
fn matches_schema_tells_kinds_order_and_arity() {
    let a = TransactionArgument::Address(addr(1));
    let n = TransactionArgument::U64(1);
    assert!(matches_schema(StdlibScript::FreezeAccount, &[], &[n.clone(), a.clone()]));
    assert!(!matches_schema(StdlibScript::FreezeAccount, &[], &[a.clone(), n.clone()]));
    assert!(!matches_schema(StdlibScript::FreezeAccount, &[], &[n.clone()]));
    assert!(!matches_schema(StdlibScript::FreezeAccount, &[TypeTag::U64], &[n.clone(), a.clone()]));
    assert!(matches_schema(StdlibScript::BurnTxnFees, &[TypeTag::U64], &[]));
    assert!(!matches_schema(StdlibScript::BurnTxnFees, &[], &[]));
}

#[test]
fn script_parts_round_trip() {
    let script = Script::new(vec![1, 2], vec![TypeTag::Bool], vec![TransactionArgument::U64(9)]);
    assert_eq!(script.code(), &[1, 2][..]);
    let (code, ty_args, args) = script.into_inner();
    assert_eq!(code, vec![1, 2]);
    assert_eq!(ty_args, vec![TypeTag::Bool]);
    assert_eq!(args, vec![TransactionArgument::U64(9)]);
}
