//! Typed encoders for transaction scripts and the builder of upgrade write sets.
//!
//! Every encoder turns the native parameters of one script into a `Script`: the bytecode
//! that the `ScriptRegistry` holds for the script, the type arguments, and the arguments in
//! the order in which the script takes them.

pub mod account_address;
pub mod bytes;
pub mod encoders;
pub mod on_chain_config;
pub mod registry;
pub mod script;
pub mod stdlib_script;
pub mod transaction;
pub mod type_tag;
pub mod write_set;

pub use crate::account_address::{
    is_valid_auth_key_prefix, validate_auth_key_prefix, AccountAddress, ADDRESS_LENGTH,
    AUTHENTICATION_KEY_LENGTH,
};
pub use crate::encoders::{
    encode_add_currency_to_account_script, encode_add_validator_script, encode_burn_script,
    encode_burn_txn_fees_script, encode_cancel_burn_script, encode_create_child_vasp_account,
    encode_create_designated_dealer, encode_create_parent_vasp_account, encode_freeze_account,
    encode_mint_lbr, encode_mint_lbr_to_address_script, encode_mint_script,
    encode_preburn_script, encode_publish_shared_ed25519_public_key_script,
    encode_publishing_option_script, encode_register_preburner_script,
    encode_register_validator_script, encode_remove_validator_script,
    encode_rotate_authentication_key_script_with_nonce, encode_rotate_base_url_script,
    encode_rotate_compliance_public_key_script, encode_rotate_consensus_pubkey_script,
    encode_rotate_shared_ed25519_public_key_script, encode_stdlib_script, encode_tiered_mint,
    encode_transfer_with_metadata_script, encode_unfreeze_account, encode_unmint_lbr,
    encode_update_exchange_rate, encode_update_libra_version, encode_update_minting_ability,
    matches_schema, rotate_authentication_key_script,
};
pub use crate::on_chain_config::LibraVersion;
pub use crate::registry::{get_transaction_name, RegistryError, ScriptRegistry};
pub use crate::script::{ArgumentKind, Script, TransactionArgument};
pub use crate::stdlib_script::{StdlibScript, SCRIPT_COUNT};
pub use crate::transaction::{encode_block_prologue_script, BlockMetadata, Transaction};
pub use crate::write_set::{
    encode_stdlib_upgrade_transaction, paths_are_distinct, AccessPath, ChangeSet, ContractEvent,
    SerializedModule, WriteOp, WriteSet, WriteSetError, WriteSetMut,
};
