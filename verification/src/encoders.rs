//! One encoder for each transaction script. Every encoder takes the script's bytecode from
//! the registry and lists the arguments in the order in which the script takes them.

use move_core_types::language_storage::TypeTag;
use vstd::prelude::*;
use vstd::slice::slice_to_vec;

use crate::account_address::{valid_auth_key_prefix, validate_auth_key_prefix, AccountAddress};
use crate::on_chain_config::LibraVersion;
use crate::registry::ScriptRegistry;
use crate::script::{
    argument_kinds, argument_values, ArgumentValue, Script, TransactionArgument,
};
use crate::stdlib_script::StdlibScript;

verus! {

/// Tells whether the type arguments and arguments fit the schema of `stdlib_script`: as many
/// type arguments as it takes, and arguments of the kinds it takes, in the same order.
pub fn matches_schema(
    stdlib_script: StdlibScript,
    type_args: &[TypeTag],
    args: &[TransactionArgument],
) -> (fits: bool)
    ensures
        fits == stdlib_script.accepts(
            type_args@.len(),
            argument_kinds(argument_values(args@)),
        ),
{
    let kinds = stdlib_script.schema();
    let ghost given = argument_kinds(argument_values(args@));
    if type_args.len() != stdlib_script.type_arity() || args.len() != kinds.len() {
        return false;
    }
    let mut index: usize = 0;
    while index < args.len()
        invariant
            given == argument_kinds(argument_values(args@)),
            kinds@ == stdlib_script.spec_schema(),
            kinds@.len() == args@.len(),
            index <= args@.len(),
            forall|i: int| 0 <= i < index ==> given[i] == kinds@[i],
        decreases args@.len() - index,
    {
        if args[index].kind() != kinds[index] {
            assert(given[index as int] != kinds@[index as int]);
            return false;
        }
        index += 1;
    }
    assert(given =~= kinds@);
    true
}

/// Encodes `stdlib_script` with the given type arguments and arguments, whatever they are.
/// Nothing holds them to the script's schema: use the typed encoders below where one fits,
/// or `matches_schema` first.
pub fn encode_stdlib_script(
    registry: &ScriptRegistry,
    stdlib_script: StdlibScript,
    type_args: Vec<TypeTag>,
    args: Vec<TransactionArgument>,
) -> (script: Script)
    ensures
        script@.code == registry.bytecode(stdlib_script),
        script@.ty_args == type_args@,
        script@.args == argument_values(args@),
{
    Script::new(slice_to_vec(registry.bytecode_for(stdlib_script)), type_args, args)
}

/// Encodes the script that adds `new_validator` to the pending validator set. On chain it fails
/// if the address is already in the validator set, is already pending, or holds no validator
/// configuration.
pub fn encode_add_validator_script(
    registry: &ScriptRegistry,
    new_validator: AccountAddress,
) -> (script: Script)
    ensures
        script@.code == registry.bytecode(StdlibScript::AddValidator),
        script@.ty_args == Seq::<TypeTag>::empty(),
        script@.args == seq![ArgumentValue::Address(new_validator@)],
        script@.conforms_to(StdlibScript::AddValidator),
{
    encode_stdlib_script(
        registry,
        StdlibScript::AddValidator,
        Vec::new(),
        vec![TransactionArgument::Address(new_validator)],
    )
}

/// Encodes the script that destroys for good the coins of type `type_` in the oldest burn
/// request held at `preburn_address`. On chain it succeeds only for a sender that may mint, and
/// only if such a request is pending.
pub fn encode_burn_script(
    registry: &ScriptRegistry,
    type_: TypeTag,
    nonce: u64,
    preburn_address: AccountAddress,
) -> (script: Script)
    ensures
        script@.code == registry.bytecode(StdlibScript::Burn),
        script@.ty_args == seq![type_],
        script@.args == seq![ArgumentValue::U64(nonce), ArgumentValue::Address(preburn_address@)],
        script@.conforms_to(StdlibScript::Burn),
{
    encode_stdlib_script(
        registry,
        StdlibScript::Burn,
        vec![type_],
        vec![TransactionArgument::U64(nonce), TransactionArgument::Address(preburn_address)],
    )
}

/// Encodes the script that burns the transaction fees collected in `currency`, which must not
/// be a synthetic currency.
pub fn encode_burn_txn_fees_script(
    registry: &ScriptRegistry,
    currency: TypeTag,
) -> (script: Script)
    ensures
        script@.code == registry.bytecode(StdlibScript::BurnTxnFees),
        script@.ty_args == seq![currency],
        script@.args == Seq::<ArgumentValue>::empty(),
        script@.conforms_to(StdlibScript::BurnTxnFees),
{
    encode_stdlib_script(
        registry,
        StdlibScript::BurnTxnFees,
        vec![currency],
        Vec::new(),
    )
}

/// Encodes the script that cancels the oldest burn request held at `preburn_address` and gives
/// the coins of type `type_` back to that address.
pub fn encode_cancel_burn_script(
    registry: &ScriptRegistry,
    type_: TypeTag,
    preburn_address: AccountAddress,
) -> (script: Script)
    ensures
        script@.code == registry.bytecode(StdlibScript::CancelBurn),
        script@.ty_args == seq![type_],
        script@.args == seq![ArgumentValue::Address(preburn_address@)],
        script@.conforms_to(StdlibScript::CancelBurn),
{
    encode_stdlib_script(
        registry,
        StdlibScript::CancelBurn,
        vec![type_],
        vec![TransactionArgument::Address(preburn_address)],
    )
}

/// Encodes the script that transfers `amount` coins of type `coin_type` from the sender to
/// `recipient_address`. `metadata` and `metadata_signature` may be empty; the chain asks for
/// them only for large transfers between two distinct VASPs.
pub fn encode_transfer_with_metadata_script(
    registry: &ScriptRegistry,
    coin_type: TypeTag,
    recipient_address: AccountAddress,
    amount: u64,
    metadata: Vec<u8>,
    metadata_signature: Vec<u8>,
) -> (script: Script)
    ensures
        script@.code == registry.bytecode(StdlibScript::PeerToPeerWithMetadata),
        script@.ty_args == seq![coin_type],
        script@.args == seq![
            ArgumentValue::Address(recipient_address@),
            ArgumentValue::U64(amount),
            ArgumentValue::U8Vector(metadata@),
            ArgumentValue::U8Vector(metadata_signature@),
        ],
        script@.conforms_to(StdlibScript::PeerToPeerWithMetadata),
{
    encode_stdlib_script(
        registry,
        StdlibScript::PeerToPeerWithMetadata,
        vec![coin_type],
        vec![
            TransactionArgument::Address(recipient_address),
            TransactionArgument::U64(amount),
            TransactionArgument::U8Vector(metadata),
            TransactionArgument::U8Vector(metadata_signature),
        ],
    )
}

/// Encodes the script that moves `amount` coins of type `type_` from the sender's balance into
/// a burn request.
pub fn encode_preburn_script(
    registry: &ScriptRegistry,
    type_: TypeTag,
    amount: u64,
) -> (script: Script)
    ensures
        script@.code == registry.bytecode(StdlibScript::Preburn),
        script@.ty_args == seq![type_],
        script@.args == seq![ArgumentValue::U64(amount)],
        script@.conforms_to(StdlibScript::Preburn),
{
    encode_stdlib_script(
        registry,
        StdlibScript::Preburn,
        vec![type_],
        vec![TransactionArgument::U64(amount)],
    )
}

/// Encodes the script that rotates the sender's authentication key to `public_key` and
/// publishes the key, with the right to rotate it, under the sender's address. On chain the key
/// must be 32 bytes long.
pub fn encode_publish_shared_ed25519_public_key_script(
    registry: &ScriptRegistry,
    public_key: Vec<u8>,
) -> (script: Script)
    ensures
        script@.code == registry.bytecode(StdlibScript::PublishSharedEd2551PublicKey),
        script@.ty_args == Seq::<TypeTag>::empty(),
        script@.args == seq![ArgumentValue::U8Vector(public_key@)],
        script@.conforms_to(StdlibScript::PublishSharedEd2551PublicKey),
{
    encode_stdlib_script(
        registry,
        StdlibScript::PublishSharedEd2551PublicKey,
        Vec::new(),
        vec![TransactionArgument::U8Vector(public_key)],
    )
}

/// Encodes the script that gives the sending account a balance in `currency`. On chain it
/// aborts if the account has one already.
pub fn encode_add_currency_to_account_script(
    registry: &ScriptRegistry,
    currency: TypeTag,
) -> (script: Script)
    ensures
        script@.code == registry.bytecode(StdlibScript::AddCurrencyToAccount),
        script@.ty_args == seq![currency],
        script@.args == Seq::<ArgumentValue>::empty(),
        script@.conforms_to(StdlibScript::AddCurrencyToAccount),
{
    encode_stdlib_script(
        registry,
        StdlibScript::AddCurrencyToAccount,
        vec![currency],
        Vec::new(),
    )
}

/// Encodes the script that lets the sender hold burn requests for coins of type `type_`.
pub fn encode_register_preburner_script(
    registry: &ScriptRegistry,
    type_: TypeTag,
) -> (script: Script)
    ensures
        script@.code == registry.bytecode(StdlibScript::RegisterPreburner),
        script@.ty_args == seq![type_],
        script@.args == Seq::<ArgumentValue>::empty(),
        script@.conforms_to(StdlibScript::RegisterPreburner),
{
    encode_stdlib_script(
        registry,
        StdlibScript::RegisterPreburner,
        vec![type_],
        Vec::new(),
    )
}

/// Encodes the script that registers the sender as a candidate validator, with its consensus
/// key and the network identity keys and addresses of its validator and full nodes.
pub fn encode_register_validator_script(
    registry: &ScriptRegistry,
    consensus_pubkey: Vec<u8>,
    validator_network_identity_pubkey: Vec<u8>,
    validator_network_address: Vec<u8>,
    fullnodes_network_identity_pubkey: Vec<u8>,
    fullnodes_network_address: Vec<u8>,
) -> (script: Script)
    ensures
        script@.code == registry.bytecode(StdlibScript::RegisterValidator),
        script@.ty_args == Seq::<TypeTag>::empty(),
        script@.args == seq![
            ArgumentValue::U8Vector(consensus_pubkey@),
            ArgumentValue::U8Vector(validator_network_identity_pubkey@),
            ArgumentValue::U8Vector(validator_network_address@),
            ArgumentValue::U8Vector(fullnodes_network_identity_pubkey@),
            ArgumentValue::U8Vector(fullnodes_network_address@),
        ],
        script@.conforms_to(StdlibScript::RegisterValidator),
{
    encode_stdlib_script(
        registry,
        StdlibScript::RegisterValidator,
        Vec::new(),
        vec![
            TransactionArgument::U8Vector(consensus_pubkey),
            TransactionArgument::U8Vector(validator_network_identity_pubkey),
            TransactionArgument::U8Vector(validator_network_address),
            TransactionArgument::U8Vector(fullnodes_network_identity_pubkey),
            TransactionArgument::U8Vector(fullnodes_network_address),
        ],
    )
}

/// Encodes the script that adds `to_remove` to the validators whose removal is pending.
pub fn encode_remove_validator_script(
    registry: &ScriptRegistry,
    to_remove: AccountAddress,
) -> (script: Script)
    ensures
        script@.code == registry.bytecode(StdlibScript::RemoveValidator),
        script@.ty_args == Seq::<TypeTag>::empty(),
        script@.args == seq![ArgumentValue::Address(to_remove@)],
        script@.conforms_to(StdlibScript::RemoveValidator),
{
    encode_stdlib_script(
        registry,
        StdlibScript::RemoveValidator,
        Vec::new(),
        vec![TransactionArgument::Address(to_remove)],
    )
}

/// Encodes the script that sets the compliance public key of the sender's VASP to `new_key`.
pub fn encode_rotate_compliance_public_key_script(
    registry: &ScriptRegistry,
    new_key: Vec<u8>,
) -> (script: Script)
    ensures
        script@.code == registry.bytecode(StdlibScript::RotateCompliancePublicKey),
        script@.ty_args == Seq::<TypeTag>::empty(),
        script@.args == seq![ArgumentValue::U8Vector(new_key@)],
        script@.conforms_to(StdlibScript::RotateCompliancePublicKey),
{
    encode_stdlib_script(
        registry,
        StdlibScript::RotateCompliancePublicKey,
        Vec::new(),
        vec![TransactionArgument::U8Vector(new_key)],
    )
}

/// Encodes the script that sets the base URL of the sender's VASP to `new_url`.
pub fn encode_rotate_base_url_script(
    registry: &ScriptRegistry,
    new_url: Vec<u8>,
) -> (script: Script)
    ensures
        script@.code == registry.bytecode(StdlibScript::RotateBaseUrl),
        script@.ty_args == Seq::<TypeTag>::empty(),
        script@.args == seq![ArgumentValue::U8Vector(new_url@)],
        script@.conforms_to(StdlibScript::RotateBaseUrl),
{
    encode_stdlib_script(
        registry,
        StdlibScript::RotateBaseUrl,
        Vec::new(),
        vec![TransactionArgument::U8Vector(new_url)],
    )
}

/// Encodes the script that sets the sender's consensus public key to `new_key`.
pub fn encode_rotate_consensus_pubkey_script(
    registry: &ScriptRegistry,
    new_key: Vec<u8>,
) -> (script: Script)
    ensures
        script@.code == registry.bytecode(StdlibScript::RotateConsensusPubkey),
        script@.ty_args == Seq::<TypeTag>::empty(),
        script@.args == seq![ArgumentValue::U8Vector(new_key@)],
        script@.conforms_to(StdlibScript::RotateConsensusPubkey),
{
    encode_stdlib_script(
        registry,
        StdlibScript::RotateConsensusPubkey,
        Vec::new(),
        vec![TransactionArgument::U8Vector(new_key)],
    )
}

/// Encodes the script that sets the sender's authentication key to `new_hashed_key`, the
/// 256-bit hash of a public key.
pub fn rotate_authentication_key_script(
    registry: &ScriptRegistry,
    new_hashed_key: Vec<u8>,
) -> (script: Script)
    ensures
        script@.code == registry.bytecode(StdlibScript::RotateAuthenticationKey),
        script@.ty_args == Seq::<TypeTag>::empty(),
        script@.args == seq![ArgumentValue::U8Vector(new_hashed_key@)],
        script@.conforms_to(StdlibScript::RotateAuthenticationKey),
{
    encode_stdlib_script(
        registry,
        StdlibScript::RotateAuthenticationKey,
        Vec::new(),
        vec![TransactionArgument::U8Vector(new_hashed_key)],
    )
}

/// Encodes the script that replaces the sender's shared public key by `new_public_key` and
/// rotates the authentication key to match. On chain the key must be 32 bytes long.
pub fn encode_rotate_shared_ed25519_public_key_script(
    registry: &ScriptRegistry,
    new_public_key: Vec<u8>,
) -> (script: Script)
    ensures
        script@.code == registry.bytecode(StdlibScript::RotateSharedEd2551PublicKey),
        script@.ty_args == Seq::<TypeTag>::empty(),
        script@.args == seq![ArgumentValue::U8Vector(new_public_key@)],
        script@.conforms_to(StdlibScript::RotateSharedEd2551PublicKey),
{
    encode_stdlib_script(
        registry,
        StdlibScript::RotateSharedEd2551PublicKey,
        Vec::new(),
        vec![TransactionArgument::U8Vector(new_public_key)],
    )
}

/// Encodes the script that mints `amount` coins of type `token` for `sender`, whose
/// authentication key is `auth_key_prefix` followed by the address. The prefix is empty or
/// fills the key.
pub fn encode_mint_script(
    registry: &ScriptRegistry,
    token: TypeTag,
    sender: &AccountAddress,
    auth_key_prefix: Vec<u8>,
    amount: u64,
) -> (script: Script)
    requires
        valid_auth_key_prefix(auth_key_prefix@),
    ensures
        script@.code == registry.bytecode(StdlibScript::Mint),
        script@.ty_args == seq![token],
        script@.args == seq![
            ArgumentValue::Address(sender@),
            ArgumentValue::U8Vector(auth_key_prefix@),
            ArgumentValue::U64(amount),
        ],
        script@.conforms_to(StdlibScript::Mint),
{
    validate_auth_key_prefix(auth_key_prefix.as_slice());
    encode_stdlib_script(
        registry,
        StdlibScript::Mint,
        vec![token],
        vec![
            TransactionArgument::Address(*sender),
            TransactionArgument::U8Vector(auth_key_prefix),
            TransactionArgument::U64(amount),
        ],
    )
}

/// Encodes the script that mints `amount` LBR for `address`, whose authentication key is
/// `auth_key_prefix` followed by the address. The prefix is empty or fills the key.
pub fn encode_mint_lbr_to_address_script(
    registry: &ScriptRegistry,
    address: &AccountAddress,
    auth_key_prefix: Vec<u8>,
    amount: u64,
) -> (script: Script)
    requires
        valid_auth_key_prefix(auth_key_prefix@),
    ensures
        script@.code == registry.bytecode(StdlibScript::MintLbrToAddress),
        script@.ty_args == Seq::<TypeTag>::empty(),
        script@.args == seq![
            ArgumentValue::Address(address@),
            ArgumentValue::U8Vector(auth_key_prefix@),
            ArgumentValue::U64(amount),
        ],
        script@.conforms_to(StdlibScript::MintLbrToAddress),
{
    validate_auth_key_prefix(auth_key_prefix.as_slice());
    encode_stdlib_script(
        registry,
        StdlibScript::MintLbrToAddress,
        Vec::new(),
        vec![
            TransactionArgument::Address(*address),
            TransactionArgument::U8Vector(auth_key_prefix),
            TransactionArgument::U64(amount),
        ],
    )
}

/// Encodes the script that sets the publishing option of the virtual machine. `config` is the
/// canonical serialization of the new option.
pub fn encode_publishing_option_script(
    registry: &ScriptRegistry,
    config: Vec<u8>,
) -> (script: Script)
    ensures
        script@.code == registry.bytecode(StdlibScript::ModifyPublishingOption),
        script@.ty_args == Seq::<TypeTag>::empty(),
        script@.args == seq![ArgumentValue::U8Vector(config@)],
        script@.conforms_to(StdlibScript::ModifyPublishingOption),
{
    encode_stdlib_script(
        registry,
        StdlibScript::ModifyPublishingOption,
        Vec::new(),
        vec![TransactionArgument::U8Vector(config)],
    )
}

/// Encodes the script that sets the version of the system to the major number of
/// `libra_version`.
pub fn encode_update_libra_version(
    registry: &ScriptRegistry,
    libra_version: LibraVersion,
) -> (script: Script)
    ensures
        script@.code == registry.bytecode(StdlibScript::UpdateLibraVersion),
        script@.ty_args == Seq::<TypeTag>::empty(),
        script@.args == seq![ArgumentValue::U64(libra_version.major)],
        script@.conforms_to(StdlibScript::UpdateLibraVersion),
{
    encode_stdlib_script(
        registry,
        StdlibScript::UpdateLibraVersion,
        Vec::new(),
        vec![TransactionArgument::U64(libra_version.major)],
    )
}

/// Encodes the script that turns coins of the sender into `amount_lbr` LBR and deposits them in
/// the sender's account.
pub fn encode_mint_lbr(registry: &ScriptRegistry, amount_lbr: u64) -> (script: Script)
    ensures
        script@.code == registry.bytecode(StdlibScript::MintLbr),
        script@.ty_args == Seq::<TypeTag>::empty(),
        script@.args == seq![ArgumentValue::U64(amount_lbr)],
        script@.conforms_to(StdlibScript::MintLbr),
{
    encode_stdlib_script(
        registry,
        StdlibScript::MintLbr,
        Vec::new(),
        vec![TransactionArgument::U64(amount_lbr)],
    )
}

/// Encodes the script that turns `amount_lbr` LBR of the sender back into the coins that make
/// it up.
pub fn encode_unmint_lbr(registry: &ScriptRegistry, amount_lbr: u64) -> (script: Script)
    ensures
        script@.code == registry.bytecode(StdlibScript::UnmintLbr),
        script@.ty_args == Seq::<TypeTag>::empty(),
        script@.args == seq![ArgumentValue::U64(amount_lbr)],
        script@.conforms_to(StdlibScript::UnmintLbr),
{
    encode_stdlib_script(
        registry,
        StdlibScript::UnmintLbr,
        Vec::new(),
        vec![TransactionArgument::U64(amount_lbr)],
    )
}

/// Encodes the script that sets the exchange rate of `currency` to LBR. The denominator is the
/// first argument and the numerator the second.
pub fn encode_update_exchange_rate(
    registry: &ScriptRegistry,
    currency: TypeTag,
    new_exchange_rate_denominator: u64,
    new_exchange_rate_numerator: u64,
) -> (script: Script)
    ensures
        script@.code == registry.bytecode(StdlibScript::UpdateExchangeRate),
        script@.ty_args == seq![currency],
        script@.args == seq![
            ArgumentValue::U64(new_exchange_rate_denominator),
            ArgumentValue::U64(new_exchange_rate_numerator),
        ],
        script@.conforms_to(StdlibScript::UpdateExchangeRate),
{
    encode_stdlib_script(
        registry,
        StdlibScript::UpdateExchangeRate,
        vec![currency],
        vec![
            TransactionArgument::U64(new_exchange_rate_denominator),
            TransactionArgument::U64(new_exchange_rate_numerator),
        ],
    )
}

/// Encodes the script that allows (`true`) or disallows (`false`) the minting of `currency`.
pub fn encode_update_minting_ability(
    registry: &ScriptRegistry,
    currency: TypeTag,
    allow_minting: bool,
) -> (script: Script)
    ensures
        script@.code == registry.bytecode(StdlibScript::UpdateMintingAbility),
        script@.ty_args == seq![currency],
        script@.args == seq![ArgumentValue::Bool(allow_minting)],
        script@.conforms_to(StdlibScript::UpdateMintingAbility),
{
    encode_stdlib_script(
        registry,
        StdlibScript::UpdateMintingAbility,
        vec![currency],
        vec![TransactionArgument::Bool(allow_minting)],
    )
}

/// Encodes the script that creates a parent VASP account at `address`, whose authentication key
/// is `auth_key_prefix` followed by the address, with a zero balance in `currency`, or in every
/// currency if `add_all_currencies` is set.
pub fn encode_create_parent_vasp_account(
    registry: &ScriptRegistry,
    currency: TypeTag,
    address: AccountAddress,
    auth_key_prefix: Vec<u8>,
    human_name: Vec<u8>,
    base_url: Vec<u8>,
    compliance_public_key: Vec<u8>,
    add_all_currencies: bool,
) -> (script: Script)
    ensures
        script@.code == registry.bytecode(StdlibScript::CreateParentVaspAccount),
        script@.ty_args == seq![currency],
        script@.args == seq![
            ArgumentValue::Address(address@),
            ArgumentValue::U8Vector(auth_key_prefix@),
            ArgumentValue::U8Vector(human_name@),
            ArgumentValue::U8Vector(base_url@),
            ArgumentValue::U8Vector(compliance_public_key@),
            ArgumentValue::Bool(add_all_currencies),
        ],
        script@.conforms_to(StdlibScript::CreateParentVaspAccount),
{
    encode_stdlib_script(
        registry,
        StdlibScript::CreateParentVaspAccount,
        vec![currency],
        vec![
            TransactionArgument::Address(address),
            TransactionArgument::U8Vector(auth_key_prefix),
            TransactionArgument::U8Vector(human_name),
            TransactionArgument::U8Vector(base_url),
            TransactionArgument::U8Vector(compliance_public_key),
            TransactionArgument::Bool(add_all_currencies),
        ],
    )
}

/// Encodes the script that creates a child VASP account of the sender at `address`, whose
/// authentication key is `auth_key_prefix` followed by the address, and moves `initial_balance`
/// coins of type `currency` to it.
pub fn encode_create_child_vasp_account(
    registry: &ScriptRegistry,
    currency: TypeTag,
    address: AccountAddress,
    auth_key_prefix: Vec<u8>,
    add_all_currencies: bool,
    initial_balance: u64,
) -> (script: Script)
    ensures
        script@.code == registry.bytecode(StdlibScript::CreateChildVaspAccount),
        script@.ty_args == seq![currency],
        script@.args == seq![
            ArgumentValue::Address(address@),
            ArgumentValue::U8Vector(auth_key_prefix@),
            ArgumentValue::Bool(add_all_currencies),
            ArgumentValue::U64(initial_balance),
        ],
        script@.conforms_to(StdlibScript::CreateChildVaspAccount),
{
    encode_stdlib_script(
        registry,
        StdlibScript::CreateChildVaspAccount,
        vec![currency],
        vec![
            TransactionArgument::Address(address),
            TransactionArgument::U8Vector(auth_key_prefix),
            TransactionArgument::Bool(add_all_currencies),
            TransactionArgument::U64(initial_balance),
        ],
    )
}

/// Encodes the script that mints `mint_amount` coins of type `coin_type` for the designated
/// dealer at `designated_dealer_address`, within the tier `tier_index`.
pub fn encode_tiered_mint(
    registry: &ScriptRegistry,
    coin_type: TypeTag,
    nonce: u64,
    designated_dealer_address: AccountAddress,
    mint_amount: u64,
    tier_index: u64,
) -> (script: Script)
    ensures
        script@.code == registry.bytecode(StdlibScript::TieredMint),
        script@.ty_args == seq![coin_type],
        script@.args == seq![
            ArgumentValue::U64(nonce),
            ArgumentValue::Address(designated_dealer_address@),
            ArgumentValue::U64(mint_amount),
            ArgumentValue::U64(tier_index),
        ],
        script@.conforms_to(StdlibScript::TieredMint),
{
    encode_stdlib_script(
        registry,
        StdlibScript::TieredMint,
        vec![coin_type],
        vec![
            TransactionArgument::U64(nonce),
            TransactionArgument::Address(designated_dealer_address),
            TransactionArgument::U64(mint_amount),
            TransactionArgument::U64(tier_index),
        ],
    )
}

/// Encodes the script that creates a designated dealer account at `new_account_address`.
pub fn encode_create_designated_dealer(
    registry: &ScriptRegistry,
    coin_type: TypeTag,
    nonce: u64,
    new_account_address: AccountAddress,
    auth_key_prefix: Vec<u8>,
) -> (script: Script)
    ensures
        script@.code == registry.bytecode(StdlibScript::CreateDesignatedDealer),
        script@.ty_args == seq![coin_type],
        script@.args == seq![
            ArgumentValue::U64(nonce),
            ArgumentValue::Address(new_account_address@),
            ArgumentValue::U8Vector(auth_key_prefix@),
        ],
        script@.conforms_to(StdlibScript::CreateDesignatedDealer),
{
    encode_stdlib_script(
        registry,
        StdlibScript::CreateDesignatedDealer,
        vec![coin_type],
        vec![
            TransactionArgument::U64(nonce),
            TransactionArgument::Address(new_account_address),
            TransactionArgument::U8Vector(auth_key_prefix),
        ],
    )
}

/// Encodes the script that freezes the account at `addr`.
pub fn encode_freeze_account(
    registry: &ScriptRegistry,
    nonce: u64,
    addr: AccountAddress,
) -> (script: Script)
    ensures
        script@.code == registry.bytecode(StdlibScript::FreezeAccount),
        script@.ty_args == Seq::<TypeTag>::empty(),
        script@.args == seq![ArgumentValue::U64(nonce), ArgumentValue::Address(addr@)],
        script@.conforms_to(StdlibScript::FreezeAccount),
{
    encode_stdlib_script(
        registry,
        StdlibScript::FreezeAccount,
        Vec::new(),
        vec![TransactionArgument::U64(nonce), TransactionArgument::Address(addr)],
    )
}

/// Encodes the script that unfreezes the account at `addr`.
pub fn encode_unfreeze_account(
    registry: &ScriptRegistry,
    nonce: u64,
    addr: AccountAddress,
) -> (script: Script)
    ensures
        script@.code == registry.bytecode(StdlibScript::UnfreezeAccount),
        script@.ty_args == Seq::<TypeTag>::empty(),
        script@.args == seq![ArgumentValue::U64(nonce), ArgumentValue::Address(addr@)],
        script@.conforms_to(StdlibScript::UnfreezeAccount),
{
    encode_stdlib_script(
        registry,
        StdlibScript::UnfreezeAccount,
        Vec::new(),
        vec![TransactionArgument::U64(nonce), TransactionArgument::Address(addr)],
    )
}

/// Encodes the script that sets the sender's authentication key to `new_hashed_key`, the
/// 256-bit hash of a public key, and uses up `nonce`.
pub fn encode_rotate_authentication_key_script_with_nonce(
    registry: &ScriptRegistry,
    nonce: u64,
    new_hashed_key: Vec<u8>,
) -> (script: Script)
    ensures
        script@.code == registry.bytecode(StdlibScript::RotateAuthenticationKeyWithNonce),
        script@.ty_args == Seq::<TypeTag>::empty(),
        script@.args == seq![ArgumentValue::U64(nonce), ArgumentValue::U8Vector(new_hashed_key@)],
        script@.conforms_to(StdlibScript::RotateAuthenticationKeyWithNonce),
{
    encode_stdlib_script(
        registry,
        StdlibScript::RotateAuthenticationKeyWithNonce,
        Vec::new(),
        vec![TransactionArgument::U64(nonce), TransactionArgument::U8Vector(new_hashed_key)],
    )
}

} // verus!
