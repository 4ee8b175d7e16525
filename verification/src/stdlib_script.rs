//! The known transaction scripts, their display names and their argument schemas.

use vstd::prelude::*;

use crate::script::ArgumentKind;

verus! {

/// Number of known scripts.
pub const SCRIPT_COUNT: usize = 31;

/// The closed set of transaction scripts that the encoders can produce.
#[derive(Clone, Copy, Debug, PartialEq, Eq, Structural, Hash, PartialOrd, Ord)]
pub enum StdlibScript {
    AddCurrencyToAccount,
    AddValidator,
    Burn,
    BurnTxnFees,
    CancelBurn,
    CreateChildVaspAccount,
    CreateDesignatedDealer,
    CreateParentVaspAccount,
    FreezeAccount,
    Mint,
    MintLbr,
    MintLbrToAddress,
    ModifyPublishingOption,
    PeerToPeerWithMetadata,
    Preburn,
    PublishSharedEd2551PublicKey,
    RegisterPreburner,
    RegisterValidator,
    RemoveValidator,
    RotateAuthenticationKey,
    RotateAuthenticationKeyWithNonce,
    RotateBaseUrl,
    RotateCompliancePublicKey,
    RotateConsensusPubkey,
    RotateSharedEd2551PublicKey,
    TieredMint,
    UnfreezeAccount,
    UnmintLbr,
    UpdateExchangeRate,
    UpdateLibraVersion,
    UpdateMintingAbility,
}

impl StdlibScript {
    /// Position of the script in the order of declaration, which is also the order of
    /// `StdlibScript::all`.
    pub open spec fn spec_index(self) -> nat {
        match self {
            StdlibScript::AddCurrencyToAccount => 0,
            StdlibScript::AddValidator => 1,
            StdlibScript::Burn => 2,
            StdlibScript::BurnTxnFees => 3,
            StdlibScript::CancelBurn => 4,
            StdlibScript::CreateChildVaspAccount => 5,
            StdlibScript::CreateDesignatedDealer => 6,
            StdlibScript::CreateParentVaspAccount => 7,
            StdlibScript::FreezeAccount => 8,
            StdlibScript::Mint => 9,
            StdlibScript::MintLbr => 10,
            StdlibScript::MintLbrToAddress => 11,
            StdlibScript::ModifyPublishingOption => 12,
            StdlibScript::PeerToPeerWithMetadata => 13,
            StdlibScript::Preburn => 14,
            StdlibScript::PublishSharedEd2551PublicKey => 15,
            StdlibScript::RegisterPreburner => 16,
            StdlibScript::RegisterValidator => 17,
            StdlibScript::RemoveValidator => 18,
            StdlibScript::RotateAuthenticationKey => 19,
            StdlibScript::RotateAuthenticationKeyWithNonce => 20,
            StdlibScript::RotateBaseUrl => 21,
            StdlibScript::RotateCompliancePublicKey => 22,
            StdlibScript::RotateConsensusPubkey => 23,
            StdlibScript::RotateSharedEd2551PublicKey => 24,
            StdlibScript::TieredMint => 25,
            StdlibScript::UnfreezeAccount => 26,
            StdlibScript::UnmintLbr => 27,
            StdlibScript::UpdateExchangeRate => 28,
            StdlibScript::UpdateLibraVersion => 29,
            StdlibScript::UpdateMintingAbility => 30,
        }
    }

    /// The script at position `index`, where there is one.
    pub open spec fn spec_from_index(index: int) -> Option<StdlibScript> {
        if index == 0 {
            Some(StdlibScript::AddCurrencyToAccount)
        } else if index == 1 {
            Some(StdlibScript::AddValidator)
        } else if index == 2 {
            Some(StdlibScript::Burn)
        } else if index == 3 {
            Some(StdlibScript::BurnTxnFees)
        } else if index == 4 {
            Some(StdlibScript::CancelBurn)
        } else if index == 5 {
            Some(StdlibScript::CreateChildVaspAccount)
        } else if index == 6 {
            Some(StdlibScript::CreateDesignatedDealer)
        } else if index == 7 {
            Some(StdlibScript::CreateParentVaspAccount)
        } else if index == 8 {
            Some(StdlibScript::FreezeAccount)
        } else if index == 9 {
            Some(StdlibScript::Mint)
        } else if index == 10 {
            Some(StdlibScript::MintLbr)
        } else if index == 11 {
            Some(StdlibScript::MintLbrToAddress)
        } else if index == 12 {
            Some(StdlibScript::ModifyPublishingOption)
        } else if index == 13 {
            Some(StdlibScript::PeerToPeerWithMetadata)
        } else if index == 14 {
            Some(StdlibScript::Preburn)
        } else if index == 15 {
            Some(StdlibScript::PublishSharedEd2551PublicKey)
        } else if index == 16 {
            Some(StdlibScript::RegisterPreburner)
        } else if index == 17 {
            Some(StdlibScript::RegisterValidator)
        } else if index == 18 {
            Some(StdlibScript::RemoveValidator)
        } else if index == 19 {
            Some(StdlibScript::RotateAuthenticationKey)
        } else if index == 20 {
            Some(StdlibScript::RotateAuthenticationKeyWithNonce)
        } else if index == 21 {
            Some(StdlibScript::RotateBaseUrl)
        } else if index == 22 {
            Some(StdlibScript::RotateCompliancePublicKey)
        } else if index == 23 {
            Some(StdlibScript::RotateConsensusPubkey)
        } else if index == 24 {
            Some(StdlibScript::RotateSharedEd2551PublicKey)
        } else if index == 25 {
            Some(StdlibScript::TieredMint)
        } else if index == 26 {
            Some(StdlibScript::UnfreezeAccount)
        } else if index == 27 {
            Some(StdlibScript::UnmintLbr)
        } else if index == 28 {
            Some(StdlibScript::UpdateExchangeRate)
        } else if index == 29 {
            Some(StdlibScript::UpdateLibraVersion)
        } else if index == 30 {
            Some(StdlibScript::UpdateMintingAbility)
        } else {
            None
        }
    }

    /// Lowercase display name of the script, words joined by underscores.
    pub open spec fn spec_name(self) -> Seq<char> {
        match self {
            StdlibScript::AddCurrencyToAccount => "add_currency_to_account"@,
            StdlibScript::AddValidator => "add_validator"@,
            StdlibScript::Burn => "burn"@,
            StdlibScript::BurnTxnFees => "burn_txn_fees"@,
            StdlibScript::CancelBurn => "cancel_burn"@,
            StdlibScript::CreateChildVaspAccount => "create_child_vasp_account"@,
            StdlibScript::CreateDesignatedDealer => "create_designated_dealer"@,
            StdlibScript::CreateParentVaspAccount => "create_parent_vasp_account"@,
            StdlibScript::FreezeAccount => "freeze_account"@,
            StdlibScript::Mint => "mint"@,
            StdlibScript::MintLbr => "mint_lbr"@,
            StdlibScript::MintLbrToAddress => "mint_lbr_to_address"@,
            StdlibScript::ModifyPublishingOption => "modify_publishing_option"@,
            StdlibScript::PeerToPeerWithMetadata => "peer_to_peer_with_metadata"@,
            StdlibScript::Preburn => "preburn"@,
            StdlibScript::PublishSharedEd2551PublicKey => "publish_shared_ed25519_public_key"@,
            StdlibScript::RegisterPreburner => "register_preburner"@,
            StdlibScript::RegisterValidator => "register_validator"@,
            StdlibScript::RemoveValidator => "remove_validator"@,
            StdlibScript::RotateAuthenticationKey => "rotate_authentication_key"@,
            StdlibScript::RotateAuthenticationKeyWithNonce => {
                "rotate_authentication_key_with_nonce"@
            },
            StdlibScript::RotateBaseUrl => "rotate_base_url"@,
            StdlibScript::RotateCompliancePublicKey => "rotate_compliance_public_key"@,
            StdlibScript::RotateConsensusPubkey => "rotate_consensus_pubkey"@,
            StdlibScript::RotateSharedEd2551PublicKey => "rotate_shared_ed25519_public_key"@,
            StdlibScript::TieredMint => "tiered_mint"@,
            StdlibScript::UnfreezeAccount => "unfreeze_account"@,
            StdlibScript::UnmintLbr => "unmint_lbr"@,
            StdlibScript::UpdateExchangeRate => "update_exchange_rate"@,
            StdlibScript::UpdateLibraVersion => "update_libra_version"@,
            StdlibScript::UpdateMintingAbility => "update_minting_ability"@,
        }
    }

    /// Number of type arguments that the script takes.
    pub open spec fn spec_type_arity(self) -> nat {
        match self {
            StdlibScript::AddCurrencyToAccount
            | StdlibScript::Burn
            | StdlibScript::BurnTxnFees
            | StdlibScript::CancelBurn
            | StdlibScript::CreateChildVaspAccount
            | StdlibScript::CreateDesignatedDealer
            | StdlibScript::CreateParentVaspAccount
            | StdlibScript::Mint
            | StdlibScript::PeerToPeerWithMetadata
            | StdlibScript::Preburn
            | StdlibScript::RegisterPreburner
            | StdlibScript::TieredMint
            | StdlibScript::UpdateExchangeRate
            | StdlibScript::UpdateMintingAbility => 1,
            _ => 0,
        }
    }

    /// Kinds of the arguments that the script takes, in the order in which it takes them.
    pub open spec fn spec_schema(self) -> Seq<ArgumentKind> {
        match self {
            StdlibScript::AddCurrencyToAccount => Seq::empty(),
            StdlibScript::AddValidator => seq![ArgumentKind::Address],
            StdlibScript::Burn => seq![ArgumentKind::U64, ArgumentKind::Address],
            StdlibScript::BurnTxnFees => Seq::empty(),
            StdlibScript::CancelBurn => seq![ArgumentKind::Address],
            StdlibScript::CreateChildVaspAccount => seq![
                ArgumentKind::Address,
                ArgumentKind::Bytes,
                ArgumentKind::Bool,
                ArgumentKind::U64,
            ],
            StdlibScript::CreateDesignatedDealer => seq![
                ArgumentKind::U64,
                ArgumentKind::Address,
                ArgumentKind::Bytes,
            ],
            StdlibScript::CreateParentVaspAccount => seq![
                ArgumentKind::Address,
                ArgumentKind::Bytes,
                ArgumentKind::Bytes,
                ArgumentKind::Bytes,
                ArgumentKind::Bytes,
                ArgumentKind::Bool,
            ],
            StdlibScript::FreezeAccount => seq![ArgumentKind::U64, ArgumentKind::Address],
            StdlibScript::Mint => seq![
                ArgumentKind::Address,
                ArgumentKind::Bytes,
                ArgumentKind::U64,
            ],
            StdlibScript::MintLbr => seq![ArgumentKind::U64],
            StdlibScript::MintLbrToAddress => seq![
                ArgumentKind::Address,
                ArgumentKind::Bytes,
                ArgumentKind::U64,
            ],
            StdlibScript::ModifyPublishingOption => seq![ArgumentKind::Bytes],
            StdlibScript::PeerToPeerWithMetadata => seq![
                ArgumentKind::Address,
                ArgumentKind::U64,
                ArgumentKind::Bytes,
                ArgumentKind::Bytes,
            ],
            StdlibScript::Preburn => seq![ArgumentKind::U64],
            StdlibScript::PublishSharedEd2551PublicKey => seq![ArgumentKind::Bytes],
            StdlibScript::RegisterPreburner => Seq::empty(),
            StdlibScript::RegisterValidator => seq![
                ArgumentKind::Bytes,
                ArgumentKind::Bytes,
                ArgumentKind::Bytes,
                ArgumentKind::Bytes,
                ArgumentKind::Bytes,
            ],
            StdlibScript::RemoveValidator => seq![ArgumentKind::Address],
            StdlibScript::RotateAuthenticationKey => seq![ArgumentKind::Bytes],
            StdlibScript::RotateAuthenticationKeyWithNonce => seq![
                ArgumentKind::U64,
                ArgumentKind::Bytes,
            ],
            StdlibScript::RotateBaseUrl => seq![ArgumentKind::Bytes],
            StdlibScript::RotateCompliancePublicKey => seq![ArgumentKind::Bytes],
            StdlibScript::RotateConsensusPubkey => seq![ArgumentKind::Bytes],
            StdlibScript::RotateSharedEd2551PublicKey => seq![ArgumentKind::Bytes],
            StdlibScript::TieredMint => seq![
                ArgumentKind::U64,
                ArgumentKind::Address,
                ArgumentKind::U64,
                ArgumentKind::U64,
            ],
            StdlibScript::UnfreezeAccount => seq![ArgumentKind::U64, ArgumentKind::Address],
            StdlibScript::UnmintLbr => seq![ArgumentKind::U64],
            StdlibScript::UpdateExchangeRate => seq![ArgumentKind::U64, ArgumentKind::U64],
            StdlibScript::UpdateLibraVersion => seq![ArgumentKind::U64],
            StdlibScript::UpdateMintingAbility => seq![ArgumentKind::Bool],
        }
    }

    /// Whether a call with `type_args` type arguments and arguments of the kinds `kinds`, in
    /// that order, is one that the script takes.
    pub open spec fn accepts(self, type_args: nat, kinds: Seq<ArgumentKind>) -> bool {
        &&& type_args == self.spec_type_arity()
        &&& kinds =~= self.spec_schema()
    }

    /// Position of the script in the order of declaration.
    pub fn index(self) -> (index: usize)
        ensures
            index == self.spec_index(),
            index < SCRIPT_COUNT,
    {
        match self {
            StdlibScript::AddCurrencyToAccount => 0,
            StdlibScript::AddValidator => 1,
            StdlibScript::Burn => 2,
            StdlibScript::BurnTxnFees => 3,
            StdlibScript::CancelBurn => 4,
            StdlibScript::CreateChildVaspAccount => 5,
            StdlibScript::CreateDesignatedDealer => 6,
            StdlibScript::CreateParentVaspAccount => 7,
            StdlibScript::FreezeAccount => 8,
            StdlibScript::Mint => 9,
            StdlibScript::MintLbr => 10,
            StdlibScript::MintLbrToAddress => 11,
            StdlibScript::ModifyPublishingOption => 12,
            StdlibScript::PeerToPeerWithMetadata => 13,
            StdlibScript::Preburn => 14,
            StdlibScript::PublishSharedEd2551PublicKey => 15,
            StdlibScript::RegisterPreburner => 16,
            StdlibScript::RegisterValidator => 17,
            StdlibScript::RemoveValidator => 18,
            StdlibScript::RotateAuthenticationKey => 19,
            StdlibScript::RotateAuthenticationKeyWithNonce => 20,
            StdlibScript::RotateBaseUrl => 21,
            StdlibScript::RotateCompliancePublicKey => 22,
            StdlibScript::RotateConsensusPubkey => 23,
            StdlibScript::RotateSharedEd2551PublicKey => 24,
            StdlibScript::TieredMint => 25,
            StdlibScript::UnfreezeAccount => 26,
            StdlibScript::UnmintLbr => 27,
            StdlibScript::UpdateExchangeRate => 28,
            StdlibScript::UpdateLibraVersion => 29,
            StdlibScript::UpdateMintingAbility => 30,
        }
    }

    /// The script at position `index`; `None` from `SCRIPT_COUNT` on.
    pub fn from_index(index: usize) -> (script: Option<StdlibScript>)
        ensures
            script == StdlibScript::spec_from_index(index as int),
            script is Some <==> index < SCRIPT_COUNT,
            script matches Some(found) ==> found.spec_index() == index,
    {
        match index {
            0 => Some(StdlibScript::AddCurrencyToAccount),
            1 => Some(StdlibScript::AddValidator),
            2 => Some(StdlibScript::Burn),
            3 => Some(StdlibScript::BurnTxnFees),
            4 => Some(StdlibScript::CancelBurn),
            5 => Some(StdlibScript::CreateChildVaspAccount),
            6 => Some(StdlibScript::CreateDesignatedDealer),
            7 => Some(StdlibScript::CreateParentVaspAccount),
            8 => Some(StdlibScript::FreezeAccount),
            9 => Some(StdlibScript::Mint),
            10 => Some(StdlibScript::MintLbr),
            11 => Some(StdlibScript::MintLbrToAddress),
            12 => Some(StdlibScript::ModifyPublishingOption),
            13 => Some(StdlibScript::PeerToPeerWithMetadata),
            14 => Some(StdlibScript::Preburn),
            15 => Some(StdlibScript::PublishSharedEd2551PublicKey),
            16 => Some(StdlibScript::RegisterPreburner),
            17 => Some(StdlibScript::RegisterValidator),
            18 => Some(StdlibScript::RemoveValidator),
            19 => Some(StdlibScript::RotateAuthenticationKey),
            20 => Some(StdlibScript::RotateAuthenticationKeyWithNonce),
            21 => Some(StdlibScript::RotateBaseUrl),
            22 => Some(StdlibScript::RotateCompliancePublicKey),
            23 => Some(StdlibScript::RotateConsensusPubkey),
            24 => Some(StdlibScript::RotateSharedEd2551PublicKey),
            25 => Some(StdlibScript::TieredMint),
            26 => Some(StdlibScript::UnfreezeAccount),
            27 => Some(StdlibScript::UnmintLbr),
            28 => Some(StdlibScript::UpdateExchangeRate),
            29 => Some(StdlibScript::UpdateLibraVersion),
            30 => Some(StdlibScript::UpdateMintingAbility),
            _ => None,
        }
    }

    /// Every script, each once, in the order of declaration.
    pub fn all() -> (scripts: Vec<StdlibScript>)
        ensures
            scripts@.len() == SCRIPT_COUNT,
            forall|i: int| 0 <= i < SCRIPT_COUNT ==> (#[trigger] scripts@[i]).spec_index() == i,
    {
        let mut scripts: Vec<StdlibScript> = Vec::new();
        let mut index: usize = 0;
        while index < SCRIPT_COUNT
            invariant
                index <= SCRIPT_COUNT,
                scripts@.len() == index,
                forall|i: int| 0 <= i < index ==> (#[trigger] scripts@[i]).spec_index() == i,
            decreases SCRIPT_COUNT - index,
        {
            match StdlibScript::from_index(index) {
                Some(script) => scripts.push(script),
                None => {},
            }
            index += 1;
        }
        scripts
    }

    /// Lowercase display name of the script, words joined by underscores.
    pub fn name(self) -> (name: &'static str)
        ensures
            name@ == self.spec_name(),
    {
        match self {
            StdlibScript::AddCurrencyToAccount => "add_currency_to_account",
            StdlibScript::AddValidator => "add_validator",
            StdlibScript::Burn => "burn",
            StdlibScript::BurnTxnFees => "burn_txn_fees",
            StdlibScript::CancelBurn => "cancel_burn",
            StdlibScript::CreateChildVaspAccount => "create_child_vasp_account",
            StdlibScript::CreateDesignatedDealer => "create_designated_dealer",
            StdlibScript::CreateParentVaspAccount => "create_parent_vasp_account",
            StdlibScript::FreezeAccount => "freeze_account",
            StdlibScript::Mint => "mint",
            StdlibScript::MintLbr => "mint_lbr",
            StdlibScript::MintLbrToAddress => "mint_lbr_to_address",
            StdlibScript::ModifyPublishingOption => "modify_publishing_option",
            StdlibScript::PeerToPeerWithMetadata => "peer_to_peer_with_metadata",
            StdlibScript::Preburn => "preburn",
            StdlibScript::PublishSharedEd2551PublicKey => "publish_shared_ed25519_public_key",
            StdlibScript::RegisterPreburner => "register_preburner",
            StdlibScript::RegisterValidator => "register_validator",
            StdlibScript::RemoveValidator => "remove_validator",
            StdlibScript::RotateAuthenticationKey => "rotate_authentication_key",
            StdlibScript::RotateAuthenticationKeyWithNonce => {
                "rotate_authentication_key_with_nonce"
            },
            StdlibScript::RotateBaseUrl => "rotate_base_url",
            StdlibScript::RotateCompliancePublicKey => "rotate_compliance_public_key",
            StdlibScript::RotateConsensusPubkey => "rotate_consensus_pubkey",
            StdlibScript::RotateSharedEd2551PublicKey => "rotate_shared_ed25519_public_key",
            StdlibScript::TieredMint => "tiered_mint",
            StdlibScript::UnfreezeAccount => "unfreeze_account",
            StdlibScript::UnmintLbr => "unmint_lbr",
            StdlibScript::UpdateExchangeRate => "update_exchange_rate",
            StdlibScript::UpdateLibraVersion => "update_libra_version",
            StdlibScript::UpdateMintingAbility => "update_minting_ability",
        }
    }

    /// Number of type arguments that the script takes.
    pub fn type_arity(self) -> (arity: usize)
        ensures
            arity == self.spec_type_arity(),
    {
        match self {
            StdlibScript::AddCurrencyToAccount
            | StdlibScript::Burn
            | StdlibScript::BurnTxnFees
            | StdlibScript::CancelBurn
            | StdlibScript::CreateChildVaspAccount
            | StdlibScript::CreateDesignatedDealer
            | StdlibScript::CreateParentVaspAccount
            | StdlibScript::Mint
            | StdlibScript::PeerToPeerWithMetadata
            | StdlibScript::Preburn
            | StdlibScript::RegisterPreburner
            | StdlibScript::TieredMint
            | StdlibScript::UpdateExchangeRate
            | StdlibScript::UpdateMintingAbility => 1,
            _ => 0,
        }
    }

    /// Kinds of the arguments that the script takes, in the order in which it takes them.
    pub fn schema(self) -> (kinds: Vec<ArgumentKind>)
        ensures
            kinds@ == self.spec_schema(),
    {
        match self {
            StdlibScript::AddCurrencyToAccount => Vec::new(),
            StdlibScript::AddValidator => vec![ArgumentKind::Address],
            StdlibScript::Burn => vec![ArgumentKind::U64, ArgumentKind::Address],
            StdlibScript::BurnTxnFees => Vec::new(),
            StdlibScript::CancelBurn => vec![ArgumentKind::Address],
            StdlibScript::CreateChildVaspAccount => vec![
                ArgumentKind::Address,
                ArgumentKind::Bytes,
                ArgumentKind::Bool,
                ArgumentKind::U64,
            ],
            StdlibScript::CreateDesignatedDealer => vec![
                ArgumentKind::U64,
                ArgumentKind::Address,
                ArgumentKind::Bytes,
            ],
            StdlibScript::CreateParentVaspAccount => vec![
                ArgumentKind::Address,
                ArgumentKind::Bytes,
                ArgumentKind::Bytes,
                ArgumentKind::Bytes,
                ArgumentKind::Bytes,
                ArgumentKind::Bool,
            ],
            StdlibScript::FreezeAccount => vec![ArgumentKind::U64, ArgumentKind::Address],
            StdlibScript::Mint => vec![
                ArgumentKind::Address,
                ArgumentKind::Bytes,
                ArgumentKind::U64,
            ],
            StdlibScript::MintLbr => vec![ArgumentKind::U64],
            StdlibScript::MintLbrToAddress => vec![
                ArgumentKind::Address,
                ArgumentKind::Bytes,
                ArgumentKind::U64,
            ],
            StdlibScript::ModifyPublishingOption => vec![ArgumentKind::Bytes],
            StdlibScript::PeerToPeerWithMetadata => vec![
                ArgumentKind::Address,
                ArgumentKind::U64,
                ArgumentKind::Bytes,
                ArgumentKind::Bytes,
            ],
            StdlibScript::Preburn => vec![ArgumentKind::U64],
            StdlibScript::PublishSharedEd2551PublicKey => vec![ArgumentKind::Bytes],
            StdlibScript::RegisterPreburner => Vec::new(),
            StdlibScript::RegisterValidator => vec![
                ArgumentKind::Bytes,
                ArgumentKind::Bytes,
                ArgumentKind::Bytes,
                ArgumentKind::Bytes,
                ArgumentKind::Bytes,
            ],
            StdlibScript::RemoveValidator => vec![ArgumentKind::Address],
            StdlibScript::RotateAuthenticationKey => vec![ArgumentKind::Bytes],
            StdlibScript::RotateAuthenticationKeyWithNonce => vec![
                ArgumentKind::U64,
                ArgumentKind::Bytes,
            ],
            StdlibScript::RotateBaseUrl => vec![ArgumentKind::Bytes],
            StdlibScript::RotateCompliancePublicKey => vec![ArgumentKind::Bytes],
            StdlibScript::RotateConsensusPubkey => vec![ArgumentKind::Bytes],
            StdlibScript::RotateSharedEd2551PublicKey => vec![ArgumentKind::Bytes],
            StdlibScript::TieredMint => vec![
                ArgumentKind::U64,
                ArgumentKind::Address,
                ArgumentKind::U64,
                ArgumentKind::U64,
            ],
            StdlibScript::UnfreezeAccount => vec![ArgumentKind::U64, ArgumentKind::Address],
            StdlibScript::UnmintLbr => vec![ArgumentKind::U64],
            StdlibScript::UpdateExchangeRate => vec![ArgumentKind::U64, ArgumentKind::U64],
            StdlibScript::UpdateLibraVersion => vec![ArgumentKind::U64],
            StdlibScript::UpdateMintingAbility => vec![ArgumentKind::Bool],
        }
    }
}

/// Two scripts at the same position are the same script.
pub proof fn lemma_index_injective(a: StdlibScript, b: StdlibScript)
    requires
        a.spec_index() == b.spec_index(),
    ensures
        a == b,
{
}

/// Every script has a position below `SCRIPT_COUNT`, and `spec_from_index` finds it there.
pub proof fn lemma_from_index_of_index(script: StdlibScript)
    ensures
        script.spec_index() < SCRIPT_COUNT,
        StdlibScript::spec_from_index(script.spec_index() as int) == Some(script),
{
}

} // verus!
