//! Transactions that need no signature: the metadata that opens a block, and a write set.

use vstd::prelude::*;

use crate::account_address::AccountAddress;
use crate::write_set::ChangeSet;

verus! {

/// What is known of a block when it starts to execute.
#[derive(Clone, Debug, PartialEq, Eq, Hash)]
pub struct BlockMetadata {
    /// Hash that identifies the block.
    pub id: [u8; 32],
    /// Round of consensus in which the block was proposed.
    pub round: u64,
    /// Time of the proposal, in microseconds.
    pub timestamp_usecs: u64,
    /// The validators that voted for the block before this one.
    pub previous_block_votes: Vec<AccountAddress>,
    /// The validator that proposed the block.
    pub proposer: AccountAddress,
}

/// A transaction as it is handed to execution.
#[derive(Clone, Debug, PartialEq, Eq, Hash)]
pub enum Transaction {
    /// A change set applied as it stands, as at genesis or at an upgrade.
    WaypointWriteSet(ChangeSet),
    /// The transaction that opens a block.
    BlockMetadata(BlockMetadata),
}

/// Wraps the metadata of a block into the transaction that opens the block.
pub fn encode_block_prologue_script(block_metadata: BlockMetadata) -> (transaction: Transaction)
    ensures
        transaction == Transaction::BlockMetadata(block_metadata),
{
    Transaction::BlockMetadata(block_metadata)
}

} // verus!
