//! The closed error taxonomy of the block query operations.

use vstd::prelude::*;

verus! {

/// Faults raised by the block query operations.
///
/// Three classes: client/input faults (a malformed identifier, a bad height
/// range, an out-of-bounds page size, a block that does not exist),
/// index-inconsistency faults (the index and the block storage disagree
/// about data that should always agree), and I/O faults (raw bytes could
/// not be loaded from node storage).
#[derive(Debug, PartialEq, Eq)]
pub enum QueryBlockError {
    /// No block with the given hash or height exists.
    BlockNotFound(String),
    /// The identifier is neither a 64-digit lowercase hex hash nor a
    /// canonical decimal height.
    InvalidIdentifier(String),
    /// The start of a height range is negative.
    InvalidStartHeight(i32),
    /// The end of a height range lies before its start.
    InvalidEndHeight(i32),
    /// A height range spans more blocks than one response may carry.
    BlocksPageSizeTooLarge(usize),
    /// Inconsistent index: a block exists at this height but its
    /// statistics record is missing.
    MissingBlockStats(i32),
    /// Inconsistent index: a block exists at this height but its
    /// transaction range is absent or empty.
    BlockHasNoTx(i32),
    /// Inconsistent index: the block with this hash declares the given
    /// transaction sequence number, yet no such transaction is recorded.
    BlockHasMissingTx([u8; 32], u64),
    /// The requested transaction page size exceeds the maximum.
    RequestPageSizeTooBig(usize),
    /// The requested transaction page size is below the minimum.
    RequestPageSizeTooSmall(usize),
    /// Raw bytes for the transaction with this id could not be loaded
    /// from node storage.
    ReadFailure([u8; 32]),
}

} // verus!
