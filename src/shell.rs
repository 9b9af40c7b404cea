//! The application state machine: admission of candidate transactions to
//! the pending pool, application of finalized transactions, and the state
//! commitment reported after each block.
//!
//! The committed counter is written by the apply path alone. Admission keeps
//! a separate pool cursor, the last counter value admitted to the pending
//! pool, so that several pending transactions chain; applying a transaction
//! or resetting the pool brings the cursor back to the committed counter.

use crate::encoding::{be_u64, encode_u64_be};
use crate::transaction::{decoded_count, Transaction, TxDecodeError};
use vstd::prelude::*;

verus! {

/// The abstract state of a [`Shell`].
pub struct ShellState {
    /// The committed counter: the value of the last applied transaction.
    pub committed: u64,
    /// The last counter value admitted to the pending pool, or the committed
    /// counter where nothing was admitted since the last apply or reset.
    pub pool_tip: u64,
}

/// The counter application. Its only state is a committed `u64` counter,
/// beside the pending pool's cursor.
pub struct Shell {
    count: u64,
    pool_tip: u64,
}

impl View for Shell {
    type V = ShellState;

    closed spec fn view(&self) -> ShellState {
        ShellState { committed: self.count, pool_tip: self.pool_tip }
    }
}

/// Why a transaction is presented for admission.
#[derive(Clone, Copy, Debug, PartialEq, Eq)]
pub enum MempoolTxType {
    /// A transaction that has not been validated by this node before
    NewTransaction,
    /// A transaction that has been validated at some previous level that may
    /// need to be validated again
    RecheckTransaction,
}

/// The state commitment: the committed counter, 8 bytes big-endian.
#[derive(Clone, Debug)]
pub struct MerkleRoot(pub Vec<u8>);

/// Why a transaction was refused admission to the pending pool.
#[derive(Clone, Debug)]
pub enum ValidationError {
    /// The bytes do not decode to a transaction.
    Decode(TxDecodeError),
    /// The transaction's counter does not follow the pool's last value.
    NotIncremental {
        /// The value the transaction had to follow.
        previous: u64,
        /// The value the transaction carries.
        found: u64,
    },
}

/// Why a finalized transaction could not be applied.
#[derive(Clone, Debug)]
pub enum ApplyError {
    /// The bytes do not decode to a transaction.
    Decode(TxDecodeError),
}

/// A transaction carrying `c` follows the last value admitted to the pool.
pub open spec fn admits(s: ShellState, c: u64) -> bool {
    c as int == s.pool_tip as int + 1
}

/// Admission of a transaction carrying `c` takes `pre` to `post` with
/// outcome `r`.
pub open spec fn admit_step(
    pre: ShellState,
    c: u64,
    r: Result<(), ValidationError>,
    post: ShellState,
) -> bool {
    if admits(pre, c) {
        &&& r is Ok
        &&& post == ShellState { committed: pre.committed, pool_tip: c }
    } else {
        &&& post == pre
        &&& r matches Err(ValidationError::NotIncremental { previous, found })
        &&& previous == pre.pool_tip
        &&& found == c
    }
}

/// Admission of the wire bytes `bytes` takes `pre` to `post` with outcome `r`.
pub open spec fn validate_step(
    pre: ShellState,
    bytes: Seq<u8>,
    r: Result<(), ValidationError>,
    post: ShellState,
) -> bool {
    match decoded_count(bytes) {
        Some(c) => admit_step(pre, c, r, post),
        None => {
            &&& post == pre
            &&& r matches Err(ValidationError::Decode(e))
            &&& e.bytes@ == bytes
        },
    }
}

/// The state after a transaction carrying `c` is applied.
pub open spec fn after_apply(c: u64) -> ShellState {
    ShellState { committed: c, pool_tip: c }
}

/// Application of the wire bytes `bytes` takes `pre` to `post` with outcome `r`.
pub open spec fn apply_step(
    pre: ShellState,
    bytes: Seq<u8>,
    r: Result<(), ApplyError>,
    post: ShellState,
) -> bool {
    match decoded_count(bytes) {
        Some(c) => {
            &&& r is Ok
            &&& post == after_apply(c)
        },
        None => {
            &&& post == pre
            &&& r matches Err(ApplyError::Decode(e))
            &&& e.bytes@ == bytes
        },
    }
}

/// A commit in state `pre` reports `root` and leaves the state `post`.
pub open spec fn commit_step(pre: ShellState, root: Seq<u8>, post: ShellState) -> bool {
    &&& root == be_u64(pre.committed)
    &&& post == pre
}

impl Shell {
    /// A shell at the start of the chain: counter 0, empty pool.
    pub fn new() -> (r: Shell)
        ensures
            r@ == (ShellState { committed: 0, pool_tip: 0 }),
    {
        Shell { count: 0, pool_tip: 0 }
    }

    /// The committed counter.
    pub fn count(&self) -> (r: u64)
        ensures
            r == self@.committed,
    {
        self.count
    }

    /// Admits a decoded transaction to the pending pool where its counter
    /// follows the pool's last value, and advances the pool cursor to it.
    /// The committed counter is left as it is.
    pub fn admit_to_pool(&mut self, tx: &Transaction) -> (r: Result<(), ValidationError>)
        ensures
            admit_step(old(self)@, tx.count, r, final(self)@),
    {
        if self.pool_tip < u64::MAX && tx.count == self.pool_tip + 1 {
            self.pool_tip = tx.count;
            Ok(())
        } else {
            Err(ValidationError::NotIncremental { previous: self.pool_tip, found: tx.count })
        }
    }

    /// Applies a finalized, decoded transaction: the committed counter takes
    /// its value, and the pending pool restarts from there.
    pub fn apply(&mut self, tx: &Transaction)
        ensures
            final(self)@ == after_apply(tx.count),
    {
        self.count = tx.count;
        self.pool_tip = tx.count;
    }

    /// Validates a transaction request. On success, the transaction will be
    /// included in the mempool and propagated to peers, otherwise it will be
    /// rejected. New transactions and rechecks follow the same rule.
    pub fn mempool_validate(&mut self, tx_bytes: &[u8], _kind: MempoolTxType) -> (r: Result<
        (),
        ValidationError,
    >)
        ensures
            validate_step(old(self)@, tx_bytes@, r, final(self)@),
    {
        match Transaction::decode(tx_bytes) {
            Ok(tx) => self.admit_to_pool(&tx),
            Err(e) => Err(ValidationError::Decode(e)),
        }
    }

    /// Applies a transaction that consensus has finalized, in finalized order.
    pub fn apply_tx(&mut self, tx_bytes: &[u8]) -> (r: Result<(), ApplyError>)
        ensures
            apply_step(old(self)@, tx_bytes@, r, final(self)@),
    {
        match Transaction::decode(tx_bytes) {
            Ok(tx) => {
                self.apply(&tx);
                Ok(())
            },
            Err(e) => Err(ApplyError::Decode(e)),
        }
    }

    /// Returns the state commitment: the committed counter in 8 bytes,
    /// big-endian. The state is left as it is.
    pub fn commit(&mut self) -> (r: MerkleRoot)
        ensures
            commit_step(old(self)@, r.0@, final(self)@),
    {
        MerkleRoot(encode_u64_be(self.count))
    }
}

/// Discards the pending pool's cursor: admission chains again from the
/// committed counter, which is left as it is.
pub fn reset(shell: &mut Shell)
    ensures
        final(shell)@ == (ShellState { committed: old(shell)@.committed, pool_tip: old(shell)@.committed }),
{
    shell.pool_tip = shell.count;
}

} // verus!
