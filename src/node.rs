//! The boundary towards the consensus engine: each of its requests is
//! answered by one operation of the shell.

use crate::shell::{
    apply_step, commit_step, validate_step, ApplyError, MempoolTxType, MerkleRoot, Shell,
    ValidationError,
};
use vstd::prelude::*;

verus! {

/// A request of the consensus engine.
#[derive(Clone, Debug)]
pub enum Request {
    /// Should this transaction enter the pending pool?
    CheckTx { tx: Vec<u8>, kind: MempoolTxType },
    /// Apply this finalized transaction.
    DeliverTx { tx: Vec<u8> },
    /// The block is complete: report the state commitment.
    Commit,
}

/// The answer to a [`Request`], of the same kind.
#[derive(Debug)]
pub enum Response {
    CheckTx(Result<(), ValidationError>),
    DeliverTx(Result<(), ApplyError>),
    Commit(MerkleRoot),
}

/// Runs the shell on one request of the consensus engine and returns the
/// answer to relay.
pub fn run(shell: &mut Shell, request: &Request) -> (r: Response)
    ensures
        match request {
            Request::CheckTx { tx, kind } => r matches Response::CheckTx(v) && validate_step(
                old(shell)@,
                tx@,
                v,
                final(shell)@,
            ),
            Request::DeliverTx { tx } => r matches Response::DeliverTx(v) && apply_step(
                old(shell)@,
                tx@,
                v,
                final(shell)@,
            ),
            Request::Commit => r matches Response::Commit(root) && commit_step(
                old(shell)@,
                root.0@,
                final(shell)@,
            ),
        },
{
    match request {
        Request::CheckTx { tx, kind } => Response::CheckTx(
            shell.mempool_validate(tx.as_slice(), *kind),
        ),
        Request::DeliverTx { tx } => Response::DeliverTx(shell.apply_tx(tx.as_slice())),
        Request::Commit => Response::Commit(shell.commit()),
    }
}

} // verus!
