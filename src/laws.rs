//! Properties of the state machine that relate several of its operations.

use crate::encoding::be_u64;
use crate::shell::{
    apply_step, commit_step, validate_step, ApplyError, ShellState, ValidationError,
};
use crate::transaction::decoded_count;
use vstd::prelude::*;

verus! {

/// Two commits in a row, with nothing applied between them, report the same
/// root, and neither changes the state.
pub proof fn commit_is_idempotent(
    s0: ShellState,
    root1: Seq<u8>,
    s1: ShellState,
    root2: Seq<u8>,
    s2: ShellState,
)
    requires
        commit_step(s0, root1, s1),
        commit_step(s1, root2, s2),
    ensures
        root1 == root2,
        s2 == s0,
{
}

/// From any state whose committed counter is `n`, however it was reached,
/// applying a transaction that carries `n + 1` and then committing reports
/// the 8-byte big-endian encoding of `n + 1`.
pub proof fn apply_then_commit_reports_next(
    n: u64,
    pre: ShellState,
    bytes: Seq<u8>,
    r: Result<(), ApplyError>,
    mid: ShellState,
    root: Seq<u8>,
    post: ShellState,
)
    requires
        n < u64::MAX,
        pre.committed == n,
        decoded_count(bytes) == Some((n + 1) as u64),
        apply_step(pre, bytes, r, mid),
        commit_step(mid, root, post),
    ensures
        r is Ok,
        post.committed == n + 1,
        root == be_u64((n + 1) as u64),
{
}

/// Applying the same bytes to the same state gives the same state and the
/// same outcome kind.
pub proof fn apply_is_deterministic(
    pre: ShellState,
    bytes: Seq<u8>,
    r1: Result<(), ApplyError>,
    post1: ShellState,
    r2: Result<(), ApplyError>,
    post2: ShellState,
)
    requires
        apply_step(pre, bytes, r1, post1),
        apply_step(pre, bytes, r2, post2),
    ensures
        post1 == post2,
        r1 is Ok <==> r2 is Ok,
{
}

/// With nothing admitted since the last apply (or reset), a transaction
/// carrying `c` is admitted exactly when `c` is the committed counter plus
/// one; any other value is refused as not incremental. Admission never
/// changes the committed counter.
pub proof fn admission_is_incremental(
    pre: ShellState,
    bytes: Seq<u8>,
    c: u64,
    r: Result<(), ValidationError>,
    post: ShellState,
)
    requires
        pre.pool_tip == pre.committed,
        decoded_count(bytes) == Some(c),
        validate_step(pre, bytes, r, post),
    ensures
        r is Ok <==> c == pre.committed + 1,
        c != pre.committed + 1 ==> r matches Err(ValidationError::NotIncremental { .. }),
        post.committed == pre.committed,
{
}

/// Bytes that do not decode are refused with a decode error by both
/// admission and application, and leave the committed counter as it was.
pub proof fn malformed_bytes_change_nothing(
    pre: ShellState,
    bytes: Seq<u8>,
    rv: Result<(), ValidationError>,
    post_v: ShellState,
    ra: Result<(), ApplyError>,
    post_a: ShellState,
)
    requires
        decoded_count(bytes) is None,
        validate_step(pre, bytes, rv, post_v),
        apply_step(pre, bytes, ra, post_a),
    ensures
        rv matches Err(ValidationError::Decode(_)),
        ra matches Err(ApplyError::Decode(_)),
        post_v.committed == pre.committed,
        post_a.committed == pre.committed,
{
}

} // verus!
