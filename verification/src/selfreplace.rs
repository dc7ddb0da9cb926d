//! The self-replace protocol: substituting the on-disk image of the running
//! executable while the process keeps running from the old image in memory.
//! The protocol is a fixed sequence of steps per platform family; the final
//! placement is a single rename or link, never a byte-by-byte copy into the
//! live path.

use vstd::prelude::*;
use crate::platform::Platform;

verus! {

/// One step of the self-replace protocol.
#[derive(Clone, Copy, Debug, PartialEq, Eq, Structural)]
pub enum ReplaceOp {
    /// Read the running process's own executable path.  Must come before
    /// any destructive step: after a rename, a late lookup could yield a
    /// wrong value.
    ResolveOwnPath,
    /// Write the new, verified image to a scoped temporary file with no
    /// other consumers.
    StagePending,
    /// Unlink the running binary in place (platforms that permit it).
    DeleteOld,
    /// Move the running binary aside into the reserved self-cleanup area,
    /// scheduled for best-effort deferred deletion (platforms that forbid
    /// deleting a running binary).
    RenameAside,
    /// Atomically rename or link the pending file onto the target path.
    PlaceNew,
}

/// Whether a step mutates the target path or the old binary.
pub open spec fn op_destructive(op: ReplaceOp) -> bool {
    op is DeleteOld || op is RenameAside || op is PlaceNew
}

/// The protocol for a platform family: resolve the own path, stage the new
/// image, take the old binary out of the way in the platform's supported
/// manner, place the new image with one atomic operation.
pub open spec fn replace_plan_spec(plat: Platform) -> Seq<ReplaceOp> {
    if plat.allows_delete_running() {
        seq![
            ReplaceOp::ResolveOwnPath,
            ReplaceOp::StagePending,
            ReplaceOp::DeleteOld,
            ReplaceOp::PlaceNew,
        ]
    } else {
        seq![
            ReplaceOp::ResolveOwnPath,
            ReplaceOp::StagePending,
            ReplaceOp::RenameAside,
            ReplaceOp::PlaceNew,
        ]
    }
}

/// What a process that opens the target path reads after the first `done`
/// protocol steps: the complete old image until the old binary is taken out
/// of the way, nothing for the instant between that and the atomic
/// placement, the complete new image afterwards.
pub open spec fn observed_target(
    old_img: Seq<u8>,
    new_img: Seq<u8>,
    done: int,
) -> Option<Seq<u8>> {
    if done <= 2 {
        Some(old_img)
    } else if done == 3 {
        None
    } else {
        Some(new_img)
    }
}

/// Atomicity of self-replace: whatever prefix of the protocol has run, an
/// observer of the target path reads the complete old image, the complete
/// new image, or no file at all — never a half-written image.  Before the
/// first destructive step the original binary is untouched, and after the
/// full protocol the target holds exactly the new image.
pub proof fn lemma_replace_atomic(plat: Platform, old_img: Seq<u8>, new_img: Seq<u8>, done: int)
    requires
        0 <= done <= replace_plan_spec(plat).len(),
    ensures
        observed_target(old_img, new_img, done) matches Some(b) ==> b == old_img || b
            == new_img,
        forall|k: int| 0 <= k < done && op_destructive(replace_plan_spec(plat)[k]) ==> done > 2,
        done <= 2 ==> observed_target(old_img, new_img, done) == Some(old_img),
        done == replace_plan_spec(plat).len() ==> observed_target(old_img, new_img, done)
            == Some(new_img),
{
}

/// The executable protocol for the platform.  The own path is resolved by
/// the first step, strictly before every destructive step.
pub fn replace_plan(plat: Platform) -> (r: Vec<ReplaceOp>)
    ensures
        r@ == replace_plan_spec(plat),
        r@[0] is ResolveOwnPath,
        forall|k: int| 0 <= k < r@.len() && op_destructive(r@[k]) ==> k > 1,
        r@[r@.len() - 1] is PlaceNew,
{
    let mut r: Vec<ReplaceOp> = Vec::new();
    r.push(ReplaceOp::ResolveOwnPath);
    r.push(ReplaceOp::StagePending);
    match plat {
        Platform::UnixLike => r.push(ReplaceOp::DeleteOld),
        Platform::Windows => r.push(ReplaceOp::RenameAside),
    }
    r.push(ReplaceOp::PlaceNew);
    proof {
        assert(r@ =~= replace_plan_spec(plat));
    }
    r
}

} // verus!
