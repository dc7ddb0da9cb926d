//! Shim synchronization: after the primary binary has been replaced, every
//! shim that is an independent copy must be rewritten to the new image;
//! symbolic-link shims resolve at the file-system level and need no action.

use vstd::prelude::*;
use crate::fsmodel::{FsModel, ShimData};

verus! {

/// How a shim entry references the primary binary.
#[derive(Clone, Copy, Debug, PartialEq, Eq, Structural)]
pub enum ShimKind {
    /// A path-based symbolic link; resolves dynamically, never rewritten.
    Symlink,
    /// A hard link or duplicated bytes; must be rewritten when the primary
    /// binary's bytes change.
    Copy,
}

/// A directory entry found in the shim directory.
pub struct ShimEntry {
    /// File name of the entry within the shim directory.
    pub name: String,
    /// Whether the entry references the binary by path or by copy.
    pub kind: ShimKind,
}

/// Which entries a shim synchronization rewrites: exactly the copy-based
/// ones, in directory order, each at most once.
pub fn plan_shim_sync(entries: &Vec<ShimEntry>) -> (r: Vec<usize>)
    ensures
        forall|k: int|
            0 <= k < r@.len() ==> r@[k] < entries@.len() && entries@[r@[k] as int].kind is Copy,
        forall|j: int| 0 <= j < entries@.len() && entries@[j].kind is Copy ==> r@.contains(j as usize),
        forall|a: int, b: int| 0 <= a < b < r@.len() ==> r@[a] < r@[b],
{
    let mut r: Vec<usize> = Vec::new();
    let mut i: usize = 0;
    while i < entries.len()
        invariant
            i <= entries@.len(),
            forall|k: int|
                0 <= k < r@.len() ==> r@[k] < i && entries@[r@[k] as int].kind is Copy,
            forall|j: int| 0 <= j < i && entries@[j].kind is Copy ==> r@.contains(j as usize),
            forall|a: int, b: int| 0 <= a < b < r@.len() ==> r@[a] < r@[b],
        decreases entries@.len() - i,
    {
        let ghost r0 = r@;
        if matches!(entries[i].kind, ShimKind::Copy) {
            r.push(i);
            assert(r@[r@.len() - 1] == i);
        }
        proof {
            assert forall|j: usize| r0.contains(j) implies r@.contains(j) by {
                let k = choose|k: int| 0 <= k < r0.len() && r0[k] == j;
                assert(r@[k] == j);
            }
        }
        i = i + 1;
    }
    r
}

/// After a successful synchronization (every copy-based shim was rewritten),
/// every copy-based shim holds exactly the new primary image, and every
/// symbolic-link shim is untouched and still resolves to the new image.
pub proof fn lemma_shim_sync_complete(fs: FsModel, ok: Set<Seq<char>>)
    requires
        fs.primary is Some,
        forall|n: Seq<char>|
            fs.shims.dom().contains(n) && fs.shims[n] is Copy ==> ok.contains(n),
    ensures
        fs.sync_shims(ok).shims.dom() == fs.shims.dom(),
        forall|n: Seq<char>| #[trigger]
            fs.shims.dom().contains(n) ==> (fs.sync_shims(ok).shims[n] matches ShimData::Copy(b)
                ==> b == fs.primary.unwrap()),
        forall|n: Seq<char>| #[trigger]
            fs.shims.dom().contains(n) && fs.shims[n] is Symlink ==> fs.sync_shims(ok).shims[n]
                == fs.shims[n] && fs.sync_shims(ok).resolve_shim(n) == Some(fs.primary.unwrap()),
{
    assert(fs.sync_shims(ok).shims.dom() =~= fs.shims.dom());
}

/// Synchronization touches nothing but the copy-based shims whose rewrite
/// succeeded: a failed or skipped entry keeps its old data, and neither the
/// primary binary, the env file nor the directory set changes.
pub proof fn lemma_shim_sync_skips_failures(fs: FsModel, ok: Set<Seq<char>>)
    ensures
        fs.sync_shims(ok).shims.dom() == fs.shims.dom(),
        forall|n: Seq<char>| #[trigger]
            fs.shims.dom().contains(n) && !(ok.contains(n) && fs.shims[n] is Copy)
                ==> fs.sync_shims(ok).shims[n] == fs.shims[n],
        fs.sync_shims(ok).primary == fs.primary,
        fs.sync_shims(ok).env == fs.env,
        fs.sync_shims(ok).dirs == fs.dirs,
{
    assert(fs.sync_shims(ok).shims.dom() =~= fs.shims.dom());
}

} // verus!
