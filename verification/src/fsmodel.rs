//! A small model of the managed application directory, used to state and
//! prove what install, update, shim synchronization and uninstall do to the
//! file system.  The drivers that perform the real effects follow the plans
//! and decisions of this crate step by step; the model captures exactly the
//! state those plans produce.

use vstd::prelude::*;

verus! {

/// The directories managed under the application root.
#[derive(PartialEq, Eq, Structural)]
pub enum ManagedDir {
    /// The application root directory itself.
    Root,
    /// `shims/`, holding the primary binary and the shim entries.
    Shims,
    /// `self/`, internal runtime state.
    SelfDir,
    /// `py/`, internal runtime state.
    Py,
    /// `pip-tools/`, internal runtime state.
    PipTools,
}

/// A shim entry: either an independent copy of some bytes, or a symbolic
/// link that resolves to the primary binary at the file-system level.
#[verifier::ext_equal]
pub enum ShimData {
    Copy(Seq<u8>),
    Symlink,
}

/// The managed state: which managed directories exist, the bytes of the
/// primary binary (at `shims/<tool>`), the other shim entries by name, and
/// the contents of the `env` file.
#[verifier::ext_equal]
pub struct FsModel {
    pub dirs: Set<ManagedDir>,
    pub primary: Option<Seq<u8>>,
    pub shims: Map<Seq<char>, ShimData>,
    pub env: Option<Seq<char>>,
}

impl FsModel {
    /// The state before anything was ever installed.
    pub open spec fn empty() -> FsModel {
        FsModel {
            dirs: Set::empty(),
            primary: None,
            shims: Map::empty(),
            env: None,
        }
    }

    /// Placing the binary: the root and shim directories are created
    /// (idempotently), a stale file at the target path is removed and the
    /// running executable's bytes are copied there.
    pub open spec fn place_binary(self, exe: Seq<u8>) -> FsModel {
        FsModel {
            dirs: self.dirs.insert(ManagedDir::Root).insert(ManagedDir::Shims),
            primary: Some(exe),
            ..self
        }
    }

    /// Writing the `env` file, on platforms that need one; `None` leaves the
    /// file system untouched.
    pub open spec fn write_env(self, script: Option<Seq<char>>) -> FsModel {
        match script {
            Some(s) => FsModel { env: Some(s), ..self },
            None => self,
        }
    }

    /// The file-system effect of a completed install with the given
    /// executable image and (optional) env script.
    pub open spec fn install_effect(self, exe: Seq<u8>, script: Option<Seq<char>>) -> FsModel {
        self.place_binary(exe).write_env(script)
    }

    /// The atomic placement of a new primary image.
    pub open spec fn replace_primary(self, img: Seq<u8>) -> FsModel {
        FsModel { primary: Some(img), ..self }
    }

    /// Shim synchronization: every copy-based shim whose rewrite succeeded
    /// (its name is in `ok`) now holds the primary image; every other entry
    /// is untouched.  Individual failures are skipped, not escalated.
    pub open spec fn sync_shims(self, ok: Set<Seq<char>>) -> FsModel {
        FsModel {
            shims: Map::new(
                |n: Seq<char>| self.shims.dom().contains(n),
                |n: Seq<char>|
                    (if ok.contains(n) && self.shims[n] is Copy {
                        ShimData::Copy(self.primary.unwrap())
                    } else {
                        self.shims[n]
                    }),
            ),
            ..self
        }
    }

    /// The bytes a shim entry resolves to: its own bytes for a copy, the
    /// primary binary's bytes for a symlink.
    pub open spec fn resolve_shim(self, n: Seq<char>) -> Option<Seq<u8>> {
        match self.shims[n] {
            ShimData::Copy(b) => Some(b),
            ShimData::Symlink => self.primary,
        }
    }

    /// The file-system effect of an uninstall when the application root
    /// exists: all shim entries and the primary binary are deleted, the
    /// managed subdirectories are removed, and the `env` file — which a
    /// running shell may still have sourced — is truncated rather than
    /// deleted.  The root directory itself stays.
    pub open spec fn uninstall_effect(self) -> FsModel {
        if self.dirs.contains(ManagedDir::Root) {
            FsModel {
                dirs: self
                    .dirs
                    .remove(ManagedDir::Shims)
                    .remove(ManagedDir::SelfDir)
                    .remove(ManagedDir::Py)
                    .remove(ManagedDir::PipTools),
                primary: None,
                shims: Map::empty(),
                env: if self.env is Some {
                    Some(Seq::empty())
                } else {
                    None
                },
            }
        } else {
            self
        }
    }
}

/// Install is idempotent: installing twice with identical inputs leaves
/// exactly the state of installing once — the same directories, the same
/// primary binary, no duplicated shim entries, the same env file.
pub proof fn lemma_install_idempotent(fs: FsModel, exe: Seq<u8>, script: Option<Seq<char>>)
    ensures
        fs.install_effect(exe, script).install_effect(exe, script) == fs.install_effect(
            exe,
            script,
        ),
{
    let once = fs.install_effect(exe, script);
    let twice = once.install_effect(exe, script);
    assert(twice.dirs =~= once.dirs);
    assert(twice =~= once);
}

/// Uninstall followed by install reproduces the layout of a fresh install
/// into a never-used location.  The one deliberate exception is excluded by
/// the hypothesis: where the install writes no env script, a pre-existing
/// env file survives uninstall truncated to empty rather than absent.
pub proof fn lemma_uninstall_then_install_is_fresh(
    fs: FsModel,
    exe: Seq<u8>,
    script: Option<Seq<char>>,
)
    requires
        fs.dirs.contains(ManagedDir::Root),
        script is Some || fs.env is None,
    ensures
        fs.uninstall_effect().install_effect(exe, script) == FsModel::empty().install_effect(
            exe,
            script,
        ),
{
    let a = fs.uninstall_effect().install_effect(exe, script);
    let b = FsModel::empty().install_effect(exe, script);
    assert(a.dirs =~= b.dirs);
    assert(a.shims =~= b.shims);
    assert(a =~= b);
}

} // verus!
