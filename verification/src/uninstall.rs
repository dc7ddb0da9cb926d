//! Uninstallation: decide what to remove and in which order.  Most steps
//! are best-effort; only the deferred self-deletion facility may abort the
//! flow.  Declining the confirmation is the quiet, non-error exit.

use vstd::prelude::*;
use vstd::string::StringExecFns;
use crate::fsmodel::{FsModel, ManagedDir};
use crate::install::FlowOutcome;
use crate::platform::Platform;

verus! {

/// Uninstalls the tool again.
pub struct UninstallCommand {
    /// Skip safety check.
    pub yes: bool,
}

/// One uninstallation step, in execution order.
#[derive(Clone, Copy, Debug, PartialEq, Eq, Structural)]
pub enum UninstallOp {
    /// Delete every file directly inside the shim directory, ignoring
    /// individual failures (deleting the running executable may fail on
    /// some platforms — expected, not an error).
    DeleteShimFiles,
    /// Recursively remove `self/`; a no-op if absent.
    RemoveSelfDir,
    /// Recursively remove `py/`; a no-op if absent.
    RemovePyDir,
    /// Recursively remove `pip-tools/`; a no-op if absent.
    RemovePipToolsDir,
    /// The running executable lives inside the application directory:
    /// schedule its deletion for after the process exits, via the platform
    /// facility that deletes from outside a directory.  Fatal if the
    /// facility itself errors.
    ScheduleSelfDelete,
    /// Remove the shim directory itself.
    RemoveShimsDir,
    /// Truncate the `env` file to empty rather than deleting it: a shell
    /// that still sources it must keep working.
    TruncateEnvFile,
}

/// What an uninstall invocation does.
pub enum UninstallDecision {
    /// Confirmation declined: nothing is removed, exit quietly.
    Cancelled,
    /// The application directory does not exist: nothing to remove, only
    /// the closing advice is printed.
    NothingToRemove,
    /// Perform these steps in order, then print the closing advice.
    Run(Vec<UninstallOp>),
}

/// The steps of an uninstall of an existing application directory; the
/// deferred self-deletion is scheduled exactly when the running executable
/// lives inside that directory.
pub open spec fn uninstall_ops_spec(schedule_self_delete: bool) -> Seq<UninstallOp> {
    if schedule_self_delete {
        seq![
            UninstallOp::DeleteShimFiles,
            UninstallOp::RemoveSelfDir,
            UninstallOp::RemovePyDir,
            UninstallOp::RemovePipToolsDir,
            UninstallOp::ScheduleSelfDelete,
            UninstallOp::RemoveShimsDir,
            UninstallOp::TruncateEnvFile,
        ]
    } else {
        seq![
            UninstallOp::DeleteShimFiles,
            UninstallOp::RemoveSelfDir,
            UninstallOp::RemovePyDir,
            UninstallOp::RemovePipToolsDir,
            UninstallOp::RemoveShimsDir,
            UninstallOp::TruncateEnvFile,
        ]
    }
}

/// Decides an uninstall invocation.  Without the safety-check override the
/// flow runs only on an affirmative confirmation; a declined confirmation
/// removes nothing.  `exe_in_app_dir` says whether the running executable's
/// canonical path lies inside the canonical application directory (and is a
/// regular file there).
pub fn plan_uninstall(
    cmd: &UninstallCommand,
    confirmed: bool,
    app_dir_exists: bool,
    exe_in_app_dir: bool,
) -> (r: UninstallDecision)
    ensures
        !cmd.yes && !confirmed ==> r is Cancelled,
        (cmd.yes || confirmed) && !app_dir_exists ==> r is NothingToRemove,
        (cmd.yes || confirmed) && app_dir_exists ==> (r matches UninstallDecision::Run(ops)
            && ops@ == uninstall_ops_spec(exe_in_app_dir)),
{
    if !cmd.yes && !confirmed {
        return UninstallDecision::Cancelled;
    }
    if !app_dir_exists {
        return UninstallDecision::NothingToRemove;
    }
    let mut ops: Vec<UninstallOp> = Vec::new();
    ops.push(UninstallOp::DeleteShimFiles);
    ops.push(UninstallOp::RemoveSelfDir);
    ops.push(UninstallOp::RemovePyDir);
    ops.push(UninstallOp::RemovePipToolsDir);
    if exe_in_app_dir {
        ops.push(UninstallOp::ScheduleSelfDelete);
    }
    ops.push(UninstallOp::RemoveShimsDir);
    ops.push(UninstallOp::TruncateEnvFile);
    proof {
        assert(ops@ =~= uninstall_ops_spec(exe_in_app_dir));
    }
    UninstallDecision::Run(ops)
}

/// The process-level outcome of an uninstall decision: a declined
/// confirmation is the quiet exit with code 1 and no message; everything
/// else completes as success (individual best-effort steps never escalate).
pub fn uninstall_outcome(r: &UninstallDecision) -> (o: FlowOutcome)
    ensures
        r is Cancelled ==> (o matches FlowOutcome::QuietCancel { code } && code == 1),
        !(r is Cancelled) ==> o is Success,
{
    match r {
        UninstallDecision::Cancelled => FlowOutcome::QuietCancel { code: 1 },
        _ => FlowOutcome::Success,
    }
}

/// What one uninstall step does to the managed state, when it succeeds.
pub open spec fn apply_uninstall_op(fs: FsModel, op: UninstallOp) -> FsModel {
    match op {
        UninstallOp::DeleteShimFiles => FsModel {
            shims: Map::empty(),
            primary: None,
            ..fs
        },
        UninstallOp::RemoveSelfDir => FsModel { dirs: fs.dirs.remove(ManagedDir::SelfDir), ..fs },
        UninstallOp::RemovePyDir => FsModel { dirs: fs.dirs.remove(ManagedDir::Py), ..fs },
        UninstallOp::RemovePipToolsDir => FsModel {
            dirs: fs.dirs.remove(ManagedDir::PipTools),
            ..fs
        },
        UninstallOp::ScheduleSelfDelete => fs,  // takes effect after the process exits
        UninstallOp::RemoveShimsDir => FsModel {
            dirs: fs.dirs.remove(ManagedDir::Shims),
            shims: Map::empty(),
            primary: None,
            ..fs
        },
        UninstallOp::TruncateEnvFile => FsModel {
            env: if fs.env is Some {
                Some(Seq::empty())
            } else {
                None
            },
            ..fs
        },
    }
}

/// The managed state after the steps from index `i` on have run.
pub open spec fn apply_uninstall_from(fs: FsModel, ops: Seq<UninstallOp>, i: int) -> FsModel
    decreases ops.len() - i,
    when 0 <= i <= ops.len()
{
    if i >= ops.len() {
        fs
    } else {
        apply_uninstall_from(apply_uninstall_op(fs, ops[i]), ops, i + 1)
    }
}

/// Running the planned steps on an existing application directory yields
/// exactly the modelled uninstall effect: shims and primary binary gone,
/// managed subdirectories removed, the env file truncated, the root kept.
pub proof fn lemma_uninstall_plan_matches_model(fs: FsModel, schedule_self_delete: bool)
    requires
        fs.dirs.contains(ManagedDir::Root),
    ensures
        apply_uninstall_from(fs, uninstall_ops_spec(schedule_self_delete), 0)
            == fs.uninstall_effect(),
{
    let ops = uninstall_ops_spec(schedule_self_delete);
    let t1 = apply_uninstall_op(fs, UninstallOp::DeleteShimFiles);
    let t2 = apply_uninstall_op(t1, UninstallOp::RemoveSelfDir);
    let t3 = apply_uninstall_op(t2, UninstallOp::RemovePyDir);
    let t4 = apply_uninstall_op(t3, UninstallOp::RemovePipToolsDir);
    if schedule_self_delete {
        let t5 = apply_uninstall_op(t4, UninstallOp::ScheduleSelfDelete);
        let t6 = apply_uninstall_op(t5, UninstallOp::RemoveShimsDir);
        let t7 = apply_uninstall_op(t6, UninstallOp::TruncateEnvFile);
        assert(apply_uninstall_from(fs, ops, 0) == apply_uninstall_from(t1, ops, 1));
        assert(apply_uninstall_from(t1, ops, 1) == apply_uninstall_from(t2, ops, 2));
        assert(apply_uninstall_from(t2, ops, 2) == apply_uninstall_from(t3, ops, 3));
        assert(apply_uninstall_from(t3, ops, 3) == apply_uninstall_from(t4, ops, 4));
        assert(apply_uninstall_from(t4, ops, 4) == apply_uninstall_from(t5, ops, 5));
        assert(apply_uninstall_from(t5, ops, 5) == apply_uninstall_from(t6, ops, 6));
        assert(apply_uninstall_from(t6, ops, 6) == apply_uninstall_from(t7, ops, 7));
        assert(apply_uninstall_from(t7, ops, 7) == t7);
        assert(t7.dirs =~= fs.uninstall_effect().dirs);
        assert(t7.shims =~= fs.uninstall_effect().shims);
        assert(t7 =~= fs.uninstall_effect());
    } else {
        let t5 = apply_uninstall_op(t4, UninstallOp::RemoveShimsDir);
        let t6 = apply_uninstall_op(t5, UninstallOp::TruncateEnvFile);
        assert(apply_uninstall_from(fs, ops, 0) == apply_uninstall_from(t1, ops, 1));
        assert(apply_uninstall_from(t1, ops, 1) == apply_uninstall_from(t2, ops, 2));
        assert(apply_uninstall_from(t2, ops, 2) == apply_uninstall_from(t3, ops, 3));
        assert(apply_uninstall_from(t3, ops, 3) == apply_uninstall_from(t4, ops, 4));
        assert(apply_uninstall_from(t4, ops, 4) == apply_uninstall_from(t5, ops, 5));
        assert(apply_uninstall_from(t5, ops, 5) == apply_uninstall_from(t6, ops, 6));
        assert(apply_uninstall_from(t6, ops, 6) == t6);
        assert(t6.dirs =~= fs.uninstall_effect().dirs);
        assert(t6.shims =~= fs.uninstall_effect().shims);
        assert(t6 =~= fs.uninstall_effect());
    }
}

/// The path named by the closing cleanup advice: the sourced env file on
/// Unix-like platforms, the shim directory on Windows.
pub fn uninstall_advice_path(plat: Platform, home: &str) -> (r: String)
    ensures
        plat is UnixLike ==> r@ == home@ + "/env"@,
        plat is Windows ==> r@ == home@ + "\\shims"@,
{
    let mut s: String = home.to_owned();
    match plat {
        Platform::UnixLike => s.append("/env"),
        Platform::Windows => s.append("\\shims"),
    }
    s
}

} // verus!
