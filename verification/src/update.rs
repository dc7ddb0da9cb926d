//! The update flow: decide, from the outcome of the two downloads, whether
//! the self-replacement may be applied, and with which executable image.
//! Nothing is modified on disk unless the decision is to proceed.

use vstd::prelude::*;
use crate::checksum::{checksum_ok, verify_checksum};
use crate::fsmodel::FsModel;
use crate::payload::{decode_payload, decoded_image};
use crate::platform::Platform;

verus! {

/// Performs an update of the tool: downloads the release asset for the
/// requested version, verifies it against its checksum sidecar and replaces
/// the running executable with it.
pub struct UpdateCommand {
    /// Update to a specific version (`latest` or absent: newest release).
    pub version: Option<String>,
    /// Update to a specific tag, building from source.
    pub tag: Option<String>,
    /// Update to a specific git rev, building from source.
    pub rev: Option<String>,
    /// Force reinstallation.
    pub force: bool,
}

/// A source-build reference for updates that install from git.
pub enum GitRef {
    Rev(String),
    Tag(String),
}

/// A source build to run: which git reference, and whether to force the
/// reinstallation.
pub struct GitInstall {
    pub git_ref: GitRef,
    pub force: bool,
}

/// An update to a tag or rev is built from source; the rev takes
/// precedence.  Everything else downloads a released binary.
pub fn git_install_ref(cmd: UpdateCommand) -> (r: Result<GitInstall, UpdateCommand>)
    ensures
        match r {
            Result::Ok(g) => {
                &&& match g.git_ref {
                    GitRef::Rev(s) => (cmd.rev matches Some(v) && v == s),
                    GitRef::Tag(s) => cmd.rev is None && (cmd.tag matches Some(v) && v == s),
                }
                &&& g.force == cmd.force
            },
            Result::Err(c) => cmd.rev is None && cmd.tag is None && c == cmd,
        },
{
    let force = cmd.force;
    match cmd.rev {
        Some(rev) => Result::Ok(GitInstall { git_ref: GitRef::Rev(rev), force }),
        None => match cmd.tag {
            Some(tag) => Result::Ok(GitInstall { git_ref: GitRef::Tag(tag), force }),
            None => Result::Err(UpdateCommand { rev: None, tag: None, ..cmd }),
        },
    }
}

/// Outcome of the checksum sidecar download.  A "not found" on the sidecar
/// is a soft signal; any other transport error is hard.
pub enum SidecarOutcome {
    Found(Vec<u8>),
    NotFound,
    TransportError,
}

/// The view of a sidecar outcome.
pub enum SidecarView {
    Found(Seq<u8>),
    NotFound,
    TransportError,
}

impl SidecarOutcome {
    pub open spec fn view_spec(&self) -> SidecarView {
        match self {
            SidecarOutcome::Found(v) => SidecarView::Found(v@),
            SidecarOutcome::NotFound => SidecarView::NotFound,
            SidecarOutcome::TransportError => SidecarView::TransportError,
        }
    }
}

/// Why an update attempt was aborted with nothing modified on disk.
#[derive(Clone, Copy, Debug, PartialEq, Eq, Structural)]
pub enum UpdateError {
    /// The sidecar request failed other than with "not found".
    ChecksumFetchFailed,
    /// A sidecar was obtained and its digest does not match the payload.
    ChecksumMismatch,
    /// The payload is not a well-formed compressed stream.
    DecodeFailed,
}

/// The verdict on a downloaded payload.
pub enum UpdateEval {
    /// Replace the running executable with `image`; `unverified` warns that
    /// no checksum was available.
    Proceed { image: Vec<u8>, unverified: bool },
    /// Abort; nothing may be modified on disk.
    Abort(UpdateError),
}

/// Whether the update may proceed: the sidecar request either answered
/// "not found" or produced a matching digest, and the payload decodes into
/// an executable image on this platform.
pub open spec fn update_proceeds(payload: Seq<u8>, sidecar: SidecarView, plat: Platform) -> bool {
    &&& match sidecar {
        SidecarView::Found(s) => checksum_ok(payload, s),
        SidecarView::NotFound => true,
        SidecarView::TransportError => false,
    }
    &&& decoded_image(plat, payload) is Some
}

/// The abort reason for a payload that may not be applied.
pub open spec fn update_abort_reason(
    payload: Seq<u8>,
    sidecar: SidecarView,
    plat: Platform,
) -> UpdateError {
    match sidecar {
        SidecarView::TransportError => UpdateError::ChecksumFetchFailed,
        SidecarView::Found(s) => if !checksum_ok(payload, s) {
            UpdateError::ChecksumMismatch
        } else {
            UpdateError::DecodeFailed
        },
        SidecarView::NotFound => UpdateError::DecodeFailed,
    }
}

/// Decides whether a downloaded payload may replace the running executable.
/// Success is owed exactly when the sidecar answered "not found" or matched
/// the payload's digest, and the payload decodes on this platform; the image
/// handed back is exactly the decoded payload, and the caller is warned
/// when the checksum check was skipped.  Each abort carries the reason:
/// a hard sidecar transport failure, a digest mismatch, or a corrupt
/// payload — checked in that order, before anything touches the disk.
pub fn evaluate_update(payload: &Vec<u8>, sidecar: &SidecarOutcome, plat: Platform) -> (r:
    UpdateEval)
    ensures
        match r {
            UpdateEval::Proceed { image, unverified } => {
                &&& update_proceeds(payload@, sidecar.view_spec(), plat)
                &&& decoded_image(plat, payload@) == Some(image@)
                &&& unverified == (sidecar.view_spec() is NotFound)
            },
            UpdateEval::Abort(e) => {
                &&& !update_proceeds(payload@, sidecar.view_spec(), plat)
                &&& e == update_abort_reason(payload@, sidecar.view_spec(), plat)
            },
        },
{
    let verified: bool = match sidecar {
        SidecarOutcome::Found(s) => {
            if !verify_checksum(payload.as_slice(), s.as_slice()) {
                return UpdateEval::Abort(UpdateError::ChecksumMismatch);
            }
            true
        },
        SidecarOutcome::NotFound => false,
        SidecarOutcome::TransportError => {
            return UpdateEval::Abort(UpdateError::ChecksumFetchFailed);
        },
    };
    match decode_payload(plat, payload.as_slice()) {
        Some(image) => UpdateEval::Proceed { image, unverified: !verified },
        None => UpdateEval::Abort(UpdateError::DecodeFailed),
    }
}

/// The file-system effect of a whole update attempt: when the decision is to
/// proceed, the primary binary is atomically replaced by the decoded image
/// and the shims whose rewrite succeeds are synchronized; when it is to
/// abort, the state is untouched.
pub open spec fn attempt_effect(
    fs: FsModel,
    payload: Seq<u8>,
    sidecar: SidecarView,
    plat: Platform,
    sync_ok: Set<Seq<char>>,
) -> FsModel {
    if update_proceeds(payload, sidecar, plat) {
        fs.replace_primary(decoded_image(plat, payload).unwrap()).sync_shims(sync_ok)
    } else {
        fs
    }
}

/// A supplied checksum that does not match the payload aborts the update:
/// after the attempt the primary binary on disk — and everything else in
/// the managed directory — is exactly what it was before.
pub proof fn lemma_mismatch_preserves_binary(
    fs: FsModel,
    payload: Seq<u8>,
    sidecar: Seq<u8>,
    plat: Platform,
    sync_ok: Set<Seq<char>>,
)
    requires
        !checksum_ok(payload, sidecar),
    ensures
        attempt_effect(fs, payload, SidecarView::Found(sidecar), plat, sync_ok) == fs,
        attempt_effect(fs, payload, SidecarView::Found(sidecar), plat, sync_ok).primary
            == fs.primary,
{
}

/// A hard transport failure on the sidecar request likewise leaves the
/// managed directory untouched.
pub proof fn lemma_sidecar_failure_preserves_binary(
    fs: FsModel,
    payload: Seq<u8>,
    plat: Platform,
    sync_ok: Set<Seq<char>>,
)
    ensures
        attempt_effect(fs, payload, SidecarView::TransportError, plat, sync_ok) == fs,
{
}

/// After an update that proceeds and whose shim rewrites all succeed, the
/// managed invariant holds again: the primary binary is exactly the decoded
/// image, and every shim entry — copy or symlink — resolves to it.
pub proof fn lemma_update_restores_shim_invariant(
    fs: FsModel,
    payload: Seq<u8>,
    sidecar: SidecarView,
    plat: Platform,
    sync_ok: Set<Seq<char>>,
)
    requires
        update_proceeds(payload, sidecar, plat),
        forall|n: Seq<char>|
            fs.shims.dom().contains(n) && fs.shims[n] is Copy ==> sync_ok.contains(n),
    ensures
        attempt_effect(fs, payload, sidecar, plat, sync_ok).primary == Some(
            decoded_image(plat, payload).unwrap(),
        ),
        forall|n: Seq<char>| #[trigger]
            fs.shims.dom().contains(n) ==> attempt_effect(
                fs,
                payload,
                sidecar,
                plat,
                sync_ok,
            ).resolve_shim(n) == Some(decoded_image(plat, payload).unwrap()),
{
    let img = decoded_image(plat, payload).unwrap();
    let replaced = fs.replace_primary(img);
    crate::shims::lemma_shim_sync_complete(replaced, sync_ok);
}

/// A missing sidecar alone never blocks the update: whenever the payload
/// decodes, the update proceeds unverified and the new image is installed
/// as the primary binary.
pub proof fn lemma_missing_sidecar_proceeds(
    fs: FsModel,
    payload: Seq<u8>,
    plat: Platform,
    sync_ok: Set<Seq<char>>,
)
    requires
        decoded_image(plat, payload) is Some,
    ensures
        update_proceeds(payload, SidecarView::NotFound, plat),
        attempt_effect(fs, payload, SidecarView::NotFound, plat, sync_ok).primary
            == Some(decoded_image(plat, payload).unwrap()),
{
    let replaced = fs.replace_primary(decoded_image(plat, payload).unwrap());
    assert(replaced.sync_shims(sync_ok).primary == replaced.primary);
}

} // verus!
