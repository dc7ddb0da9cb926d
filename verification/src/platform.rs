//! The two platform families the tool distinguishes.  Platform-conditional
//! behaviour (self-replace strategy, release-asset suffix, whether an `env`
//! file is written) is driven by this value, resolved once at process start.

use vstd::prelude::*;

verus! {

/// Platform family of the running process.
#[derive(Clone, Copy, Debug, PartialEq, Eq, Structural)]
pub enum Platform {
    /// Unix-like systems: compressed release assets, sourced `env` file,
    /// in-place deletion of a running binary is permitted.
    UnixLike,
    /// Windows: raw `.exe` release assets, no `env` file, a running binary
    /// cannot be deleted in place.
    Windows,
}

impl Platform {
    /// Suffix of the release asset for this platform family.
    pub open spec fn asset_ext_spec(self) -> Seq<char> {
        match self {
            Platform::UnixLike => ".gz"@,
            Platform::Windows => ".exe"@,
        }
    }

    /// Whether the release asset is gzip-compressed and must be decoded
    /// before it can be executed.
    pub open spec fn asset_compressed(self) -> bool {
        self is UnixLike
    }

    /// Whether a shell-sourcing `env` file is written at install time.
    pub open spec fn writes_env_file(self) -> bool {
        self is UnixLike
    }

    /// Whether the operating system permits deleting the file of a running
    /// executable; when it does not, self-replace must rename the running
    /// binary aside instead.
    pub open spec fn allows_delete_running(self) -> bool {
        self is UnixLike
    }
}

} // verus!
