//! Self-management of a command-line tool: verified planning and decision
//! logic for installing the tool into a per-user application directory,
//! updating it by atomically replacing the running executable, keeping the
//! shim executables in sync with the primary binary, and uninstalling.
//!
//! All file-system and network effects are performed by a thin driver outside
//! this crate; the functions here compute what to do and are verified against
//! contracts phrased over a small model of the managed directory.
//!
//! Known limitation, inherited by design: two concurrent instances of the
//! tool installing or updating at the same time are not coordinated; there is
//! no lock file or advisory mutex.

pub mod ascii;
pub mod checksum;
pub mod fsmodel;
pub mod install;
pub mod payload;
pub mod platform;
pub mod release;
pub mod selfreplace;
pub mod shims;
pub mod uninstall;
pub mod update;
