//! Resolving a release asset: the download URL of the binary for a platform
//! and version, and the URL of its detached checksum sidecar.

use vstd::prelude::*;
use vstd::string::StringExecFns;
use crate::platform::Platform;

verus! {

/// Home of the project's released assets.
pub open spec fn repo_url() -> Seq<char> {
    "https://github.com/mitsuhiko/rye"@
}

/// Name of the release binary for a target triple's architecture and OS.
pub open spec fn binary_name(arch: Seq<char>, os: Seq<char>) -> Seq<char> {
    "rye-"@ + arch + "-"@ + os
}

/// The download URL of the release asset.  No version, or the version
/// `latest`, addresses the newest release; anything else addresses the
/// release of that exact tag.
pub open spec fn asset_url_spec(
    version: Option<Seq<char>>,
    arch: Seq<char>,
    os: Seq<char>,
    plat: Platform,
) -> Seq<char> {
    match version {
        Some(v) if v != "latest"@ => repo_url() + "/releases/download/"@ + v + "/"@
            + binary_name(arch, os) + plat.asset_ext_spec(),
        _ => repo_url() + "/releases/latest/download/"@ + binary_name(arch, os)
            + plat.asset_ext_spec(),
    }
}

/// The URL of the checksum sidecar: the asset URL with `.sha256` appended.
pub open spec fn checksum_url_spec(
    version: Option<Seq<char>>,
    arch: Seq<char>,
    os: Seq<char>,
    plat: Platform,
) -> Seq<char> {
    asset_url_spec(version, arch, os, plat) + ".sha256"@
}

/// The view of an optional version argument.
pub open spec fn version_view(version: Option<&String>) -> Option<Seq<char>> {
    match version {
        Some(v) => Some(v@),
        None => None,
    }
}

/// Builds the asset URL and the checksum sidecar URL for a release.
pub fn asset_urls(version: Option<&String>, arch: &str, os: &str, plat: Platform) -> (r: (
    String,
    String,
))
    ensures
        r.0@ == asset_url_spec(version_view(version), arch@, os@, plat),
        r.1@ == checksum_url_spec(version_view(version), arch@, os@, plat),
{
    let explicit: Option<&String> = match version {
        Some(v) => {
            let latest: String = "latest".to_owned();
            if v.eq(&latest) {
                None
            } else {
                Some(v)
            }
        },
        None => None,
    };
    let mut url: String = "https://github.com/mitsuhiko/rye".to_owned();
    match explicit {
        Some(v) => {
            url.append("/releases/download/");
            url.append(v.as_str());
            url.append("/");
        },
        None => {
            url.append("/releases/latest/download/");
        },
    }
    url.append("rye-");
    url.append(arch);
    url.append("-");
    url.append(os);
    match plat {
        Platform::UnixLike => url.append(".gz"),
        Platform::Windows => url.append(".exe"),
    }
    let mut sha_url: String = url.clone();
    sha_url.append(".sha256");
    (url, sha_url)
}

} // verus!
