use rye_self::payload::decode_payload;
use rye_self::platform::Platform;
use rye_self::release::asset_urls;
use rye_self::update::{
    evaluate_update, git_install_ref, GitRef, SidecarOutcome, UpdateCommand, UpdateError,
    UpdateEval,
};

fn gzip(data: &[u8]) -> Vec<u8> {
    let mut enc = flate2::write::GzEncoder::new(Vec::new(), flate2::Compression::default());
    std::io::Write::write_all(&mut enc, data).unwrap();
    enc.finish().unwrap()
}

fn sha256_hex(data: &[u8]) -> String {
    let digest = <sha2::Sha256 as sha2::Digest>::digest(data);
    let mut out = String::new();
    for b in digest.iter() {
        out.push_str(&format!("{:02x}", b));
    }
    out
}

#[test]
fn gzip_payload_round_trips_on_unix() {
    let exe = b"#!/bin/sh\necho new rye\n".to_vec();
    let compressed = gzip(&exe);
    assert_eq!(decode_payload(Platform::UnixLike, &compressed), Some(exe));
}

#[test]
fn corrupt_gzip_payload_fails_to_decode() {
    assert_eq!(decode_payload(Platform::UnixLike, b"not gzip at all"), None);
}

#[test]
fn windows_payload_passes_through() {
    let exe = b"MZ-raw-image".to_vec();
    assert_eq!(decode_payload(Platform::Windows, &exe), Some(exe));
}

#[test]
fn mismatching_sidecar_aborts_update() {
    // Asset rye-x86_64-linux.gz with a sidecar hash that does not match:
    // the update aborts and signals the mismatch.
    let payload = gzip(b"new rye binary");
    let sidecar =
        b"deadbeefdeadbeefdeadbeefdeadbeefdeadbeefdeadbeefdeadbeefdeadbeef  rye-x86_64-linux.gz"
            .to_vec();
    match evaluate_update(&payload, &SidecarOutcome::Found(sidecar), Platform::UnixLike) {
        UpdateEval::Abort(e) => assert_eq!(e, UpdateError::ChecksumMismatch),
        UpdateEval::Proceed { .. } => panic!("mismatching checksum must abort"),
    }
}

#[test]
fn matching_sidecar_proceeds_verified() {
    let exe = b"new rye binary".to_vec();
    let payload = gzip(&exe);
    let sidecar = format!("{}  rye-x86_64-linux.gz\n", sha256_hex(&payload));
    match evaluate_update(
        &payload,
        &SidecarOutcome::Found(sidecar.into_bytes()),
        Platform::UnixLike,
    ) {
        UpdateEval::Proceed { image, unverified } => {
            assert_eq!(image, exe);
            assert!(!unverified);
        }
        UpdateEval::Abort(_) => panic!("matching checksum must proceed"),
    }
}

#[test]
fn missing_sidecar_proceeds_with_warning() {
    // A "not found" on the checksum request is a soft failure: the update
    // proceeds, but flags that it is unverified.
    let exe = b"new rye binary".to_vec();
    let payload = gzip(&exe);
    match evaluate_update(&payload, &SidecarOutcome::NotFound, Platform::UnixLike) {
        UpdateEval::Proceed { image, unverified } => {
            assert_eq!(image, exe);
            assert!(unverified);
        }
        UpdateEval::Abort(_) => panic!("missing sidecar must not block the update"),
    }
}

#[test]
fn verified_but_corrupt_payload_aborts_on_unix() {
    let payload = b"not gzip at all".to_vec();
    let sidecar = sha256_hex(&payload).into_bytes();
    match evaluate_update(&payload, &SidecarOutcome::Found(sidecar), Platform::UnixLike) {
        UpdateEval::Abort(e) => assert_eq!(e, UpdateError::DecodeFailed),
        UpdateEval::Proceed { .. } => panic!("a corrupt payload must abort"),
    }
}

#[test]
fn sidecar_transport_error_aborts_update() {
    let payload = gzip(b"new rye binary");
    match evaluate_update(&payload, &SidecarOutcome::TransportError, Platform::UnixLike) {
        UpdateEval::Abort(e) => assert_eq!(e, UpdateError::ChecksumFetchFailed),
        UpdateEval::Proceed { .. } => panic!("a hard sidecar failure must abort"),
    }
}

#[test]
fn latest_release_urls() {
    let (url, sha) = asset_urls(None, "x86_64", "linux", Platform::UnixLike);
    assert_eq!(
        url,
        "https://github.com/mitsuhiko/rye/releases/latest/download/rye-x86_64-linux.gz"
    );
    assert_eq!(
        sha,
        "https://github.com/mitsuhiko/rye/releases/latest/download/rye-x86_64-linux.gz.sha256"
    );
}

#[test]
fn explicit_latest_is_the_latest_release() {
    let v = String::from("latest");
    let (url, _) = asset_urls(Some(&v), "x86_64", "linux", Platform::UnixLike);
    assert_eq!(
        url,
        "https://github.com/mitsuhiko/rye/releases/latest/download/rye-x86_64-linux.gz"
    );
}

#[test]
fn versioned_release_urls_on_windows() {
    let v = String::from("0.4.0");
    let (url, sha) = asset_urls(Some(&v), "x86_64", "windows", Platform::Windows);
    assert_eq!(
        url,
        "https://github.com/mitsuhiko/rye/releases/download/0.4.0/rye-x86_64-windows.exe"
    );
    assert_eq!(
        sha,
        "https://github.com/mitsuhiko/rye/releases/download/0.4.0/rye-x86_64-windows.exe.sha256"
    );
}

#[test]
fn rev_takes_precedence_over_tag() {
    let cmd = UpdateCommand {
        version: None,
        tag: Some(String::from("v1")),
        rev: Some(String::from("abc123")),
        force: false,
    };
    match git_install_ref(cmd) {
        Ok(g) => match g.git_ref {
            GitRef::Rev(r) => {
                assert_eq!(r, "abc123");
                assert!(!g.force);
            }
            _ => panic!("rev must take precedence"),
        },
        _ => panic!("rev must install from git"),
    }
}

#[test]
fn tag_alone_installs_from_git() {
    let cmd = UpdateCommand {
        version: None,
        tag: Some(String::from("v1")),
        rev: None,
        force: true,
    };
    match git_install_ref(cmd) {
        Ok(g) => match g.git_ref {
            GitRef::Tag(t) => {
                assert_eq!(t, "v1");
                assert!(g.force);
            }
            _ => panic!("tag must install from git"),
        },
        _ => panic!("tag must install from git"),
    }
}

#[test]
fn plain_update_downloads_a_release() {
    let cmd = UpdateCommand {
        version: Some(String::from("0.4.0")),
        tag: None,
        rev: None,
        force: false,
    };
    match git_install_ref(cmd) {
        Err(back) => assert_eq!(back.version.as_deref(), Some("0.4.0")),
        Ok(_) => panic!("no rev or tag: must not install from git"),
    }
}
