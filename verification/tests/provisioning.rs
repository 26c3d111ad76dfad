use shebe_provision::provision::{launch_command, Phase, ProvisionError, Provisioner, Step};
use shebe_provision::release::{Asset, Release};
use shebe_provision::resolver::{ArchKind, OsKind, RejectReason};

/// A stand-in for the host's collaborators: a canned release feed, canned
/// download and permission outcomes, and a record of every piece of
/// outside work the session asked for.
struct FakeHost {
    release: Result<Release, String>,
    unpack: Result<(), String>,
    permissions: Result<(), String>,
    fetches: usize,
    downloads: Vec<(String, String)>,
    chmods: Vec<String>,
}

impl FakeHost {
    fn new(release: Result<Release, String>) -> FakeHost {
        FakeHost {
            release,
            unpack: Ok(()),
            permissions: Ok(()),
            fetches: 0,
            downloads: Vec::new(),
            chmods: Vec::new(),
        }
    }
}

fn asset(name: &str, url: &str) -> Asset {
    Asset { name: name.to_string(), download_url: url.to_string() }
}

fn release_v0_3_1() -> Release {
    Release {
        version: "v0.3.1".to_string(),
        assets: vec![
            asset("shebe-v0.3.1-darwin-aarch64.tar.gz", "https://example.invalid/darwin-arm"),
            asset("shebe-v0.3.1-linux-x86_64-musl.tar.gz", "https://example.invalid/linux-x64"),
        ],
    }
}

/// Run one provisioning session the way the host does: perform each step
/// the session asks for against the fake collaborators, until it is done.
fn drive(
    p: &mut Provisioner,
    host: &mut FakeHost,
    os: OsKind,
    arch: ArchKind,
) -> Result<String, ProvisionError> {
    let idle = matches!(p.phase(), Phase::Uncached | Phase::Cached | Phase::Failed);
    assert!(idle, "a session is already under way");
    let mut step = p.begin(os, arch);
    loop {
        step = match step {
            Step::FetchRelease => {
                assert_eq!(p.phase(), Phase::Resolving);
                host.fetches += 1;
                p.provide_release(host.release.clone())
            }
            Step::DownloadAndUnpack { url, dest_dir } => {
                assert_eq!(p.phase(), Phase::Fetching);
                host.downloads.push((url, dest_dir));
                p.provide_unpack(host.unpack.clone())
            }
            Step::MakeExecutable { path } => {
                assert_eq!(p.phase(), Phase::Finalizing);
                host.chmods.push(path);
                p.provide_permissions(host.permissions.clone())
            }
            Step::Done { outcome } => return outcome,
        };
    }
}

#[test]
fn new_provisioner_is_uncached() {
    let p = Provisioner::new();
    assert_eq!(p.phase(), Phase::Uncached);
    assert!(p.cached_path().is_none());
}

#[test]
fn end_to_end_darwin_aarch64() {
    let mut p = Provisioner::new();
    let mut host = FakeHost::new(Ok(release_v0_3_1()));
    let path = drive(&mut p, &mut host, OsKind::Mac, ArchKind::Aarch64).unwrap();
    assert_eq!(path, "shebe-v0.3.1/shebe-mcp");
    assert!(path.ends_with("/shebe-mcp"));
    assert_eq!(host.fetches, 1);
    assert_eq!(
        host.downloads,
        vec![("https://example.invalid/darwin-arm".to_string(), "shebe-v0.3.1".to_string())]
    );
    assert_eq!(host.chmods, vec![path.clone()]);
    assert_eq!(p.phase(), Phase::Cached);
    assert_eq!(p.cached_path(), Some(path));
}

#[test]
fn end_to_end_linux_x86_64() {
    let mut p = Provisioner::new();
    let mut host = FakeHost::new(Ok(release_v0_3_1()));
    let path = drive(&mut p, &mut host, OsKind::Linux, ArchKind::X8664).unwrap();
    assert_eq!(path, "shebe-v0.3.1/shebe-mcp");
    assert_eq!(
        host.downloads,
        vec![("https://example.invalid/linux-x64".to_string(), "shebe-v0.3.1".to_string())]
    );
}

#[test]
fn second_call_uses_cache() {
    let mut p = Provisioner::new();
    let mut host = FakeHost::new(Ok(release_v0_3_1()));
    let first = drive(&mut p, &mut host, OsKind::Mac, ArchKind::Aarch64).unwrap();
    let second = drive(&mut p, &mut host, OsKind::Mac, ArchKind::Aarch64).unwrap();
    assert_eq!(first, second);
    assert_eq!(host.fetches, 1);
    assert_eq!(host.downloads.len(), 1);
    assert_eq!(host.chmods.len(), 1);
}

#[test]
fn truncated_archive_fails_then_full_retry() {
    let mut p = Provisioner::new();
    let mut host = FakeHost::new(Ok(release_v0_3_1()));
    host.unpack = Err("archive is truncated".to_string());
    let err = drive(&mut p, &mut host, OsKind::Mac, ArchKind::Aarch64).unwrap_err();
    match err {
        ProvisionError::FetchError { message } => assert_eq!(message, "archive is truncated"),
        other => panic!("expected a fetch error, got {:?}", other),
    }
    assert_eq!(p.phase(), Phase::Failed);
    assert!(p.cached_path().is_none());

    host.unpack = Ok(());
    let path = drive(&mut p, &mut host, OsKind::Mac, ArchKind::Aarch64).unwrap();
    assert_eq!(path, "shebe-v0.3.1/shebe-mcp");
    assert_eq!(host.fetches, 2);
    assert_eq!(host.downloads.len(), 2);
}

#[test]
fn unsupported_platform_before_any_fetch() {
    let mut p = Provisioner::new();
    let mut host = FakeHost::new(Ok(release_v0_3_1()));
    let err = drive(&mut p, &mut host, OsKind::Windows, ArchKind::X8664).unwrap_err();
    assert_eq!(host.fetches, 0);
    assert!(host.downloads.is_empty());
    match err {
        ProvisionError::UnsupportedPlatform { platform } => {
            assert_eq!(platform.reason, RejectReason::Os);
            assert_eq!(platform.os, OsKind::Windows);
        }
        other => panic!("expected an unsupported platform, got {:?}", other),
    }
}

#[test]
fn rejection_messages_name_the_platform() {
    let cases = [
        (OsKind::Windows, ArchKind::X8664, "shebe does not support Windows"),
        (OsKind::Linux, ArchKind::Aarch64, "shebe does not support Linux ARM"),
        (OsKind::Mac, ArchKind::X86, "shebe does not support 32-bit x86"),
    ];
    for (os, arch, expected) in cases {
        let mut p = Provisioner::new();
        let mut host = FakeHost::new(Ok(release_v0_3_1()));
        let err = drive(&mut p, &mut host, os, arch).unwrap_err();
        assert_eq!(err.message(), expected);
    }
}

#[test]
fn asset_not_found_carries_names() {
    let release = Release {
        version: "v0.3.1".to_string(),
        assets: vec![
            asset("shebe-v0.3.1-linux-x86_64-musl.tar.gz", "https://example.invalid/linux-x64"),
            asset("README.md", "https://example.invalid/readme"),
        ],
    };
    let mut p = Provisioner::new();
    let mut host = FakeHost::new(Ok(release));
    let err = drive(&mut p, &mut host, OsKind::Mac, ArchKind::Aarch64).unwrap_err();
    match err {
        ProvisionError::AssetNotFound { name, available } => {
            assert_eq!(name, "shebe-v0.3.1-darwin-aarch64.tar.gz");
            assert_eq!(
                available,
                vec!["shebe-v0.3.1-linux-x86_64-musl.tar.gz".to_string(), "README.md".to_string()]
            );
            let rebuilt = ProvisionError::AssetNotFound { name, available };
            assert_eq!(
                rebuilt.message(),
                "no release asset matching 'shebe-v0.3.1-darwin-aarch64.tar.gz'"
            );
        }
        other => panic!("expected a missing asset, got {:?}", other),
    }
    assert_eq!(p.phase(), Phase::Failed);
    assert!(p.cached_path().is_none());
}

#[test]
fn feed_error_surfaces_verbatim() {
    let mut p = Provisioner::new();
    let mut host = FakeHost::new(Err("HTTP 500 from the release feed".to_string()));
    let err = drive(&mut p, &mut host, OsKind::Mac, ArchKind::X8664).unwrap_err();
    match &err {
        ProvisionError::FeedError { message } => {
            assert_eq!(message, "HTTP 500 from the release feed")
        }
        other => panic!("expected a feed error, got {:?}", other),
    }
    assert_eq!(err.message(), "HTTP 500 from the release feed");
    assert!(p.cached_path().is_none());
}

#[test]
fn permission_failure_is_io_error_and_caches_nothing() {
    let mut p = Provisioner::new();
    let mut host = FakeHost::new(Ok(release_v0_3_1()));
    host.permissions = Err("permission denied".to_string());
    let err = drive(&mut p, &mut host, OsKind::Mac, ArchKind::Aarch64).unwrap_err();
    match err {
        ProvisionError::IoError { message } => assert_eq!(message, "permission denied"),
        other => panic!("expected an io error, got {:?}", other),
    }
    assert!(p.cached_path().is_none());

    host.permissions = Ok(());
    let path = drive(&mut p, &mut host, OsKind::Mac, ArchKind::Aarch64).unwrap();
    assert_eq!(path, "shebe-v0.3.1/shebe-mcp");
}

#[test]
fn version_scopes_the_extraction_directory() {
    let release = Release {
        version: "v0.4.0".to_string(),
        assets: vec![asset("shebe-v0.4.0-darwin-x86_64.tar.gz", "https://example.invalid/a")],
    };
    let mut p = Provisioner::new();
    let mut host = FakeHost::new(Ok(release));
    let path = drive(&mut p, &mut host, OsKind::Mac, ArchKind::X8664).unwrap();
    assert_eq!(path, "shebe-v0.4.0/shebe-mcp");
    assert_eq!(host.downloads[0].1, "shebe-v0.4.0");
}

#[test]
fn find_asset_present_and_absent() {
    let release = release_v0_3_1();
    let hit = release.find_asset(&"shebe-v0.3.1-linux-x86_64-musl.tar.gz".to_string());
    assert_eq!(hit, Some(1));
    let miss = release.find_asset(&"shebe-v0.3.1-windows-x86_64.tar.gz".to_string());
    assert_eq!(miss, None);
    assert_eq!(
        release.asset_names(),
        vec![
            "shebe-v0.3.1-darwin-aarch64.tar.gz".to_string(),
            "shebe-v0.3.1-linux-x86_64-musl.tar.gz".to_string(),
        ]
    );
}

#[test]
fn launch_command_runs_the_binary_alone() {
    let c = launch_command("work/shebe-v0.3.1/shebe-mcp".to_string());
    assert_eq!(c.program, "work/shebe-v0.3.1/shebe-mcp");
    assert!(c.args.is_empty());
    assert!(c.env.is_empty());
}
