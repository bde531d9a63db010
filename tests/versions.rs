use pacmine::server::{parse_version, split_on_dots, McChannel, McType, McVersion, NotImplemented};
use pacmine::version::{
    install_downloaded, install_je, InstallError, InstallPlan, LatestVersions, ManifestVersion, ServerType, VersionError,
    VersionInfo, VersionManifest, VersionType, PAPER_PROJECT_API,
};
use std::cmp::Ordering;

fn entry(id: &str, kind: &str) -> ManifestVersion {
    ManifestVersion {
        id: id.to_string(),
        version_type_str: kind.to_string(),
        url: format!("https://example.invalid/{id}.json"),
    }
}

fn manifest() -> VersionManifest {
    VersionManifest {
        latest: LatestVersions {
            release: "1.21.1".to_string(),
            snapshot: "24w33a".to_string(),
        },
        versions: vec![
            entry("24w33a", "snapshot"),
            entry("1.21.1", "release"),
            entry("b1.7.3", "old_beta"),
            entry("b1.6", "old_beta"),
            entry("a1.2.6", "old_alpha"),
        ],
    }
}

#[test]
fn vanilla_release_is_release() {
    let info = VersionInfo::get_version_info("1.21.1", ServerType::Vanilla, true).unwrap();
    assert_eq!(info.name, "1.21.1");
    assert_eq!(info.version_type, VersionType::Release);
    assert_eq!(info.server_type, ServerType::Vanilla);
}

#[test]
fn java_release_without_manifest_is_unknown() {
    let info = VersionInfo::get_version_info("1.21.1", ServerType::Vanilla, false).unwrap();
    assert_eq!(info.version_type, VersionType::Unknown);
}

#[test]
fn paper_bad_format_is_refused() {
    assert_eq!(
        VersionInfo::get_version_info("bad-v1", ServerType::Paper, true).err(),
        Some(VersionError::InvalidJavaFormat)
    );
}

#[test]
fn bds_version_is_release() {
    let info = VersionInfo::get_version_info("1.20.70.21", ServerType::BDS, false).unwrap();
    assert_eq!(info.version_type, VersionType::Release);
    assert_eq!(info.server_type, ServerType::BDS);
}

#[test]
fn bds_short_version_is_refused() {
    assert_eq!(
        VersionInfo::get_version_info("1.20", ServerType::BDS, true).err(),
        Some(VersionError::InvalidBdsFormat)
    );
}

#[test]
fn other_server_keeps_name_and_guesses() {
    let info = VersionInfo::get_version_info("Some-Mod-v2.0", ServerType::Other, false).unwrap();
    assert_eq!(info.name, "Some-Mod-v2.0");
    assert_eq!(info.version_type, VersionType::Unknown);
    assert_eq!(info.server_type, ServerType::Other);
}

#[test]
fn paper_snapshot_is_snapshot() {
    let info = VersionInfo::get_version_info("24w08a", ServerType::Paper, true).unwrap();
    assert_eq!(info.version_type, VersionType::Snapshot);
}

#[test]
fn java_formats() {
    assert_eq!(VersionInfo::validate_java_format("1.21"), Ok(VersionType::Release));
    assert_eq!(VersionInfo::validate_java_format("b1.7.3"), Ok(VersionType::OldBeta));
    assert_eq!(VersionInfo::validate_java_format("a1.2.6"), Ok(VersionType::OldBeta));
    assert_eq!(VersionInfo::validate_java_format("Alpha"), Ok(VersionType::OldAlpha));
    assert_eq!(
        VersionInfo::validate_java_format("1.21.1.5"),
        Err(VersionError::InvalidJavaFormat)
    );
    assert_eq!(
        VersionInfo::validate_java_format(""),
        Err(VersionError::InvalidJavaFormat)
    );
}

#[test]
fn guessing_falls_back_to_bedrock() {
    assert_eq!(VersionInfo::guess_version_type("1.20.70.21"), VersionType::Release);
    assert_eq!(VersionInfo::guess_version_type("24w08a"), VersionType::Snapshot);
    assert_eq!(VersionInfo::guess_version_type("x"), VersionType::Unknown);
}

#[test]
fn latest_versions_from_manifest() {
    let m = manifest();
    assert_eq!(
        VersionInfo::get_latest_version(VersionType::Release, &m).unwrap(),
        "1.21.1"
    );
    assert_eq!(
        VersionInfo::get_latest_version(VersionType::Snapshot, &m).unwrap(),
        "24w33a"
    );
    assert_eq!(
        VersionInfo::get_latest_version(VersionType::OldBeta, &m).unwrap(),
        "b1.7.3"
    );
    assert_eq!(
        VersionInfo::get_latest_version(VersionType::OldAlpha, &m).unwrap(),
        "a1.2.6"
    );
    assert_eq!(
        VersionInfo::get_latest_version(VersionType::Unknown, &m).err(),
        Some(VersionError::UnknownType)
    );
}

#[test]
fn no_version_of_kind() {
    let mut m = manifest();
    m.versions.truncate(2);
    assert_eq!(
        VersionInfo::get_latest_version(VersionType::OldAlpha, &m).err(),
        Some(VersionError::NoVersionOfType)
    );
}

#[test]
fn search_finds_first_entry() {
    let m = manifest();
    let v = m.search("b1.6".to_string()).unwrap();
    assert_eq!(v.id, "b1.6");
    assert_eq!(v.version_type_str, "old_beta");
    assert_eq!(v.url, "https://example.invalid/b1.6.json");
    assert_eq!(
        m.search("1.0".to_string()).err().unwrap(),
        VersionError::VersionNotFound
    );
}

#[test]
fn install_plans() {
    let plan = install_je(VersionInfo::new(
        "1.21.1".to_string(),
        VersionType::Release,
        ServerType::Paper,
    ));
    match plan {
        InstallPlan::PaperLike { project_api, version } => {
            assert_eq!(project_api, PAPER_PROJECT_API);
            assert_eq!(version, "1.21.1");
        }
        _ => panic!("expected a Paper-style plan"),
    }
    assert!(matches!(
        install_je(VersionInfo::new("1.21.1".to_string(), VersionType::Release, ServerType::Vanilla)),
        InstallPlan::Vanilla { .. }
    ));
    assert!(matches!(
        install_je(VersionInfo::new("x".to_string(), VersionType::Unknown, ServerType::Other)),
        InstallPlan::Nothing
    ));
}

fn java_release(a: u8, b: u8, c: u8) -> McVersion {
    McVersion {
        server_type: McType::Java("Vanilla".to_string()),
        channel: McChannel::Release(a, b, c),
    }
}

#[test]
fn releases_compare_by_number() {
    assert_eq!(
        java_release(1, 20, 4).partial_cmp(&java_release(1, 21, 0)),
        Some(Ordering::Less)
    );
    assert_eq!(
        java_release(1, 21, 1).partial_cmp(&java_release(1, 21, 0)),
        Some(Ordering::Greater)
    );
    assert_eq!(
        java_release(1, 21, 1).partial_cmp(&java_release(1, 21, 1)),
        Some(Ordering::Equal)
    );
    assert!(java_release(1, 8, 9) < java_release(1, 12, 0));
}

#[test]
fn editions_and_snapshots_do_not_compare() {
    let bedrock = McVersion {
        server_type: McType::Bedrock("BDS".to_string()),
        channel: McChannel::Release(1, 21, 1),
    };
    assert_eq!(java_release(1, 21, 1).partial_cmp(&bedrock), None);
    let snap = McVersion {
        server_type: McType::Java("Vanilla".to_string()),
        channel: McChannel::Snapshot("24w08a".to_string()),
    };
    assert_eq!(java_release(1, 21, 1).partial_cmp(&snap), None);
    assert_eq!(snap.partial_cmp(&snap), Some(Ordering::Equal));
    assert!(snap == snap);
}

#[test]
fn not_implemented_messages() {
    assert_eq!(NotImplemented::Update.message(), "Update manager not implemented");
    assert_eq!(NotImplemented::Plugin.message(), "Plugin manager not implemented");
}

#[test]
fn split_keeps_empty_pieces() {
    assert_eq!(split_on_dots("1..2"), vec!["1", "", "2"]);
    assert_eq!(split_on_dots(""), vec![""]);
    assert_eq!(split_on_dots("1.21.1"), vec!["1", "21", "1"]);
}

#[test]
fn channel_from_text() {
    assert!(matches!(McChannel::from_text("1.20.4"), McChannel::Release(1, 20, 4)));
    assert!(matches!(McChannel::from_text("+1.2.3"), McChannel::Release(1, 2, 3)));
    assert!(matches!(McChannel::from_text("1.20"), McChannel::Snapshot(s) if s == "1.20"));
    assert!(matches!(McChannel::from_text("1.256.0"), McChannel::Snapshot(s) if s == "1.256.0"));
    assert!(matches!(McChannel::from_text("24w08a"), McChannel::Snapshot(s) if s == "24w08a"));
    assert!(matches!(McChannel::from_text("Unknown"), McChannel::Unknown));
    assert!(matches!(McChannel::from_text(" Unknown "), McChannel::Unknown));
}

#[test]
fn jar_versions() {
    let v = parse_version("1.21.1", "server");
    assert!(matches!(v.server_type, McType::Java(ref s) if s == "vanilla"));
    assert!(matches!(v.channel, McChannel::Release(1, 21, 1)));
    let v = parse_version(" 24w08a\n", "paper");
    assert!(matches!(v.server_type, McType::Java(ref s) if s == "paper"));
    assert!(matches!(v.channel, McChannel::Snapshot(ref s) if s == "24w08a"));
}

fn downloaded() -> pacmine::config::FileDownloadResult {
    pacmine::config::FileDownloadResult {
        url: "https://example.invalid/server.jar".to_string(),
        path: ".pacmine/cache/download/server.jar".to_string(),
        sha256: "bb".to_string(),
        sha1: "aa".to_string(),
    }
}

fn vanilla_plan() -> InstallPlan {
    install_je(VersionInfo::new(
        "1.21.1".to_string(),
        VersionType::Release,
        ServerType::Vanilla,
    ))
}

#[test]
fn vanilla_install_checks_sha1() {
    let d = downloaded();
    let err = install_downloaded(&vanilla_plan(), Some(&d), &"bb".to_string(), true).err();
    assert_eq!(err, Some(InstallError::Sha1Mismatch));
    assert_eq!(err.unwrap().message(), "SHA1 verification failed");
    let moves = install_downloaded(&vanilla_plan(), Some(&d), &"aa".to_string(), true).unwrap();
    assert_eq!(moves.len(), 2);
    assert_eq!((moves[0].from.as_str(), moves[0].to.as_str()), ("server.jar", "server.jar.bak"));
    assert_eq!(
        (moves[1].from.as_str(), moves[1].to.as_str()),
        (".pacmine/cache/download/server.jar", "server.jar")
    );
}

#[test]
fn paper_install_checks_sha256() {
    let d = downloaded();
    let plan = install_je(VersionInfo::new(
        "1.21.1".to_string(),
        VersionType::Release,
        ServerType::Folia,
    ));
    assert_eq!(
        install_downloaded(&plan, Some(&d), &"aa".to_string(), false).err(),
        Some(InstallError::Sha256Mismatch)
    );
    let moves = install_downloaded(&plan, Some(&d), &"bb".to_string(), false).unwrap();
    assert_eq!(moves.len(), 1);
    assert_eq!(moves[0].to, "server.jar");
}

#[test]
fn install_without_download_fails() {
    assert_eq!(
        install_downloaded(&vanilla_plan(), None, &"aa".to_string(), false).err(),
        Some(InstallError::NoFileDownloaded)
    );
    let nothing = install_je(VersionInfo::new("x".to_string(), VersionType::Unknown, ServerType::Other));
    assert!(install_downloaded(&nothing, None, &"aa".to_string(), false).unwrap().is_empty());
}

#[test]
fn channel_to_text() {
    assert_eq!(McChannel::Release(1, 20, 4).to_text(), "1.20.4");
    assert_eq!(McChannel::Release(0, 255, 100).to_text(), "0.255.100");
    assert_eq!(McChannel::Snapshot("24w08a".to_string()).to_text(), "24w08a");
    assert_eq!(McChannel::Unknown.to_text(), "Unknown");
    assert!(matches!(
        McChannel::from_text(&McChannel::Release(9, 0, 77).to_text()),
        McChannel::Release(9, 0, 77)
    ));
}

#[test]
fn trim_and_numbers() {
    assert!(matches!(McChannel::from_text("\u{3000}Unknown\t"), McChannel::Unknown));
    assert!(matches!(McChannel::from_text("1.2.-3"), McChannel::Snapshot(_)));
    assert!(matches!(McChannel::from_text("1.2.+"), McChannel::Snapshot(_)));
    assert!(matches!(McChannel::from_text("001.2.255"), McChannel::Release(1, 2, 255)));
}
