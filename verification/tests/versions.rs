use crossbundle::cli::choices::{AndroidRuntime, AndroidStrategy, DoctorPlatform, IosTarget};
use crossbundle::cli::doctor::resolve_platforms;
use crossbundle::cli::install::os_tag;
use crossbundle::cli::update::{
    get_version_from_output, is_newer, is_newer_found, is_same, is_same_found, latest_version_in, trim,
    version_check, version_comparison, Version, VersionCheck, VERSION,
};
use crossbundle::cli::values::{parse_u32, split_text};

#[test]
fn versions_are_read_as_three_numbers() {
    assert_eq!(Version::from_semver("1.18.3"), Some(Version { major: 1, minor: 18, patch: 3 }));
    assert_eq!(Version::from_semver("1.18"), None);
    assert_eq!(Version::from_semver("1.x.3"), None);
    assert_eq!(Version::from_semver("1.2.+3"), None);
    assert_eq!(Version::from_semver("1.2.3.4"), None);
    assert_eq!(Version::from_semver("4294967296.0.0"), None);
}

#[test]
fn newer_versions_are_found() {
    assert!(is_newer("0.1.0", "0.1.1", false));
    assert!(is_newer("0.1.9", "0.2.0", false));
    assert!(is_newer("0.9.9", "1.0.0", false));
    assert!(!is_newer("1.0.0", "0.9.9", false));
    assert!(!is_newer("1.2.3", "1.2.3", false));
    assert!(is_newer("garbage", "1.2.3", true));
    assert!(!is_newer("garbage", "1.2.3", false));
    assert!(version_comparison(Version { major: 2, minor: 0, patch: 0 }, Version { major: 1, minor: 9, patch: 9 }));
    assert!(!version_comparison(Version { major: 1, minor: 9, patch: 9 }, Version { major: 2, minor: 0, patch: 0 }));
}

#[test]
fn same_versions_are_found() {
    assert!(is_same("1.2.3", "1.2.3", false));
    assert!(!is_same("1.2.3", "1.2.4", true));
    assert!(is_same("1.2", "1.2.3", true));
    assert!(is_same_found(VERSION));
    assert!(!is_newer_found(VERSION));
    assert!(is_newer_found("999.0.0"));
}

#[test]
fn version_comparison_is_an_order() {
    let versions = ["0.0.1", "0.1.0", "0.1.1", "1.0.0", "1.0.10", "2.3.4"];
    for a in versions {
        assert!(is_same(a, a, false) && !is_newer(a, a, true));
        for b in versions {
            assert!(!(is_newer(a, b, false) && is_newer(b, a, false)));
            assert!(is_same(a, b, false) || is_newer(a, b, false) || is_newer(b, a, false));
            for c in versions {
                if is_newer(a, b, false) && is_newer(b, c, false) {
                    assert!(is_newer(a, c, false));
                }
            }
        }
    }
}

#[test]
fn latest_version_is_read_from_cargo_search() {
    assert_eq!(
        get_version_from_output("crossbundle = \"0.2.3\"    # Build and publish apps"),
        Some("0.2.3".to_string())
    );
    assert_eq!(get_version_from_output("crossbundle ="), None);
    let output = "  other = \"1.0.0\"\n  crossbundle = \"0.2.3\"   # desc\t\n... and 3 crates more\n";
    assert_eq!(latest_version_in(output), Some("0.2.3".to_string()));
    assert_eq!(latest_version_in("nothing here"), None);
    assert_eq!(trim(" \t x y \u{3000}\n"), "x y");
    assert_eq!(trim("   "), "");
}

#[test]
fn version_check_outcomes() {
    assert_eq!(version_check(&Some("999.0.0".to_string())), VersionCheck::NewVersion);
    assert_eq!(version_check(&Some(VERSION.to_string())), VersionCheck::LatestUsed);
    assert_eq!(version_check(&Some("0.0.0".to_string())), VersionCheck::Unknown);
    assert_eq!(version_check(&None), VersionCheck::Unknown);
}

#[test]
fn enumerated_values_read_back_from_their_names() {
    for s in [AndroidStrategy::GradleApk, AndroidStrategy::NativeApk, AndroidStrategy::NativeAab] {
        assert_eq!(AndroidStrategy::from_text(s.as_str()), Some(s));
    }
    for t in [IosTarget::Aarch64Device, IosTarget::Aarch64Simulator, IosTarget::X86_64Simulator] {
        assert_eq!(IosTarget::from_text(t.rust_triple()), Some(t));
    }
    for p in [DoctorPlatform::Android, DoctorPlatform::Apple] {
        assert_eq!(DoctorPlatform::from_text(p.as_str()), Some(p));
    }
    assert_eq!(AndroidStrategy::from_text("gradle"), None);
    assert!(IosTarget::Aarch64Simulator.is_simulator());
    assert!(!IosTarget::Aarch64Device.is_simulator());
    assert_eq!(IosTarget::host_simulator(false), IosTarget::X86_64Simulator);
    assert_eq!(AndroidRuntime::Miniquad.as_str(), "miniquad");
}

#[test]
fn resolving_platforms_twice_changes_nothing() {
    let asked = [DoctorPlatform::Apple, DoctorPlatform::Apple];
    let once = resolve_platforms(&asked).unwrap();
    assert_eq!(once, vec![DoctorPlatform::Apple]);
    assert_eq!(resolve_platforms(&once).unwrap(), once);
    let all = resolve_platforms(&[]).unwrap();
    assert_eq!(all, vec![DoctorPlatform::Android, DoctorPlatform::Apple]);
    assert_eq!(resolve_platforms(&all).unwrap(), all);
}

#[test]
fn split_values_join_back() {
    for text in ["a,,b", "", ",", "apple,android", "x"] {
        let pieces = split_text(text, ',');
        assert_eq!(pieces.join(","), text);
    }
    assert_eq!(split_text("a,,b", ','), vec!["a".to_string(), String::new(), "b".to_string()]);
}

#[test]
fn numbers_are_read_like_u32_from_str() {
    assert_eq!(parse_u32("42"), Some(42));
    assert_eq!(parse_u32("+7"), Some(7));
    assert_eq!(parse_u32("4294967295"), Some(u32::MAX));
    assert_eq!(parse_u32("4294967296"), None);
    assert_eq!(parse_u32(""), None);
    assert_eq!(parse_u32("+"), None);
    assert_eq!(parse_u32("-1"), None);
    assert_eq!(parse_u32("1a"), None);
    for n in [0u32, 1, 99, 65536, u32::MAX] {
        assert_eq!(parse_u32(&n.to_string()), n.to_string().parse::<u32>().ok());
    }
}

#[test]
fn command_line_tools_archive_names_by_system() {
    assert_eq!(os_tag("windows", false), Some("win"));
    assert_eq!(os_tag("macos", true), Some("mac_arm64"));
    assert_eq!(os_tag("macos", false), Some("mac_x86_64"));
    assert_eq!(os_tag("linux", true), Some("linux"));
    assert_eq!(os_tag("freebsd", false), None);
}
