use cargo_get::error::QueryError;
use cargo_get::text::u64_string;
use cargo_get::version::decompose;
use cargo_get::version::render_version;
use cargo_get::version::version_output;
use cargo_get::version::VersionMode;

#[test]
fn decompose_full_version() {
    let p = decompose("1.2.3-beta+001").unwrap();
    assert_eq!(p.major, 1);
    assert_eq!(p.minor, 2);
    assert_eq!(p.patch, 3);
    assert_eq!(p.pre, "beta");
    assert_eq!(p.build, "001");
}

#[test]
fn decompose_plain_version() {
    let p = decompose("10.20.30").unwrap();
    assert_eq!(p.major, 10);
    assert_eq!(p.minor, 20);
    assert_eq!(p.patch, 30);
    assert_eq!(p.pre, "");
    assert_eq!(p.build, "");
}

#[test]
fn full_mode_round_trips_exact_input() {
    for s in ["1.2.3-beta+001", "0.1.0", "2.0.0-rc.1", "1.0.0+20130313144700"] {
        let p = decompose(s).unwrap();
        assert_eq!(render_version(&p, VersionMode::Full), s);
    }
}

#[test]
fn pretty_mode_ignores_metadata() {
    for s in ["1.2.3-beta+001", "1.2.3", "1.2.3+b", "1.2.3-alpha"] {
        let p = decompose(s).unwrap();
        assert_eq!(render_version(&p, VersionMode::Pretty), "v1.2.3");
    }
}

#[test]
fn plain_mode_strips_metadata_and_prefix() {
    let p = decompose("1.2.3-beta+001").unwrap();
    assert_eq!(render_version(&p, VersionMode::Plain), "1.2.3");
}

#[test]
fn component_modes() {
    let p = decompose("1.2.3-beta+001").unwrap();
    assert_eq!(render_version(&p, VersionMode::Major), "1");
    assert_eq!(render_version(&p, VersionMode::Minor), "2");
    assert_eq!(render_version(&p, VersionMode::Patch), "3");
    assert_eq!(render_version(&p, VersionMode::Pre), "beta");
    assert_eq!(render_version(&p, VersionMode::Build), "001");
}

#[test]
fn absent_metadata_renders_empty_not_error() {
    let p = decompose("1.2.3").unwrap();
    assert_eq!(render_version(&p, VersionMode::Pre), "");
    assert_eq!(render_version(&p, VersionMode::Build), "");
}

#[test]
fn malformed_versions_fail_with_invalid_semver() {
    for s in ["1.2", "abc", "", "1.0.01", "1.2.3-", "1.2.3 "] {
        match decompose(s) {
            Err(QueryError::InvalidSemver(diag)) => {
                assert!(!diag.is_empty());
            }
            other => panic!("expected InvalidSemver for {:?}, got {:?}", s, other),
        }
    }
}

#[test]
fn decomposition_agrees_with_semver_crate() {
    let s = "4.11.9-pre.2+build.7";
    let ours = decompose(s).unwrap();
    let theirs = semver::Version::parse(s).unwrap();
    assert_eq!(ours.major, theirs.major);
    assert_eq!(ours.minor, theirs.minor);
    assert_eq!(ours.patch, theirs.patch);
    assert_eq!(ours.pre, theirs.pre.as_str());
    assert_eq!(ours.build, theirs.build.as_str());
}

#[test]
fn version_output_renders_requested_mode() {
    assert_eq!(version_output("1.2.3-beta+001", VersionMode::Pretty).unwrap(), "v1.2.3");
    assert_eq!(version_output("1.2.3-beta+001", VersionMode::Major).unwrap(), "1");
    assert!(matches!(
        version_output("nonsense", VersionMode::Plain),
        Err(QueryError::InvalidSemver(_))
    ));
}

#[test]
fn decimal_rendering() {
    assert_eq!(u64_string(0), "0");
    assert_eq!(u64_string(7), "7");
    assert_eq!(u64_string(10), "10");
    assert_eq!(u64_string(907), "907");
    assert_eq!(u64_string(u64::MAX), "18446744073709551615");
}
