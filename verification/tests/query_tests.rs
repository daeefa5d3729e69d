use cargo_get::delimiter::Delimiter;
use cargo_get::error::Field;
use cargo_get::error::QueryError;
use cargo_get::error::Section;
use cargo_get::manifest::Edition;
use cargo_get::manifest::EditionField;
use cargo_get::manifest::ListField;
use cargo_get::manifest::Manifest;
use cargo_get::manifest::Package;
use cargo_get::manifest::StrField;
use cargo_get::manifest::Workspace;
use cargo_get::manifest::WorkspacePackage;
use cargo_get::query::run_query;
use cargo_get::query::Query;
use cargo_get::version::VersionMode;

fn package(name: &str) -> Package {
    Package {
        name: name.to_string(),
        version: None,
        authors: None,
        keywords: None,
        categories: None,
        homepage: None,
        license: None,
        description: None,
        edition: None,
        links: None,
    }
}

fn template() -> WorkspacePackage {
    WorkspacePackage {
        version: None,
        authors: None,
        keywords: None,
        categories: None,
        homepage: None,
        license: None,
        description: None,
        edition: None,
    }
}

fn newline() -> Delimiter {
    Delimiter::Lf
}

#[test]
fn name_and_version_modes_of_a_concrete_manifest() {
    let mut p = package("demo");
    p.version = Some(StrField::Value("1.2.3-beta+001".to_string()));
    let m = Manifest { package: Some(p), workspace: None };
    let d = newline();

    assert_eq!(run_query(&m, Query::PackageName, &d).unwrap(), "demo");
    assert_eq!(run_query(&m, Query::PackageVersion(VersionMode::Plain), &d).unwrap(), "1.2.3");
    assert_eq!(
        run_query(&m, Query::PackageVersion(VersionMode::Full), &d).unwrap(),
        "1.2.3-beta+001"
    );
    assert_eq!(run_query(&m, Query::PackageVersion(VersionMode::Pretty), &d).unwrap(), "v1.2.3");
    assert_eq!(run_query(&m, Query::PackageVersion(VersionMode::Pre), &d).unwrap(), "beta");
    assert_eq!(run_query(&m, Query::PackageVersion(VersionMode::Build), &d).unwrap(), "001");
}

#[test]
fn direct_value_wins_independent_of_workspace() {
    let mut p = package("demo");
    p.homepage = Some(StrField::Value("https://example.org".to_string()));
    let mut t = template();
    t.homepage = Some("https://other.example".to_string());
    let with_ws = Manifest {
        package: Some(p.clone()),
        workspace: Some(Workspace { members: vec![], package: Some(t) }),
    };
    let without_ws = Manifest { package: Some(p), workspace: None };
    let d = newline();

    assert_eq!(run_query(&with_ws, Query::PackageHomepage, &d).unwrap(), "https://example.org");
    assert_eq!(run_query(&without_ws, Query::PackageHomepage, &d).unwrap(), "https://example.org");
}

#[test]
fn inherited_version_comes_from_workspace_template() {
    let mut p = package("demo");
    p.version = Some(StrField::Inherit);
    let mut t = template();
    t.version = Some("0.9.0".to_string());
    let m = Manifest {
        package: Some(p),
        workspace: Some(Workspace { members: vec![], package: Some(t) }),
    };
    assert_eq!(
        run_query(&m, Query::PackageVersion(VersionMode::Plain), &newline()).unwrap(),
        "0.9.0"
    );
}

#[test]
fn inherited_version_without_template_names_the_field() {
    let mut p = package("demo");
    p.version = Some(StrField::Inherit);
    let m = Manifest { package: Some(p), workspace: None };
    match run_query(&m, Query::PackageVersion(VersionMode::Plain), &newline()) {
        Err(QueryError::Inheritance(Field::Version)) => {}
        other => panic!("expected inheritance error, got {:?}", other),
    }
    let mut p2 = package("demo");
    p2.version = Some(StrField::Inherit);
    let m2 = Manifest {
        package: Some(p2),
        workspace: Some(Workspace { members: vec![], package: None }),
    };
    let err = run_query(&m2, Query::PackageVersion(VersionMode::Plain), &newline()).unwrap_err();
    assert_eq!(err.message(), "could not inherit package.version");
}

#[test]
fn inherited_scalar_with_and_without_template_value() {
    let mut p = package("demo");
    p.license = Some(StrField::Inherit);
    p.description = Some(StrField::Inherit);
    let mut t = template();
    t.license = Some("MIT".to_string());
    let m = Manifest {
        package: Some(p),
        workspace: Some(Workspace { members: vec![], package: Some(t) }),
    };
    let d = newline();
    assert_eq!(run_query(&m, Query::PackageLicense, &d).unwrap(), "MIT");
    assert!(matches!(
        run_query(&m, Query::PackageDescription, &d),
        Err(QueryError::Inheritance(Field::Description))
    ));
}

#[test]
fn absent_optional_scalars_resolve_to_neutral_defaults() {
    let m = Manifest { package: Some(package("demo")), workspace: None };
    let d = newline();
    assert_eq!(run_query(&m, Query::PackageHomepage, &d).unwrap(), "");
    assert_eq!(run_query(&m, Query::PackageLicense, &d).unwrap(), "");
    assert_eq!(run_query(&m, Query::PackageDescription, &d).unwrap(), "");
    assert_eq!(run_query(&m, Query::PackageLinks, &d).unwrap(), "");
    assert_eq!(run_query(&m, Query::PackageVersion(VersionMode::Plain), &d).unwrap(), "0.0.0");
}

#[test]
fn list_fields_join_with_the_delimiter() {
    let mut p = package("demo");
    p.authors = Some(ListField::Values(vec!["A".to_string(), "B".to_string()]));
    p.keywords = Some(ListField::Inherit);
    let mut t = template();
    t.keywords = Some(vec!["cli".to_string(), "query".to_string()]);
    let m = Manifest {
        package: Some(p),
        workspace: Some(Workspace { members: vec![], package: Some(t) }),
    };
    let comma = Delimiter::from_token(",");
    assert_eq!(run_query(&m, Query::PackageAuthors, &comma).unwrap(), "A,B");
    assert_eq!(run_query(&m, Query::PackageKeywords, &newline()).unwrap(), "cli\nquery");
    assert_eq!(run_query(&m, Query::PackageCategories, &comma).unwrap(), "");
    assert!(matches!(
        run_query(
            &Manifest { package: Some({
                let mut q = package("demo");
                q.categories = Some(ListField::Inherit);
                q
            }), workspace: None },
            Query::PackageCategories,
            &comma
        ),
        Err(QueryError::Inheritance(Field::Categories))
    ));
}

#[test]
fn missing_package_section_is_reported() {
    let m = Manifest { package: None, workspace: None };
    let err = run_query(&m, Query::PackageName, &newline()).unwrap_err();
    assert!(matches!(err, QueryError::NotFound(Section::Package)));
    assert_eq!(err.message(), "not found: package");
}

#[test]
fn edition_resolution_is_total_over_the_three_tags() {
    let d = newline();
    for (e, label) in [
        (Edition::E2015, "2015"),
        (Edition::E2018, "2018"),
        (Edition::E2021, "2021"),
    ] {
        let mut p = package("demo");
        p.edition = Some(EditionField::Value(e));
        let m = Manifest { package: Some(p), workspace: None };
        assert_eq!(run_query(&m, Query::PackageEdition, &d).unwrap(), label);
    }
    // Absent edition falls back to the oldest tag.
    let m = Manifest { package: Some(package("demo")), workspace: None };
    assert_eq!(run_query(&m, Query::PackageEdition, &d).unwrap(), "2015");
    // Inherited edition comes from the template.
    let mut p = package("demo");
    p.edition = Some(EditionField::Inherit);
    let mut t = template();
    t.edition = Some(Edition::E2021);
    let m = Manifest {
        package: Some(p),
        workspace: Some(Workspace { members: vec![], package: Some(t) }),
    };
    assert_eq!(run_query(&m, Query::PackageEdition, &d).unwrap(), "2021");
}

#[test]
fn workspace_members_and_template_queries() {
    let mut t = template();
    t.version = Some("3.4.5".to_string());
    t.authors = Some(vec!["X".to_string(), "Y".to_string()]);
    let m = Manifest {
        package: None,
        workspace: Some(Workspace {
            members: vec!["crates/a".to_string(), "crates/b".to_string()],
            package: Some(t),
        }),
    };
    let d = newline();
    assert_eq!(run_query(&m, Query::WorkspaceMembers, &d).unwrap(), "crates/a\ncrates/b");
    assert_eq!(
        run_query(&m, Query::WorkspacePackageVersion(VersionMode::Pretty), &d).unwrap(),
        "v3.4.5"
    );
    assert_eq!(run_query(&m, Query::WorkspacePackageAuthors, &d).unwrap(), "X\nY");
    // A template field that is absent is a not-found error naming its path.
    let err = run_query(&m, Query::WorkspacePackageLicense, &d).unwrap_err();
    assert!(matches!(
        err,
        QueryError::NotFound(Section::WorkspacePackageField(Field::License))
    ));
    assert_eq!(err.message(), "not found: workspace.package.license");
}

#[test]
fn missing_workspace_sections_are_reported_in_order() {
    let d = newline();
    let no_ws = Manifest { package: Some(package("demo")), workspace: None };
    assert!(matches!(
        run_query(&no_ws, Query::WorkspacePackageVersion(VersionMode::Plain), &d),
        Err(QueryError::NotFound(Section::Workspace))
    ));
    let no_tpl = Manifest {
        package: None,
        workspace: Some(Workspace { members: vec![], package: None }),
    };
    let err = run_query(&no_tpl, Query::WorkspacePackageVersion(VersionMode::Plain), &d)
        .unwrap_err();
    assert!(matches!(err, QueryError::NotFound(Section::WorkspacePackage)));
    assert_eq!(err.message(), "not found: workspace.package");
}

#[test]
fn malformed_stored_version_is_invalid_semver() {
    let mut p = package("demo");
    p.version = Some(StrField::Value("not-a-version".to_string()));
    let m = Manifest { package: Some(p), workspace: None };
    assert!(matches!(
        run_query(&m, Query::PackageVersion(VersionMode::Full), &newline()),
        Err(QueryError::InvalidSemver(_))
    ));
}

#[test]
fn links_is_never_inherited_from_the_template() {
    let mut p = package("demo");
    p.links = Some(StrField::Inherit);
    let m = Manifest {
        package: Some(p),
        workspace: Some(Workspace { members: vec![], package: Some(template()) }),
    };
    assert!(matches!(
        run_query(&m, Query::PackageLinks, &newline()),
        Err(QueryError::Inheritance(Field::Links))
    ));
    let mut p2 = package("demo");
    p2.links = Some(StrField::Value("libfoo".to_string()));
    let m2 = Manifest { package: Some(p2), workspace: None };
    assert_eq!(run_query(&m2, Query::PackageLinks, &newline()).unwrap(), "libfoo");
}
