//! The single entry point a driver consults: one requested field per
//! invocation, resolved over the manifest and rendered as the one line of
//! output, or a typed error.

use vstd::prelude::*;

use crate::delimiter::Delimiter;
use crate::error::QueryError;
use crate::manifest::Edition;
use crate::manifest::ListKind;
use crate::manifest::Manifest;
use crate::manifest::ScalarKind;
use crate::manifest::edition_label;
use crate::manifest::get_package_edition;
use crate::manifest::get_package_list;
use crate::manifest::get_package_name;
use crate::manifest::get_package_scalar;
use crate::manifest::get_workspace_edition;
use crate::manifest::get_workspace_list;
use crate::manifest::get_workspace_members;
use crate::manifest::get_workspace_scalar;
use crate::manifest::spec_edition_label;
use crate::manifest::spec_resolve_edition;
use crate::manifest::spec_resolve_list;
use crate::manifest::spec_resolve_name;
use crate::manifest::spec_resolve_scalar;
use crate::manifest::spec_workspace_edition;
use crate::manifest::spec_workspace_list;
use crate::manifest::spec_workspace_members;
use crate::manifest::spec_workspace_scalar;
use crate::text::join_strings;
use crate::text::spec_join;
use crate::version::VersionMode;
use crate::version::semver_decomposition;
use crate::version::spec_render_mode;
use crate::version::version_output;

verus! {

/// The one field a single invocation asks for. Version queries carry the
/// requested rendering mode; the mutual exclusion of modes is the argument
/// parser's concern, so exactly one arrives here.
#[derive(Clone, Copy, PartialEq, Eq, Structural, Debug)]
pub enum Query {
    PackageName,
    PackageVersion(VersionMode),
    PackageAuthors,
    PackageKeywords,
    PackageCategories,
    PackageHomepage,
    PackageLicense,
    PackageDescription,
    PackageEdition,
    PackageLinks,
    WorkspaceMembers,
    WorkspacePackageVersion(VersionMode),
    WorkspacePackageAuthors,
    WorkspacePackageKeywords,
    WorkspacePackageCategories,
    WorkspacePackageHomepage,
    WorkspacePackageLicense,
    WorkspacePackageDescription,
    WorkspacePackageEdition,
}

/// How a query output relates to a resolved scalar field: the value itself,
/// or the resolution error unchanged.
pub open spec fn spec_scalar_output(
    v: Result<Seq<char>, QueryError>,
    r: Result<String, QueryError>,
) -> bool {
    match v {
        Ok(s) => r matches Ok(o) && o@ == s,
        Err(e) => r matches Err(x) && x == e,
    }
}

/// How a query output relates to a resolved list field: the items joined
/// with the delimiter, or the resolution error unchanged.
pub open spec fn spec_list_output(
    v: Result<Seq<Seq<char>>, QueryError>,
    sep: Seq<char>,
    r: Result<String, QueryError>,
) -> bool {
    match v {
        Ok(items) => r matches Ok(o) && o@ == spec_join(items, sep),
        Err(e) => r matches Err(x) && x == e,
    }
}

/// How a query output relates to a resolved edition: its textual label, or
/// the resolution error unchanged.
pub open spec fn spec_edition_output(
    v: Result<Edition, QueryError>,
    r: Result<String, QueryError>,
) -> bool {
    match v {
        Ok(e) => r matches Ok(o) && o@ == spec_edition_label(e),
        Err(e) => r matches Err(x) && x == e,
    }
}

/// How a version-query output relates to the resolved version string: the
/// requested rendering of its decomposition, `InvalidSemver` for a
/// malformed version, or the resolution error unchanged.
pub open spec fn spec_version_output(
    v: Result<Seq<char>, QueryError>,
    m: VersionMode,
    r: Result<String, QueryError>,
) -> bool {
    match v {
        Ok(vs) => match semver_decomposition(vs) {
            Some(f) => r matches Ok(o) && o@ == spec_render_mode(f, m),
            None => r matches Err(x) && x is InvalidSemver,
        },
        Err(e) => r matches Err(x) && x == e,
    }
}

fn list_line(v: Result<Vec<String>, QueryError>, d: &Delimiter) -> (r: Result<String, QueryError>)
    ensures
        match v {
            Ok(items) => r matches Ok(o) && o@ == spec_join(items.deep_view(), d.spec_value()),
            Err(e) => r matches Err(x) && x == e,
        },
{
    match v {
        Ok(items) => {
            let sep = d.value();
            Ok(join_strings(&items, sep.as_str()))
        },
        Err(e) => Err(e),
    }
}

fn edition_line(v: Result<Edition, QueryError>) -> (r: Result<String, QueryError>)
    ensures
        spec_edition_output(v, r),
{
    match v {
        Ok(e) => Ok(String::from_str(edition_label(e))),
        Err(e) => Err(e),
    }
}

fn version_line(v: Result<String, QueryError>, m: VersionMode) -> (r: Result<String, QueryError>)
    ensures
        match v {
            Ok(vs) => spec_version_output(Ok(vs@), m, r),
            Err(e) => r matches Err(x) && x == e,
        },
{
    match v {
        Ok(vs) => version_output(vs.as_str(), m),
        Err(e) => Err(e),
    }
}

/// Resolves the requested field over the manifest and renders the single
/// line of output. Multi-valued fields are joined with the delimiter;
/// version queries are decomposed and rendered in the requested mode;
/// every failure is the typed error of the resolution step that failed.
pub fn run_query(m: &Manifest, q: Query, d: &Delimiter) -> (r: Result<String, QueryError>)
    ensures
        q == Query::PackageName ==> spec_scalar_output(spec_resolve_name(*m), r),
        q matches Query::PackageVersion(mode) ==> spec_version_output(
            spec_resolve_scalar(*m, ScalarKind::Version),
            mode,
            r,
        ),
        q == Query::PackageAuthors ==> spec_list_output(
            spec_resolve_list(*m, ListKind::Authors),
            d.spec_value(),
            r,
        ),
        q == Query::PackageKeywords ==> spec_list_output(
            spec_resolve_list(*m, ListKind::Keywords),
            d.spec_value(),
            r,
        ),
        q == Query::PackageCategories ==> spec_list_output(
            spec_resolve_list(*m, ListKind::Categories),
            d.spec_value(),
            r,
        ),
        q == Query::PackageHomepage ==> spec_scalar_output(
            spec_resolve_scalar(*m, ScalarKind::Homepage),
            r,
        ),
        q == Query::PackageLicense ==> spec_scalar_output(
            spec_resolve_scalar(*m, ScalarKind::License),
            r,
        ),
        q == Query::PackageDescription ==> spec_scalar_output(
            spec_resolve_scalar(*m, ScalarKind::Description),
            r,
        ),
        q == Query::PackageEdition ==> spec_edition_output(spec_resolve_edition(*m), r),
        q == Query::PackageLinks ==> spec_scalar_output(
            spec_resolve_scalar(*m, ScalarKind::Links),
            r,
        ),
        q == Query::WorkspaceMembers ==> spec_list_output(
            spec_workspace_members(*m),
            d.spec_value(),
            r,
        ),
        q matches Query::WorkspacePackageVersion(mode) ==> spec_version_output(
            spec_workspace_scalar(*m, ScalarKind::Version),
            mode,
            r,
        ),
        q == Query::WorkspacePackageAuthors ==> spec_list_output(
            spec_workspace_list(*m, ListKind::Authors),
            d.spec_value(),
            r,
        ),
        q == Query::WorkspacePackageKeywords ==> spec_list_output(
            spec_workspace_list(*m, ListKind::Keywords),
            d.spec_value(),
            r,
        ),
        q == Query::WorkspacePackageCategories ==> spec_list_output(
            spec_workspace_list(*m, ListKind::Categories),
            d.spec_value(),
            r,
        ),
        q == Query::WorkspacePackageHomepage ==> spec_scalar_output(
            spec_workspace_scalar(*m, ScalarKind::Homepage),
            r,
        ),
        q == Query::WorkspacePackageLicense ==> spec_scalar_output(
            spec_workspace_scalar(*m, ScalarKind::License),
            r,
        ),
        q == Query::WorkspacePackageDescription ==> spec_scalar_output(
            spec_workspace_scalar(*m, ScalarKind::Description),
            r,
        ),
        q == Query::WorkspacePackageEdition ==> spec_edition_output(spec_workspace_edition(*m), r),
{
    match q {
        Query::PackageName => get_package_name(m),
        Query::PackageVersion(mode) => version_line(
            get_package_scalar(m, ScalarKind::Version),
            mode,
        ),
        Query::PackageAuthors => list_line(get_package_list(m, ListKind::Authors), d),
        Query::PackageKeywords => list_line(get_package_list(m, ListKind::Keywords), d),
        Query::PackageCategories => list_line(get_package_list(m, ListKind::Categories), d),
        Query::PackageHomepage => get_package_scalar(m, ScalarKind::Homepage),
        Query::PackageLicense => get_package_scalar(m, ScalarKind::License),
        Query::PackageDescription => get_package_scalar(m, ScalarKind::Description),
        Query::PackageEdition => edition_line(get_package_edition(m)),
        Query::PackageLinks => get_package_scalar(m, ScalarKind::Links),
        Query::WorkspaceMembers => list_line(get_workspace_members(m), d),
        Query::WorkspacePackageVersion(mode) => version_line(
            get_workspace_scalar(m, ScalarKind::Version),
            mode,
        ),
        Query::WorkspacePackageAuthors => list_line(get_workspace_list(m, ListKind::Authors), d),
        Query::WorkspacePackageKeywords => list_line(get_workspace_list(m, ListKind::Keywords), d),
        Query::WorkspacePackageCategories => list_line(
            get_workspace_list(m, ListKind::Categories),
            d,
        ),
        Query::WorkspacePackageHomepage => get_workspace_scalar(m, ScalarKind::Homepage),
        Query::WorkspacePackageLicense => get_workspace_scalar(m, ScalarKind::License),
        Query::WorkspacePackageDescription => get_workspace_scalar(m, ScalarKind::Description),
        Query::WorkspacePackageEdition => edition_line(get_workspace_edition(m)),
    }
}

} // verus!

