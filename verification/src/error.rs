//! Error taxonomy of the query engine: missing manifest sections, failed
//! field inheritance, and malformed semantic versions.

use vstd::prelude::*;

verus! {

/// An inheritable package field. `name` is not listed: it can never be
/// inherited from a workspace.
#[derive(Clone, Copy, PartialEq, Eq, Structural, Debug)]
pub enum Field {
    Version,
    Authors,
    Keywords,
    Categories,
    Homepage,
    License,
    Description,
    Edition,
    Links,
}

/// A logical manifest section whose absence can make a query fail.
#[derive(Clone, Copy, PartialEq, Eq, Structural, Debug)]
pub enum Section {
    Package,
    Workspace,
    WorkspacePackage,
    WorkspacePackageField(Field),
}

/// Why a query over a manifest failed.
#[derive(Clone, Debug)]
pub enum QueryError {
    /// A required section (or workspace template field) is absent.
    NotFound(Section),
    /// The package declared the field as inherited, but the workspace
    /// template does not provide it.
    Inheritance(Field),
    /// A version value does not parse as a semantic version; carries the
    /// parser's diagnostic text.
    InvalidSemver(String),
}

impl Field {
    /// The dotted-path component under which the field appears in a manifest.
    pub open spec fn spec_name(self) -> Seq<char> {
        match self {
            Field::Version => "version"@,
            Field::Authors => "authors"@,
            Field::Keywords => "keywords"@,
            Field::Categories => "categories"@,
            Field::Homepage => "homepage"@,
            Field::License => "license"@,
            Field::Description => "description"@,
            Field::Edition => "edition"@,
            Field::Links => "links"@,
        }
    }

    pub fn name(&self) -> (r: &'static str)
        ensures
            r@ == self.spec_name(),
    {
        match self {
            Field::Version => "version",
            Field::Authors => "authors",
            Field::Keywords => "keywords",
            Field::Categories => "categories",
            Field::Homepage => "homepage",
            Field::License => "license",
            Field::Description => "description",
            Field::Edition => "edition",
            Field::Links => "links",
        }
    }
}

impl Section {
    /// The dotted path of the section as written in a manifest.
    pub open spec fn spec_path(self) -> Seq<char> {
        match self {
            Section::Package => "package"@,
            Section::Workspace => "workspace"@,
            Section::WorkspacePackage => "workspace.package"@,
            Section::WorkspacePackageField(f) => "workspace.package."@ + f.spec_name(),
        }
    }

    pub fn path(&self) -> (r: String)
        ensures
            r@ == self.spec_path(),
    {
        match self {
            Section::Package => String::from_str("package"),
            Section::Workspace => String::from_str("workspace"),
            Section::WorkspacePackage => String::from_str("workspace.package"),
            Section::WorkspacePackageField(f) => {
                let mut s = String::from_str("workspace.package.");
                s.append(f.name());
                s
            },
        }
    }
}

impl QueryError {
    /// The single human-readable line reported for this error.
    pub open spec fn spec_message(self) -> Seq<char> {
        match self {
            QueryError::NotFound(s) => "not found: "@ + s.spec_path(),
            QueryError::Inheritance(f) => "could not inherit package."@ + f.spec_name(),
            QueryError::InvalidSemver(d) => "invalid semver: "@ + d@,
        }
    }

    pub fn message(&self) -> (r: String)
        ensures
            r@ == self.spec_message(),
    {
        match self {
            QueryError::NotFound(s) => {
                let mut m = String::from_str("not found: ");
                let p = s.path();
                m.append(p.as_str());
                m
            },
            QueryError::Inheritance(f) => {
                let mut m = String::from_str("could not inherit package.");
                m.append(f.name());
                m
            },
            QueryError::InvalidSemver(d) => {
                let mut m = String::from_str("invalid semver: ");
                m.append(d.as_str());
                m
            },
        }
    }
}

} // verus!
