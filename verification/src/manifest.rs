//! The manifest data model and the field-inheritance engine: package fields
//! may hold a direct value, defer to the workspace template, or be absent,
//! and every query resolves through that chain.

use vstd::prelude::*;

use crate::error::Field;
use crate::error::QueryError;
use crate::error::Section;
use crate::text::clone_strings;

verus! {

/// The manifest editions this tool recognizes: a closed set of three tags.
#[derive(Clone, Copy, PartialEq, Eq, Structural, Debug)]
pub enum Edition {
    E2015,
    E2018,
    E2021,
}

/// A string-valued package field that is present in the document: either a
/// direct value or the marker deferring to the workspace template.
#[derive(Clone, Debug)]
pub enum StrField {
    Value(String),
    Inherit,
}

/// A list-valued package field that is present in the document.
#[derive(Clone, Debug)]
pub enum ListField {
    Values(Vec<String>),
    Inherit,
}

/// The edition field when present in the document.
#[derive(Clone, Copy, PartialEq, Eq, Structural, Debug)]
pub enum EditionField {
    Value(Edition),
    Inherit,
}

/// The `package` section. Every inheritable field is one of: present with a
/// direct value, present as the inherit marker, or wholly absent (`None`).
/// `name` is required and never inheritable.
#[derive(Clone, Debug)]
pub struct Package {
    pub name: String,
    pub version: Option<StrField>,
    pub authors: Option<ListField>,
    pub keywords: Option<ListField>,
    pub categories: Option<ListField>,
    pub homepage: Option<StrField>,
    pub license: Option<StrField>,
    pub description: Option<StrField>,
    pub edition: Option<EditionField>,
    pub links: Option<StrField>,
}

/// The `workspace.package` template: concrete default values only, never
/// another inheritance marker.
#[derive(Clone, Debug)]
pub struct WorkspacePackage {
    pub version: Option<String>,
    pub authors: Option<Vec<String>>,
    pub keywords: Option<Vec<String>>,
    pub categories: Option<Vec<String>>,
    pub homepage: Option<String>,
    pub license: Option<String>,
    pub description: Option<String>,
    pub edition: Option<Edition>,
}

/// The `workspace` section: member package paths and the optional template.
#[derive(Clone, Debug)]
pub struct Workspace {
    pub members: Vec<String>,
    pub package: Option<WorkspacePackage>,
}

/// A parsed manifest. A document with neither section is degenerate but
/// structurally valid; every resolution on it fails with a typed error.
#[derive(Clone, Debug)]
pub struct Manifest {
    pub package: Option<Package>,
    pub workspace: Option<Workspace>,
}

/// The string-valued inheritable fields.
#[derive(Clone, Copy, PartialEq, Eq, Structural, Debug)]
pub enum ScalarKind {
    Version,
    Homepage,
    License,
    Description,
    Links,
}

/// The list-valued inheritable fields.
#[derive(Clone, Copy, PartialEq, Eq, Structural, Debug)]
pub enum ListKind {
    Authors,
    Keywords,
    Categories,
}

impl ScalarKind {
    pub open spec fn spec_field(self) -> Field {
        match self {
            ScalarKind::Version => Field::Version,
            ScalarKind::Homepage => Field::Homepage,
            ScalarKind::License => Field::License,
            ScalarKind::Description => Field::Description,
            ScalarKind::Links => Field::Links,
        }
    }

    /// The field this kind names in error reports.
    pub fn field(&self) -> (r: Field)
        ensures
            r == self.spec_field(),
    {
        match self {
            ScalarKind::Version => Field::Version,
            ScalarKind::Homepage => Field::Homepage,
            ScalarKind::License => Field::License,
            ScalarKind::Description => Field::Description,
            ScalarKind::Links => Field::Links,
        }
    }
}

impl ListKind {
    pub open spec fn spec_field(self) -> Field {
        match self {
            ListKind::Authors => Field::Authors,
            ListKind::Keywords => Field::Keywords,
            ListKind::Categories => Field::Categories,
        }
    }

    /// The field this kind names in error reports.
    pub fn field(&self) -> (r: Field)
        ensures
            r == self.spec_field(),
    {
        match self {
            ListKind::Authors => Field::Authors,
            ListKind::Keywords => Field::Keywords,
            ListKind::Categories => Field::Categories,
        }
    }
}

impl Package {
    /// The stored representation of a string-valued field.
    pub open spec fn spec_scalar(self, k: ScalarKind) -> Option<StrField> {
        match k {
            ScalarKind::Version => self.version,
            ScalarKind::Homepage => self.homepage,
            ScalarKind::License => self.license,
            ScalarKind::Description => self.description,
            ScalarKind::Links => self.links,
        }
    }

    /// The stored representation of a list-valued field.
    pub open spec fn spec_list(self, k: ListKind) -> Option<ListField> {
        match k {
            ListKind::Authors => self.authors,
            ListKind::Keywords => self.keywords,
            ListKind::Categories => self.categories,
        }
    }
}

impl WorkspacePackage {
    /// The template's value for a string-valued field. The template never
    /// provides `links`.
    pub open spec fn spec_scalar(self, k: ScalarKind) -> Option<String> {
        match k {
            ScalarKind::Version => self.version,
            ScalarKind::Homepage => self.homepage,
            ScalarKind::License => self.license,
            ScalarKind::Description => self.description,
            ScalarKind::Links => None,
        }
    }

    /// The template's value for a list-valued field.
    pub open spec fn spec_list(self, k: ListKind) -> Option<Vec<String>> {
        match k {
            ListKind::Authors => self.authors,
            ListKind::Keywords => self.keywords,
            ListKind::Categories => self.categories,
        }
    }
}

impl Manifest {
    /// The workspace template, when both enclosing sections exist.
    pub open spec fn spec_template(self) -> Option<WorkspacePackage> {
        match self.workspace {
            Some(w) => w.package,
            None => None,
        }
    }
}

/// The neutral default substituted for a wholly absent scalar field:
/// the empty string, except for `version`, which defaults to `0.0.0`.
pub open spec fn spec_scalar_default(k: ScalarKind) -> Seq<char> {
    match k {
        ScalarKind::Version => "0.0.0"@,
        ScalarKind::Homepage => Seq::empty(),
        ScalarKind::License => Seq::empty(),
        ScalarKind::Description => Seq::empty(),
        ScalarKind::Links => Seq::empty(),
    }
}

/// The template value consulted when a scalar field is marked inherited.
pub open spec fn spec_template_scalar(m: Manifest, k: ScalarKind) -> Option<String> {
    match m.spec_template() {
        Some(t) => t.spec_scalar(k),
        None => None,
    }
}

/// The template value consulted when a list field is marked inherited.
pub open spec fn spec_template_list(m: Manifest, k: ListKind) -> Option<Vec<String>> {
    match m.spec_template() {
        Some(t) => t.spec_list(k),
        None => None,
    }
}

/// What resolving a string-valued package field yields: the direct value;
/// or, under the inherit marker, the template's value, with an inheritance
/// error when the template lacks it; or the neutral default when the field
/// is wholly absent.
pub open spec fn spec_resolve_scalar(m: Manifest, k: ScalarKind) -> Result<Seq<char>, QueryError> {
    match m.package {
        None => Err(QueryError::NotFound(Section::Package)),
        Some(p) => match p.spec_scalar(k) {
            Some(StrField::Value(v)) => Ok(v@),
            Some(StrField::Inherit) => match spec_template_scalar(m, k) {
                Some(w) => Ok(w@),
                None => Err(QueryError::Inheritance(k.spec_field())),
            },
            None => Ok(spec_scalar_default(k)),
        },
    }
}

/// What resolving a list-valued package field yields; a wholly absent field
/// resolves to the empty list.
pub open spec fn spec_resolve_list(m: Manifest, k: ListKind) -> Result<
    Seq<Seq<char>>,
    QueryError,
> {
    match m.package {
        None => Err(QueryError::NotFound(Section::Package)),
        Some(p) => match p.spec_list(k) {
            Some(ListField::Values(v)) => Ok(v.deep_view()),
            Some(ListField::Inherit) => match spec_template_list(m, k) {
                Some(w) => Ok(w.deep_view()),
                None => Err(QueryError::Inheritance(k.spec_field())),
            },
            None => Ok(Seq::empty()),
        },
    }
}

/// What resolving the edition yields; a wholly absent edition resolves to
/// the oldest recognized edition.
pub open spec fn spec_resolve_edition(m: Manifest) -> Result<Edition, QueryError> {
    match m.package {
        None => Err(QueryError::NotFound(Section::Package)),
        Some(p) => match p.edition {
            Some(EditionField::Value(e)) => Ok(e),
            Some(EditionField::Inherit) => match m.spec_template() {
                Some(t) => match t.edition {
                    Some(e) => Ok(e),
                    None => Err(QueryError::Inheritance(Field::Edition)),
                },
                None => Err(QueryError::Inheritance(Field::Edition)),
            },
            None => Ok(Edition::E2015),
        },
    }
}

/// What querying the package name yields: the stored name, never inherited.
pub open spec fn spec_resolve_name(m: Manifest) -> Result<Seq<char>, QueryError> {
    match m.package {
        None => Err(QueryError::NotFound(Section::Package)),
        Some(p) => Ok(p.name@),
    }
}

/// What querying a workspace-template field directly yields: the concrete
/// template value, or the missing section (workspace, workspace.package, or
/// the specific template field) as a not-found error.
pub open spec fn spec_workspace_scalar(m: Manifest, k: ScalarKind) -> Result<
    Seq<char>,
    QueryError,
> {
    match m.workspace {
        None => Err(QueryError::NotFound(Section::Workspace)),
        Some(w) => match w.package {
            None => Err(QueryError::NotFound(Section::WorkspacePackage)),
            Some(t) => match t.spec_scalar(k) {
                Some(v) => Ok(v@),
                None => Err(
                    QueryError::NotFound(Section::WorkspacePackageField(k.spec_field())),
                ),
            },
        },
    }
}

/// Direct workspace-template query for a list-valued field.
pub open spec fn spec_workspace_list(m: Manifest, k: ListKind) -> Result<
    Seq<Seq<char>>,
    QueryError,
> {
    match m.workspace {
        None => Err(QueryError::NotFound(Section::Workspace)),
        Some(w) => match w.package {
            None => Err(QueryError::NotFound(Section::WorkspacePackage)),
            Some(t) => match t.spec_list(k) {
                Some(v) => Ok(v.deep_view()),
                None => Err(
                    QueryError::NotFound(Section::WorkspacePackageField(k.spec_field())),
                ),
            },
        },
    }
}

/// Direct workspace-template query for the edition.
pub open spec fn spec_workspace_edition(m: Manifest) -> Result<Edition, QueryError> {
    match m.workspace {
        None => Err(QueryError::NotFound(Section::Workspace)),
        Some(w) => match w.package {
            None => Err(QueryError::NotFound(Section::WorkspacePackage)),
            Some(t) => match t.edition {
                Some(e) => Ok(e),
                None => Err(
                    QueryError::NotFound(Section::WorkspacePackageField(Field::Edition)),
                ),
            },
        },
    }
}

/// What querying the workspace member list yields; an absent member list is
/// the empty list, not an error.
pub open spec fn spec_workspace_members(m: Manifest) -> Result<Seq<Seq<char>>, QueryError> {
    match m.workspace {
        None => Err(QueryError::NotFound(Section::Workspace)),
        Some(w) => Ok(w.members.deep_view()),
    }
}

fn scalar_of<'a>(p: &'a Package, k: ScalarKind) -> (r: &'a Option<StrField>)
    ensures
        *r == p.spec_scalar(k),
{
    match k {
        ScalarKind::Version => &p.version,
        ScalarKind::Homepage => &p.homepage,
        ScalarKind::License => &p.license,
        ScalarKind::Description => &p.description,
        ScalarKind::Links => &p.links,
    }
}

fn list_of<'a>(p: &'a Package, k: ListKind) -> (r: &'a Option<ListField>)
    ensures
        *r == p.spec_list(k),
{
    match k {
        ListKind::Authors => &p.authors,
        ListKind::Keywords => &p.keywords,
        ListKind::Categories => &p.categories,
    }
}

fn template_of<'a>(m: &'a Manifest) -> (r: Option<&'a WorkspacePackage>)
    ensures
        match m.spec_template() {
            Some(t) => r matches Some(x) && *x == t,
            None => r is None,
        },
{
    match &m.workspace {
        None => None,
        Some(w) => w.package.as_ref(),
    }
}

fn template_scalar_of<'a>(m: &'a Manifest, k: ScalarKind) -> (r: Option<&'a String>)
    ensures
        match spec_template_scalar(*m, k) {
            Some(v) => r matches Some(s) && *s == v,
            None => r is None,
        },
{
    match template_of(m) {
        None => None,
        Some(t) => match k {
            ScalarKind::Version => t.version.as_ref(),
            ScalarKind::Homepage => t.homepage.as_ref(),
            ScalarKind::License => t.license.as_ref(),
            ScalarKind::Description => t.description.as_ref(),
            ScalarKind::Links => None,
        },
    }
}

fn template_list_of<'a>(m: &'a Manifest, k: ListKind) -> (r: Option<&'a Vec<String>>)
    ensures
        match spec_template_list(*m, k) {
            Some(v) => r matches Some(s) && *s == v,
            None => r is None,
        },
{
    match template_of(m) {
        None => None,
        Some(t) => match k {
            ListKind::Authors => t.authors.as_ref(),
            ListKind::Keywords => t.keywords.as_ref(),
            ListKind::Categories => t.categories.as_ref(),
        },
    }
}

fn default_scalar(k: ScalarKind) -> (s: String)
    ensures
        s@ == spec_scalar_default(k),
{
    match k {
        ScalarKind::Version => String::from_str("0.0.0"),
        ScalarKind::Homepage => String::new(),
        ScalarKind::License => String::new(),
        ScalarKind::Description => String::new(),
        ScalarKind::Links => String::new(),
    }
}

/// The package name; never consults the workspace.
pub fn get_package_name(m: &Manifest) -> (r: Result<String, QueryError>)
    ensures
        match spec_resolve_name(*m) {
            Ok(v) => r matches Ok(s) && s@ == v,
            Err(e) => r matches Err(x) && x == e,
        },
{
    match &m.package {
        None => Err(QueryError::NotFound(Section::Package)),
        Some(p) => Ok(p.name.clone()),
    }
}

/// Resolves a string-valued package field through the inheritance chain.
pub fn get_package_scalar(m: &Manifest, k: ScalarKind) -> (r: Result<String, QueryError>)
    ensures
        match spec_resolve_scalar(*m, k) {
            Ok(v) => r matches Ok(s) && s@ == v,
            Err(e) => r matches Err(x) && x == e,
        },
{
    match &m.package {
        None => Err(QueryError::NotFound(Section::Package)),
        Some(p) => match scalar_of(p, k) {
            Some(StrField::Value(v)) => Ok(v.clone()),
            Some(StrField::Inherit) => match template_scalar_of(m, k) {
                Some(w) => Ok(w.clone()),
                None => Err(QueryError::Inheritance(k.field())),
            },
            None => Ok(default_scalar(k)),
        },
    }
}

/// Resolves a list-valued package field through the inheritance chain.
pub fn get_package_list(m: &Manifest, k: ListKind) -> (r: Result<Vec<String>, QueryError>)
    ensures
        match spec_resolve_list(*m, k) {
            Ok(v) => r matches Ok(s) && s.deep_view() == v,
            Err(e) => r matches Err(x) && x == e,
        },
{
    match &m.package {
        None => Err(QueryError::NotFound(Section::Package)),
        Some(p) => match list_of(p, k) {
            Some(ListField::Values(v)) => Ok(clone_strings(v)),
            Some(ListField::Inherit) => match template_list_of(m, k) {
                Some(w) => Ok(clone_strings(w)),
                None => Err(QueryError::Inheritance(k.field())),
            },
            None => Ok(Vec::new()),
        },
    }
}

/// Resolves the package edition through the inheritance chain.
pub fn get_package_edition(m: &Manifest) -> (r: Result<Edition, QueryError>)
    ensures
        r == spec_resolve_edition(*m),
{
    match &m.package {
        None => Err(QueryError::NotFound(Section::Package)),
        Some(p) => match &p.edition {
            Some(EditionField::Value(e)) => Ok(*e),
            Some(EditionField::Inherit) => match template_of(m) {
                Some(t) => match t.edition {
                    Some(e) => Ok(e),
                    None => Err(QueryError::Inheritance(Field::Edition)),
                },
                None => Err(QueryError::Inheritance(Field::Edition)),
            },
            None => Ok(Edition::E2015),
        },
    }
}

/// Looks a string-valued field up directly in the workspace template.
pub fn get_workspace_scalar(m: &Manifest, k: ScalarKind) -> (r: Result<String, QueryError>)
    ensures
        match spec_workspace_scalar(*m, k) {
            Ok(v) => r matches Ok(s) && s@ == v,
            Err(e) => r matches Err(x) && x == e,
        },
{
    match &m.workspace {
        None => Err(QueryError::NotFound(Section::Workspace)),
        Some(w) => match &w.package {
            None => Err(QueryError::NotFound(Section::WorkspacePackage)),
            Some(t) => {
                let f = match k {
                    ScalarKind::Version => t.version.as_ref(),
                    ScalarKind::Homepage => t.homepage.as_ref(),
                    ScalarKind::License => t.license.as_ref(),
                    ScalarKind::Description => t.description.as_ref(),
                    ScalarKind::Links => None,
                };
                match f {
                    Some(v) => Ok(v.clone()),
                    None => Err(
                        QueryError::NotFound(Section::WorkspacePackageField(k.field())),
                    ),
                }
            },
        },
    }
}

/// Looks a list-valued field up directly in the workspace template.
pub fn get_workspace_list(m: &Manifest, k: ListKind) -> (r: Result<Vec<String>, QueryError>)
    ensures
        match spec_workspace_list(*m, k) {
            Ok(v) => r matches Ok(s) && s.deep_view() == v,
            Err(e) => r matches Err(x) && x == e,
        },
{
    match &m.workspace {
        None => Err(QueryError::NotFound(Section::Workspace)),
        Some(w) => match &w.package {
            None => Err(QueryError::NotFound(Section::WorkspacePackage)),
            Some(t) => {
                let f = match k {
                    ListKind::Authors => t.authors.as_ref(),
                    ListKind::Keywords => t.keywords.as_ref(),
                    ListKind::Categories => t.categories.as_ref(),
                };
                match f {
                    Some(v) => Ok(clone_strings(v)),
                    None => Err(
                        QueryError::NotFound(Section::WorkspacePackageField(k.field())),
                    ),
                }
            },
        },
    }
}

/// Looks the edition up directly in the workspace template.
pub fn get_workspace_edition(m: &Manifest) -> (r: Result<Edition, QueryError>)
    ensures
        r == spec_workspace_edition(*m),
{
    match &m.workspace {
        None => Err(QueryError::NotFound(Section::Workspace)),
        Some(w) => match &w.package {
            None => Err(QueryError::NotFound(Section::WorkspacePackage)),
            Some(t) => match t.edition {
                Some(e) => Ok(e),
                None => Err(
                    QueryError::NotFound(Section::WorkspacePackageField(Field::Edition)),
                ),
            },
        },
    }
}

/// The workspace member paths.
pub fn get_workspace_members(m: &Manifest) -> (r: Result<Vec<String>, QueryError>)
    ensures
        match spec_workspace_members(*m) {
            Ok(v) => r matches Ok(s) && s.deep_view() == v,
            Err(e) => r matches Err(x) && x == e,
        },
{
    match &m.workspace {
        None => Err(QueryError::NotFound(Section::Workspace)),
        Some(w) => Ok(clone_strings(&w.members)),
    }
}

/// The textual label of an edition: a total mapping over the closed set.
pub open spec fn spec_edition_label(e: Edition) -> Seq<char> {
    match e {
        Edition::E2015 => "2015"@,
        Edition::E2018 => "2018"@,
        Edition::E2021 => "2021"@,
    }
}

/// Renders an edition as its manifest tag.
pub fn edition_label(e: Edition) -> (r: &'static str)
    ensures
        r@ == spec_edition_label(e),
{
    match e {
        Edition::E2015 => "2015",
        Edition::E2018 => "2018",
        Edition::E2021 => "2021",
    }
}

/// A direct (non-inherited) field value resolves to exactly the stored
/// value, whatever the workspace holds: two manifests with the same package
/// section resolve the field alike, to that value.
pub proof fn lemma_direct_scalar_ignores_workspace(
    m1: Manifest,
    m2: Manifest,
    k: ScalarKind,
    v: String,
)
    requires
        m1.package == m2.package,
        m1.package matches Some(p) && p.spec_scalar(k) == Some(StrField::Value(v)),
    ensures
        spec_resolve_scalar(m1, k) == Ok::<Seq<char>, QueryError>(v@),
        spec_resolve_scalar(m1, k) == spec_resolve_scalar(m2, k),
{
}

/// The list-valued counterpart: a direct list resolves to exactly the
/// stored items, independent of workspace content.
pub proof fn lemma_direct_list_ignores_workspace(
    m1: Manifest,
    m2: Manifest,
    k: ListKind,
    v: Vec<String>,
)
    requires
        m1.package == m2.package,
        m1.package matches Some(p) && p.spec_list(k) == Some(ListField::Values(v)),
    ensures
        spec_resolve_list(m1, k) == Ok::<Seq<Seq<char>>, QueryError>(v.deep_view()),
        spec_resolve_list(m1, k) == spec_resolve_list(m2, k),
{
}

/// A field marked inherited resolves to the workspace template's value when
/// the template provides one, and fails with an inheritance error naming the
/// field when it does not.
pub proof fn lemma_inherited_scalar_resolution(m: Manifest, k: ScalarKind)
    requires
        m.package matches Some(p) && p.spec_scalar(k) == Some(StrField::Inherit),
    ensures
        match spec_template_scalar(m, k) {
            Some(w) => spec_resolve_scalar(m, k) == Ok::<Seq<char>, QueryError>(w@),
            None => spec_resolve_scalar(m, k) == Err::<Seq<char>, QueryError>(
                QueryError::Inheritance(k.spec_field()),
            ),
        },
{
}

/// The list-valued counterpart of inherited-field resolution.
pub proof fn lemma_inherited_list_resolution(m: Manifest, k: ListKind)
    requires
        m.package matches Some(p) && p.spec_list(k) == Some(ListField::Inherit),
    ensures
        match spec_template_list(m, k) {
            Some(w) => spec_resolve_list(m, k) == Ok::<Seq<Seq<char>>, QueryError>(w.deep_view()),
            None => spec_resolve_list(m, k) == Err::<Seq<Seq<char>>, QueryError>(
                QueryError::Inheritance(k.spec_field()),
            ),
        },
{
}

} // verus!
