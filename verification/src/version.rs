//! Decomposes a concrete semantic-version string into its components and
//! renders the full, pretty, or per-component forms.

use vstd::prelude::*;

use crate::error::QueryError;
use crate::text::dec_digits;
use crate::text::u64_string;

verus! {

/// The components of one parsed semantic version. `pre` and `build` are
/// empty strings when the version carries no such metadata: absence is a
/// legitimate state, not an error.
#[derive(Clone, Debug)]
pub struct VersionParts {
    pub major: u64,
    pub minor: u64,
    pub patch: u64,
    pub pre: String,
    pub build: String,
}

impl View for VersionParts {
    type V = (u64, u64, u64, Seq<char>, Seq<char>);

    open spec fn view(&self) -> Self::V {
        (self.major, self.minor, self.patch, self.pre@, self.build@)
    }
}

/// What the semantic-version grammar makes of a string: `None` for a
/// malformed version, otherwise major, minor, patch, pre-release and build
/// metadata (the latter two empty when absent).
pub uninterp spec fn semver_decomposition(s: Seq<char>) -> Option<
    (u64, u64, u64, Seq<char>, Seq<char>),
>;

/// `major.minor.patch`, each part in canonical decimal.
pub open spec fn spec_render_plain(f: (u64, u64, u64, Seq<char>, Seq<char>)) -> Seq<char> {
    dec_digits(f.0 as nat) + seq!['.'] + dec_digits(f.1 as nat) + seq!['.'] + dec_digits(
        f.2 as nat,
    )
}

/// `v` followed by `major.minor.patch`, regardless of metadata.
pub open spec fn spec_render_pretty(f: (u64, u64, u64, Seq<char>, Seq<char>)) -> Seq<char> {
    seq!['v'] + spec_render_plain(f)
}

/// The canonical form `major.minor.patch[-pre][+build]`.
pub open spec fn spec_render_full(f: (u64, u64, u64, Seq<char>, Seq<char>)) -> Seq<char> {
    spec_render_plain(f) + (if f.3.len() > 0 {
        seq!['-'] + f.3
    } else {
        Seq::<char>::empty()
    }) + (if f.4.len() > 0 {
        seq!['+'] + f.4
    } else {
        Seq::<char>::empty()
    })
}

/// Relies on semver::Version::parse: it accepts exactly the strict
/// `major.minor.patch[-pre][+build]` grammar, returns the numeric parts and
/// the verbatim pre-release and build substrings, and rejects anything else
/// without panicking. Because the accepted grammar is canonical (no leading
/// zeros, no whitespace), re-rendering the components reproduces the input.
#[verifier::external_body]
fn parse_semver(s: &str) -> (r: Result<VersionParts, String>)
    ensures
        match semver_decomposition(s@) {
            Some(f) => r matches Ok(p) && p@ == f && spec_render_full(f) == s@,
            None => r is Err,
        },
{
    match semver::Version::parse(s) {
        Ok(v) => Ok(
            VersionParts {
                major: v.major,
                minor: v.minor,
                patch: v.patch,
                pre: v.pre.as_str().to_string(),
                build: v.build.as_str().to_string(),
            },
        ),
        Err(e) => Err(e.to_string()),
    }
}

/// Decomposes a version string under strict semantic-versioning rules.
/// A well-formed version yields its components, whose canonical rendering
/// is the input itself; a malformed one yields `InvalidSemver` carrying the
/// parse diagnostic, never a partial result.
pub fn decompose(s: &str) -> (r: Result<VersionParts, QueryError>)
    ensures
        match semver_decomposition(s@) {
            Some(f) => r matches Ok(p) && p@ == f && spec_render_full(f) == s@,
            None => r matches Err(e) && e is InvalidSemver,
        },
{
    match parse_semver(s) {
        Ok(p) => Ok(p),
        Err(d) => Err(QueryError::InvalidSemver(d)),
    }
}

/// Which rendering of a version a query asks for. `Plain` is the default:
/// `major.minor.patch` with no prefix and no metadata.
#[derive(Clone, Copy, PartialEq, Eq, Structural, Debug)]
pub enum VersionMode {
    Plain,
    Full,
    Pretty,
    Major,
    Minor,
    Patch,
    Build,
    Pre,
}

/// The text that each query mode renders from the components.
pub open spec fn spec_render_mode(
    f: (u64, u64, u64, Seq<char>, Seq<char>),
    m: VersionMode,
) -> Seq<char> {
    match m {
        VersionMode::Plain => spec_render_plain(f),
        VersionMode::Full => spec_render_full(f),
        VersionMode::Pretty => spec_render_pretty(f),
        VersionMode::Major => dec_digits(f.0 as nat),
        VersionMode::Minor => dec_digits(f.1 as nat),
        VersionMode::Patch => dec_digits(f.2 as nat),
        VersionMode::Build => f.4,
        VersionMode::Pre => f.3,
    }
}

fn render_plain(p: &VersionParts) -> (r: String)
    ensures
        r@ == spec_render_plain(p@),
{
    proof {
        reveal_strlit(".");
        assert("."@ =~= seq!['.']);
    }
    let mut s = u64_string(p.major);
    s.append(".");
    let minor = u64_string(p.minor);
    s.append(minor.as_str());
    s.append(".");
    let patch = u64_string(p.patch);
    s.append(patch.as_str());
    s
}

/// Renders the components in the requested mode.
pub fn render_version(p: &VersionParts, m: VersionMode) -> (r: String)
    ensures
        r@ == spec_render_mode(p@, m),
{
    match m {
        VersionMode::Plain => render_plain(p),
        VersionMode::Full => {
            proof {
                reveal_strlit("-");
                reveal_strlit("+");
                assert("-"@ =~= seq!['-']);
                assert("+"@ =~= seq!['+']);
            }
            let mut s = render_plain(p);
            if !p.pre.as_str().is_empty() {
                s.append("-");
                s.append(p.pre.as_str());
            }
            if !p.build.as_str().is_empty() {
                s.append("+");
                s.append(p.build.as_str());
            }
            proof {
                assert(s@ =~= spec_render_full(p@));
            }
            s
        },
        VersionMode::Pretty => {
            proof {
                reveal_strlit("v");
                assert("v"@ =~= seq!['v']);
            }
            let mut s = String::from_str("v");
            let plain = render_plain(p);
            s.append(plain.as_str());
            s
        },
        VersionMode::Major => u64_string(p.major),
        VersionMode::Minor => u64_string(p.minor),
        VersionMode::Patch => u64_string(p.patch),
        VersionMode::Build => p.build.clone(),
        VersionMode::Pre => p.pre.clone(),
    }
}

/// Decomposes a version string and renders it in the requested mode; a
/// malformed version yields `InvalidSemver`.
pub fn version_output(version: &str, m: VersionMode) -> (r: Result<String, QueryError>)
    ensures
        match semver_decomposition(version@) {
            Some(f) => r matches Ok(s) && s@ == spec_render_mode(f, m),
            None => r matches Err(e) && e is InvalidSemver,
        },
{
    match decompose(version) {
        Ok(p) => Ok(render_version(&p, m)),
        Err(e) => Err(e),
    }
}

/// The pretty rendering depends on major, minor and patch alone: two
/// versions that agree on those render to the same `v`-prefixed text,
/// whatever their pre-release or build metadata.
pub proof fn lemma_pretty_ignores_metadata(
    f: (u64, u64, u64, Seq<char>, Seq<char>),
    g: (u64, u64, u64, Seq<char>, Seq<char>),
)
    requires
        f.0 == g.0,
        f.1 == g.1,
        f.2 == g.2,
    ensures
        spec_render_pretty(f) == spec_render_pretty(g),
{
}

} // verus!
