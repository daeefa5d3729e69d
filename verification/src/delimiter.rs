//! Maps a user-supplied delimiter token (symbolic name or literal string) to
//! the separator used when joining multi-valued fields.

use vstd::prelude::*;

use crate::text::str_eq;

verus! {

/// A resolved multi-value separator. The symbolic names `Tab`, `CR`, `LF`
/// and `CRLF` stand for the matching control-character sequences; any other
/// token is kept verbatim as a literal separator.
#[derive(Clone, Debug)]
pub enum Delimiter {
    Tab,
    Cr,
    Lf,
    CrLf,
    Literal(String),
}

/// The separator string that a delimiter token denotes: one of the four
/// symbolic names maps to its control-character sequence, anything else is
/// used verbatim.
pub open spec fn spec_token_value(t: Seq<char>) -> Seq<char> {
    if t == "Tab"@ {
        seq!['\t']
    } else if t == "CR"@ {
        seq!['\r']
    } else if t == "LF"@ {
        seq!['\n']
    } else if t == "CRLF"@ {
        seq!['\r', '\n']
    } else {
        t
    }
}

impl Delimiter {
    /// The separator string this delimiter stands for.
    pub open spec fn spec_value(self) -> Seq<char> {
        match self {
            Delimiter::Tab => seq!['\t'],
            Delimiter::Cr => seq!['\r'],
            Delimiter::Lf => seq!['\n'],
            Delimiter::CrLf => seq!['\r', '\n'],
            Delimiter::Literal(s) => s@,
        }
    }

    /// Classifies a delimiter token: a symbolic name (case-sensitive exact
    /// match) maps to its named delimiter, anything else to a literal one.
    pub fn from_token(token: &str) -> (d: Delimiter)
        ensures
            token@ == "Tab"@ ==> d == Delimiter::Tab,
            token@ == "CR"@ ==> d == Delimiter::Cr,
            token@ == "LF"@ ==> d == Delimiter::Lf,
            token@ == "CRLF"@ ==> d == Delimiter::CrLf,
            d matches Delimiter::Literal(s) ==> s@ == token@,
            d.spec_value() == spec_token_value(token@),
    {
        proof {
            lemma_token_names_distinct();
        }
        if str_eq(token, "Tab") {
            Delimiter::Tab
        } else if str_eq(token, "CR") {
            Delimiter::Cr
        } else if str_eq(token, "LF") {
            Delimiter::Lf
        } else if str_eq(token, "CRLF") {
            Delimiter::CrLf
        } else {
            Delimiter::Literal(token.to_owned())
        }
    }

    /// The separator as an executable string.
    pub fn value(&self) -> (s: String)
        ensures
            s@ == self.spec_value(),
    {
        proof {
            reveal_strlit("\t");
            reveal_strlit("\r");
            reveal_strlit("\n");
            reveal_strlit("\r\n");
        }
        match self {
            Delimiter::Tab => String::from_str("\t"),
            Delimiter::Cr => String::from_str("\r"),
            Delimiter::Lf => String::from_str("\n"),
            Delimiter::CrLf => String::from_str("\r\n"),
            Delimiter::Literal(s) => s.clone(),
        }
    }
}

impl Default for Delimiter {
    /// With no token given, multi-valued output is newline-separated.
    fn default() -> (d: Self)
        ensures
            d == Delimiter::Lf,
    {
        Delimiter::Lf
    }
}

/// Resolves an optional delimiter token: absence means newline.
pub fn resolve_delimiter(token: Option<&str>) -> (d: Delimiter)
    ensures
        token is None ==> d == Delimiter::Lf,
        token matches Some(t) ==> d.spec_value() == spec_token_value(t@),
{
    match token {
        None => Delimiter::Lf,
        Some(t) => Delimiter::from_token(t),
    }
}

/// The four symbolic delimiter names are pairwise distinct strings.
proof fn lemma_token_names_distinct()
    ensures
        "Tab"@ =~= seq!['T', 'a', 'b'],
        "CR"@ =~= seq!['C', 'R'],
        "LF"@ =~= seq!['L', 'F'],
        "CRLF"@ =~= seq!['C', 'R', 'L', 'F'],
        "CR"@ != "Tab"@,
        "LF"@ != "Tab"@,
        "LF"@ != "CR"@,
        "CRLF"@ != "Tab"@,
        "CRLF"@ != "CR"@,
        "CRLF"@ != "LF"@,
{
    reveal_strlit("Tab");
    reveal_strlit("CR");
    reveal_strlit("LF");
    reveal_strlit("CRLF");
    assert("Tab"@ =~= seq!['T', 'a', 'b']);
    assert("CR"@ =~= seq!['C', 'R']);
    assert("LF"@ =~= seq!['L', 'F']);
    assert("CRLF"@ =~= seq!['C', 'R', 'L', 'F']);
}

/// The token `LF` denotes exactly one newline character.
pub proof fn lemma_lf_token_is_newline()
    ensures
        spec_token_value("LF"@) == seq!['\n'],
{
    lemma_token_names_distinct();
}

/// A token that is none of the four symbolic names separates values verbatim.
pub proof fn lemma_unrecognized_token_is_verbatim(t: Seq<char>)
    requires
        t != "Tab"@,
        t != "CR"@,
        t != "LF"@,
        t != "CRLF"@,
    ensures
        spec_token_value(t) == t,
{
}

} // verus!
