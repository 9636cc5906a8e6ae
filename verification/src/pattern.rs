//! The match pattern: a regular expression compiled over byte strings, and
//! the first-match substitution that it performs on a filename's bytes.
//!
//! The regular-expression work itself is done by the `regex` crate's byte
//! engine; the declarations below state, as contracts, what that engine's
//! calls return, and the verified code builds on those contracts.

use vstd::prelude::*;

verus! {

/// Declares `regex::bytes::Regex`, the regex crate's engine compiled over
/// byte strings, so that a compiled pattern can be stored and passed around.
#[verifier::external_type_specification]
#[verifier::external_body]
pub struct ExRegex(regex::bytes::Regex);

/// Declares `regex::Error`, what `regex::bytes::Regex::new` returns when a
/// pattern does not compile.
#[verifier::external_type_specification]
#[verifier::external_body]
pub struct ExRegexError(regex::Error);

/// Whether `regex::bytes::Regex::new` accepts the pattern text. Compilation
/// depends on the text alone.
pub uninterp spec fn compiles(pat: Seq<char>) -> bool;

/// The pattern text that a compiled regex was built from.
pub uninterp spec fn pattern_of(re: regex::bytes::Regex) -> Seq<char>;

/// What `regex::bytes::Regex::replace` returns: the haystack with the
/// leftmost match of the pattern replaced by the template, capture-group
/// references in the template expanded. The result depends on the pattern,
/// the haystack and the template alone.
pub uninterp spec fn replace_first(pat: Seq<char>, hay: Seq<u8>, tmpl: Seq<u8>) -> Seq<u8>;

/// Whether the pattern matches somewhere in the haystack, as the regex
/// engine decides it. Depends on the pattern and the haystack alone.
pub uninterp spec fn has_match(pat: Seq<char>, hay: Seq<u8>) -> bool;

/// Relies on `regex::bytes::Regex::new`: it compiles the pattern text, and
/// the regex it returns on success is the compiled form of exactly that text.
#[verifier::external_body]
fn regex_new(pat: &str) -> (r: Result<regex::bytes::Regex, regex::Error>)
    ensures
        r is Ok <==> compiles(pat@),
        r is Ok ==> pattern_of(r->Ok_0) == pat@,
{
    regex::bytes::Regex::new(pat)
}

/// Relies on `regex::bytes::Regex::replace`: it replaces the leftmost
/// non-overlapping match only, expanding `$ref` group references in the
/// template, and returns the haystack unchanged when there is no match.
#[verifier::external_body]
fn regex_replace_first(re: &regex::bytes::Regex, hay: &Vec<u8>, tmpl: &Vec<u8>) -> (r: Vec<u8>)
    ensures
        r@ == replace_first(pattern_of(*re), hay@, tmpl@),
        !has_match(pattern_of(*re), hay@) ==> r@ == hay@,
{
    re.replace(hay.as_slice(), tmpl.as_slice()).into_owned()
}

/// Relies on `regex::Error`'s `Display` implementation for the message that
/// explains why a pattern failed to compile.
#[verifier::external_body]
fn regex_error_text(e: &regex::Error) -> String {
    format!("{}", e)
}

/// A match pattern whose text failed to compile as a regular expression,
/// with the engine's explanation.
#[derive(Debug)]
pub struct PatternError {
    pub message: String,
}

/// A compiled match pattern, kept together with its source text so that a
/// diagnostic can show the pattern as the user wrote it.
pub struct MatchPattern {
    re: regex::bytes::Regex,
    text: String,
}

impl MatchPattern {
    /// The pattern's source text.
    pub closed spec fn pat(self) -> Seq<char> {
        self.text@
    }

    /// The compiled regex is the compiled form of the stored text.
    pub closed spec fn wf(self) -> bool {
        pattern_of(self.re) == self.text@
    }

    /// Compiles the pattern text. Returns the compiled pattern exactly when
    /// the text is a valid regular expression; otherwise the engine's error.
    pub fn compile(pat: &str) -> (r: Result<MatchPattern, PatternError>)
        ensures
            r is Ok <==> compiles(pat@),
            r is Ok ==> r->Ok_0.wf() && r->Ok_0.pat() == pat@,
    {
        match regex_new(pat) {
            Ok(re) => Ok(MatchPattern { re, text: pat.to_owned() }),
            Err(e) => Err(PatternError { message: regex_error_text(&e) }),
        }
    }

    /// The pattern's source text, for diagnostics.
    pub fn text(&self) -> (t: &str)
        ensures
            t@ == self.pat(),
    {
        self.text.as_str()
    }

    /// Replaces the first (leftmost) match of this pattern in `hay` with the
    /// template, expanding group references. When the pattern does not occur
    /// in `hay`, the result is `hay` unchanged.
    pub fn substitute_first(&self, hay: &Vec<u8>, tmpl: &Vec<u8>) -> (r: Vec<u8>)
        requires
            self.wf(),
        ensures
            r@ == replace_first(self.pat(), hay@, tmpl@),
            !has_match(self.pat(), hay@) ==> r@ == hay@,
    {
        regex_replace_first(&self.re, hay, tmpl)
    }
}

} // verus!
