//! The rename engine: plans one rename per target, in input order, and halts
//! the whole run at the first failure.
//!
//! For each target the engine encodes the path to raw bytes, replaces the
//! first match of the pattern, and decodes the result into the destination
//! path. A destination equal to the source is reported as a skip, so that a
//! filename the pattern leaves unchanged never reaches the non-clobbering
//! rename, where it would collide with itself. The caller performs each
//! rename and reports the outcome back; after a failure the engine is halted
//! and plans no further work.

use vstd::prelude::*;
use vstd::string::StrSliceExecFns;
use vstd::string::StringExecFns;
use vstd::string::StringSliceAdditionalSpecFns;
use crate::codec::NativePath;
use crate::codec::bytes_equal;
use crate::codec::decode;
use crate::codec::encode;
use crate::pattern::MatchPattern;
use crate::pattern::PatternError;
use crate::pattern::compiles;
use crate::pattern::has_match;
use crate::pattern::replace_first;

verus! {

/// What the text of a byte sequence reads as in a diagnostic.
pub uninterp spec fn lossy_text_of(b: Seq<u8>) -> Seq<char>;

/// Relies on `String::from_utf8_lossy`: the text depends on the bytes alone
/// (invalid sequences are shown as replacement characters).
#[verifier::external_body]
fn lossy_text(b: &Vec<u8>) -> (r: String)
    ensures
        r@ == lossy_text_of(b@),
{
    String::from_utf8_lossy(b.as_slice()).into_owned()
}

/// The diagnostic line for a failed rename: the source path's text, the two
/// patterns as the user wrote them, and the underlying error.
pub open spec fn diagnostic_of(path: Seq<u8>, m: Seq<char>, rp: Seq<char>, err: Seq<char>) -> Seq<
    char,
> {
    lossy_text_of(path) + " ("@ + m + " → "@ + rp + "): "@ + err
}

/// What the engine asks of its caller next.
pub enum Step {
    /// Rename `source` to `dest` with the non-clobbering rename, then report
    /// the outcome with `record_success` or `record_failure`.
    Rename { source: NativePath, dest: NativePath },
    /// The substituted name equals the source name: perform no rename, and
    /// report the target done with `record_success`.
    SkipSelf { source: NativePath },
    /// Every target has been processed.
    Done,
    /// A failure was recorded; no further target is attempted.
    Halted,
}

/// Plans the renames for an ordered list of targets, one at a time, halting
/// at the first recorded failure.
pub struct RenameEngine {
    pattern: MatchPattern,
    replace_text: String,
    template: Vec<u8>,
    targets: Vec<NativePath>,
    position: usize,
    halted: bool,
}

impl RenameEngine {
    /// The match pattern's source text.
    pub closed spec fn pat(self) -> Seq<char> {
        self.pattern.pat()
    }

    /// The replacement template, as raw bytes.
    pub closed spec fn tmpl(self) -> Seq<u8> {
        self.template@
    }

    /// The replacement pattern's source text, for diagnostics.
    pub closed spec fn replace_view(self) -> Seq<char> {
        self.replace_text@
    }

    /// The byte sequences of the targets, in input order.
    pub closed spec fn target_views(self) -> Seq<Seq<u8>> {
        self.targets@.map_values(|t: NativePath| t@)
    }

    /// How many targets were supplied.
    pub closed spec fn target_count(self) -> nat {
        self.targets@.len()
    }

    /// How many targets have been processed successfully.
    pub closed spec fn pos(self) -> nat {
        self.position as nat
    }

    /// Whether a failure has been recorded.
    pub closed spec fn is_halted(self) -> bool {
        self.halted
    }

    /// The engine's invariant: the compiled pattern matches its stored text,
    /// and the position never passes the end of the target list.
    pub closed spec fn wf(self) -> bool {
        &&& self.pattern.wf()
        &&& self.position <= self.targets@.len()
    }

    /// The destination byte sequence computed for target `i`: the target's
    /// bytes with the first match of the pattern replaced by the template.
    pub open spec fn dest_of(self, i: int) -> Seq<u8> {
        replace_first(self.pat(), self.target_views()[i], self.tmpl())
    }

    /// Builds an engine over the given patterns and targets. Succeeds exactly
    /// when the match pattern compiles as a regular expression; no target is
    /// touched before the first plan is asked for.
    pub fn new(match_pat: &str, replace_pat: &str, targets: Vec<NativePath>) -> (r: Result<
        RenameEngine,
        PatternError,
    >)
        ensures
            r is Ok <==> compiles(match_pat@),
            r is Ok ==> ({
                let e = r->Ok_0;
                &&& e.wf()
                &&& e.pat() == match_pat@
                &&& e.replace_view() == replace_pat@
                &&& e.tmpl() == replace_pat.spec_bytes()
                &&& e.target_views() == targets@.map_values(|t: NativePath| t@)
                &&& e.target_count() == targets@.len()
                &&& e.pos() == 0
                &&& !e.is_halted()
            }),
    {
        let pattern = match MatchPattern::compile(match_pat) {
            Ok(p) => p,
            Err(e) => {
                return Err(e);
            },
        };
        let template = replace_pat.as_bytes_vec();
        Ok(
            RenameEngine {
                pattern,
                replace_text: replace_pat.to_owned(),
                template,
                targets,
                position: 0,
                halted: false,
            },
        )
    }

    /// Plans the next step. A halted engine plans nothing; an exhausted one
    /// reports completion; otherwise the current target — always the one at
    /// the position reached, so targets are handled strictly in input order —
    /// is planned as a rename, or as a skip when the substituted name equals
    /// the source name (in particular, always when the pattern does not occur
    /// in the name).
    pub fn next_action(&self) -> (s: Step)
        requires
            self.wf(),
        ensures
            s is Halted <==> self.is_halted(),
            s is Done <==> (!self.is_halted() && self.pos() == self.target_count()),
            !self.is_halted() && self.pos() < self.target_count() ==> (s is Rename
                || s is SkipSelf),
            (s matches Step::Rename { source, dest } ==> {
                &&& source@ == self.target_views()[self.pos() as int]
                &&& dest@ == self.dest_of(self.pos() as int)
                &&& dest@ != source@
            }),
            (s matches Step::SkipSelf { source } ==> {
                &&& source@ == self.target_views()[self.pos() as int]
                &&& self.dest_of(self.pos() as int) == source@
            }),
            !self.is_halted() && self.pos() < self.target_count() && !has_match(
                self.pat(),
                self.target_views()[self.pos() as int],
            ) ==> s is SkipSelf,
    {
        if self.halted {
            return Step::Halted;
        }
        if self.position == self.targets.len() {
            return Step::Done;
        }
        let source_bytes = encode(&self.targets[self.position]);
        let out = self.pattern.substitute_first(&source_bytes, &self.template);
        if bytes_equal(&out, &source_bytes) {
            Step::SkipSelf { source: decode(source_bytes) }
        } else {
            Step::Rename { source: decode(source_bytes), dest: decode(out) }
        }
    }

    /// Records that the current target is done — its rename succeeded, or it
    /// was a skip — and moves to the next target. Nothing else changes.
    pub fn record_success(&mut self)
        requires
            old(self).wf(),
            !old(self).is_halted(),
            old(self).pos() < old(self).target_count(),
        ensures
            final(self).wf(),
            final(self).pos() == old(self).pos() + 1,
            !final(self).is_halted(),
            final(self).pat() == old(self).pat(),
            final(self).tmpl() == old(self).tmpl(),
            final(self).replace_view() == old(self).replace_view(),
            final(self).target_views() == old(self).target_views(),
            final(self).target_count() == old(self).target_count(),
    {
        // the exec length is a usize, so the position below it cannot overflow
        let n: usize = self.targets.len();
        assert(self.position < n);
        self.position = self.position + 1;
    }

    /// Records that the current target's rename failed. The engine halts —
    /// every later target is left unattempted, and the position does not
    /// move — and the diagnostic line for the failure is returned: the source
    /// path, the two patterns, and the underlying error.
    pub fn record_failure(&mut self, error_text: &str) -> (d: String)
        requires
            old(self).wf(),
            !old(self).is_halted(),
            old(self).pos() < old(self).target_count(),
        ensures
            final(self).wf(),
            final(self).is_halted(),
            final(self).pos() == old(self).pos(),
            final(self).pat() == old(self).pat(),
            final(self).tmpl() == old(self).tmpl(),
            final(self).replace_view() == old(self).replace_view(),
            final(self).target_views() == old(self).target_views(),
            final(self).target_count() == old(self).target_count(),
            d@ == diagnostic_of(
                old(self).target_views()[old(self).pos() as int],
                old(self).pat(),
                old(self).replace_view(),
                error_text@,
            ),
    {
        self.halted = true;
        let mut d = lossy_text(&self.targets[self.position].bytes);
        d.append(" (");
        d.append(self.pattern.text());
        d.append(" → ");
        d.append(self.replace_text.as_str());
        d.append("): ");
        d.append(error_text);
        d
    }
}

} // verus!
