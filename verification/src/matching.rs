//! Ordered, first-match-wins rule matching.
//!
//! A [`Rule`] is a pattern that compiled successfully; pattern compilation
//! and matching are the pattern engine's (`fancy_regex`), reached through
//! the two trusted wrappers below. Whether a pattern compiles, and whether
//! it matches a text, are functions of the pattern and text alone, so both
//! results carry uninterpreted names that the rest of the library's
//! contracts are stated over.

use vstd::prelude::*;

use crate::normalize::normalize;
use crate::normalize::normalize_spec;

verus! {

/// Whether the pattern engine accepts a pattern. Compilation uses default
/// options, so acceptance depends on the pattern text alone.
pub uninterp spec fn pattern_ok(p: Seq<char>) -> bool;

/// Whether a pattern matches anywhere in a text, by the pattern engine's
/// semantics. A function of the pattern and the text alone.
pub uninterp spec fn pattern_matches(p: Seq<char>, t: Seq<char>) -> bool;

/// Whether the pattern engine completes on a pattern and a text. The
/// engine's one failure at match time is exhausting its backtrack limit, a
/// fixed constant, so completion too is a function of the pattern and the
/// text alone.
pub uninterp spec fn pattern_runs(p: Seq<char>, t: Seq<char>) -> bool;

/// Relies on `fancy_regex::Regex::new`: compiling with default options
/// either succeeds or fails deterministically in the pattern text, and the
/// error's description names what was malformed.
#[verifier::external_body]
fn compile_pattern(p: &str) -> (r: Result<(), String>)
    ensures
        r is Ok <==> pattern_ok(p@),
{
    match fancy_regex::Regex::new(p) {
        Ok(_) => Ok(()),
        Err(e) => Err(format!("{}", e)),
    }
}

/// Relies on `fancy_regex::Regex::new` and `Regex::is_match`: for a pattern
/// that compiles, `is_match` reports deterministically whether the pattern
/// matches anywhere in the text, or fails — deterministically too, since
/// its one failure is exhausting the engine's fixed backtrack limit on
/// catastrophic input — with a descriptive error.
#[verifier::external_body]
fn run_pattern(p: &str, t: &str) -> (r: Result<bool, String>)
    requires
        pattern_ok(p@),
    ensures
        r is Ok <==> pattern_runs(p@, t@),
        r matches Ok(b) ==> b == pattern_matches(p@, t@),
{
    let re = match fancy_regex::Regex::new(p) {
        Ok(re) => re,
        Err(e) => return Err(format!("{}", e)),
    };
    match re.is_match(t) {
        Ok(b) => Ok(b),
        Err(e) => Err(format!("{}", e)),
    }
}

/// A single moderation rule: a pattern the engine accepted at construction
/// time, kept with its original source text for reporting.
#[derive(Debug)]
pub struct Rule {
    pattern: String,
}

impl View for Rule {
    type V = Seq<char>;

    closed spec fn view(&self) -> Seq<char> {
        self.pattern@
    }
}

impl Rule {
    #[verifier::type_invariant]
    spec fn wf(self) -> bool {
        pattern_ok(self.pattern@)
    }

    /// Compiles a pattern into a rule. Fails exactly on the patterns the
    /// engine rejects, with the engine's description of the fault.
    pub fn new(pattern: String) -> (r: Result<Rule, String>)
        ensures
            r matches Ok(rule) ==> rule@ == pattern@ && pattern_ok(pattern@),
            r is Err ==> !pattern_ok(pattern@),
    {
        match compile_pattern(pattern.as_str()) {
            Ok(_) => Ok(Rule { pattern }),
            Err(detail) => Err(detail),
        }
    }

    /// The rule's original pattern text.
    pub fn as_str(&self) -> (r: &str)
        ensures
            r@ == self@,
    {
        self.pattern.as_str()
    }
}

/// No rule strictly before position `k` matches the text.
pub open spec fn matches_none_before(rules: Seq<Rule>, t: Seq<char>, k: int) -> bool {
    forall|j: int| 0 <= j < k ==> !pattern_matches(#[trigger] rules[j]@, t)
}

/// No rule in the whole group matches the text.
pub open spec fn no_rule_matches(rules: Seq<Rule>, t: Seq<char>) -> bool {
    matches_none_before(rules, t, rules.len() as int)
}

/// The engine completes on every rule of the group against the text: on
/// such input matching is owed a result, never an error.
pub open spec fn all_patterns_run(rules: Seq<Rule>, t: Seq<char>) -> bool {
    forall|j: int| 0 <= j < rules.len() ==> #[trigger] pattern_runs(rules[j]@, t)
}

/// A successful match: the position of the rule that fired, in declaration
/// order, and its pattern text.
#[derive(Debug)]
pub struct Matched {
    pub index: usize,
    pub pattern: String,
}

/// The pattern engine failed on some rule; its description of the fault.
#[derive(Debug)]
pub struct MatchError {
    pub detail: String,
}

/// Evaluates the rules in declaration order against the input and returns
/// the first rule that matches, or `None` when no rule matches. Rule order
/// encodes priority: when several rules match, the one declared first is
/// reported, and no rule after the reported one is consulted. Fails only
/// when the engine fails on a consulted rule; when the engine completes on
/// every rule, success is owed.
pub fn is_match(input: &str, regexes: &Vec<Rule>) -> (r: Result<Option<Matched>, MatchError>)
    ensures
        all_patterns_run(regexes@, input@) ==> r is Ok,
        r matches Ok(Some(m)) ==> m.index < regexes.len() && m.pattern@ == regexes@[m.index as int]@
            && pattern_matches(m.pattern@, input@) && matches_none_before(
            regexes@,
            input@,
            m.index as int,
        ),
        r matches Ok(None) ==> no_rule_matches(regexes@, input@),
{
    let n = regexes.len();
    let mut i: usize = 0;
    while i < n
        invariant
            n == regexes.len(),
            i <= n,
            matches_none_before(regexes@, input@, i as int),
        decreases n - i,
    {
        let rule = &regexes[i];
        proof {
            use_type_invariant(rule);
        }
        match run_pattern(rule.pattern.as_str(), input) {
            Ok(true) => {
                return Ok(Some(Matched { index: i, pattern: rule.pattern.clone() }));
            },
            Ok(false) => {},
            Err(detail) => {
                proof {
                    assert(regexes@[i as int]@ == rule.pattern@);
                    assert(!all_patterns_run(regexes@, input@));
                }
                return Err(MatchError { detail });
            },
        }
        i = i + 1;
    }
    Ok(None)
}

/// Normalizes the input first (stripping obfuscation characters), then
/// matches as [`is_match`] does. Used by the pipeline only as a fallback,
/// after a direct match found nothing.
pub fn is_match_obfuscated(input: &str, regexes: &Vec<Rule>) -> (r: Result<
    Option<Matched>,
    MatchError,
>)
    ensures
        all_patterns_run(regexes@, normalize_spec(input@)) ==> r is Ok,
        r matches Ok(Some(m)) ==> m.index < regexes.len() && m.pattern@ == regexes@[m.index as int]@
            && pattern_matches(m.pattern@, normalize_spec(input@)) && matches_none_before(
            regexes@,
            normalize_spec(input@),
            m.index as int,
        ),
        r matches Ok(None) ==> no_rule_matches(regexes@, normalize_spec(input@)),
{
    let deobfuscated = normalize(input);
    is_match(deobfuscated.as_str(), regexes)
}

} // verus!
