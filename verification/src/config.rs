//! Configuration: the two rule groups (identity patterns tested against
//! displayed names, content patterns tested against message text), compiled
//! once at startup, plus the credentials the surrounding program needs.
//!
//! A malformed pattern is rejected here, at construction time, never at
//! match time; the error names the offending pattern and the list it came
//! from, so startup can abort with a descriptive message.

use vstd::prelude::*;
use vstd::string::StringExecFns;

use crate::matching::pattern_ok;
use crate::matching::Rule;

verus! {

/// Which of the two rule lists a pattern came from.
#[derive(Clone, Copy, PartialEq, Eq, Structural, Debug)]
pub enum RuleList {
    Names,
    Messages,
}

/// A malformed pattern found while building a [`Config`]: the list it came
/// from, its position there, its text, and the engine's description of the
/// fault.
#[derive(Debug)]
pub struct ConfigError {
    pub list: RuleList,
    pub index: usize,
    pub pattern: String,
    pub detail: String,
}

/// The word used for a rule list in error messages.
pub open spec fn list_name(l: RuleList) -> Seq<char> {
    match l {
        RuleList::Names => "name"@,
        RuleList::Messages => "message"@,
    }
}

/// The full text of a configuration error message.
pub open spec fn describe_spec(e: ConfigError) -> Seq<char> {
    "invalid "@ + list_name(e.list) + " pattern '"@ + e.pattern@ + "': "@ + e.detail@
}

impl ConfigError {
    /// A descriptive message naming the offending pattern and its list.
    pub fn describe(&self) -> (r: String)
        ensures
            r@ == describe_spec(*self),
    {
        let mut r = String::from_str("invalid ");
        match self.list {
            RuleList::Names => r.append("name"),
            RuleList::Messages => r.append("message"),
        }
        r.append(" pattern '");
        r.append(self.pattern.as_str());
        r.append("': ");
        r.append(self.detail.as_str());
        r
    }
}

/// Every pattern in a list is one the engine accepts.
pub open spec fn all_patterns_ok(patterns: Seq<String>) -> bool {
    forall|i: int| 0 <= i < patterns.len() ==> pattern_ok(#[trigger] patterns[i]@)
}

/// Compiles a whole pattern list, stopping at the first malformed pattern.
fn compile_rules(patterns: &Vec<String>) -> (r: Result<Vec<Rule>, (usize, String)>)
    ensures
        r matches Ok(rules) ==> rules.len() == patterns.len() && all_patterns_ok(patterns@) && (
        forall|i: int| 0 <= i < patterns@.len() ==> #[trigger] rules@[i]@ == patterns@[i]@),
        r matches Err(e) ==> e.0 < patterns.len() && !pattern_ok(patterns@[e.0 as int]@) && (forall|
            j: int,
        | 0 <= j < e.0 ==> pattern_ok(#[trigger] patterns@[j]@)),
{
    let n = patterns.len();
    let mut rules: Vec<Rule> = Vec::new();
    let mut i: usize = 0;
    while i < n
        invariant
            n == patterns.len(),
            i <= n,
            rules.len() == i,
            forall|j: int| 0 <= j < i ==> pattern_ok(#[trigger] patterns@[j]@),
            forall|j: int| 0 <= j < i ==> #[trigger] rules@[j]@ == patterns@[j]@,
        decreases n - i,
    {
        match Rule::new(patterns[i].clone()) {
            Ok(rule) => {
                rules.push(rule);
            },
            Err(detail) => {
                return Err((i, detail));
            },
        }
        i = i + 1;
    }
    Ok(rules)
}

/// The engine's shared, read-only state: the two compiled rule groups and
/// the credentials for the transport and the optional external classifier.
/// Built once at process start and shared by every evaluation.
#[derive(Debug)]
pub struct Config {
    pub token: String,
    pub openai_api_key: Option<String>,
    pub name_regexes: Vec<Rule>,
    pub message_regexes: Vec<Rule>,
}

impl Config {
    /// Compiles both pattern lists into a configuration. Succeeds exactly
    /// when every pattern is well formed; otherwise reports the first
    /// malformed pattern, searching the name list before the message list.
    pub fn new(
        token: String,
        openai_api_key: Option<String>,
        name_patterns: Vec<String>,
        message_patterns: Vec<String>,
    ) -> (r: Result<Config, ConfigError>)
        ensures
            r is Ok <==> all_patterns_ok(name_patterns@) && all_patterns_ok(message_patterns@),
            r matches Ok(c) ==> {
                &&& c.token == token
                &&& c.openai_api_key == openai_api_key
                &&& c.name_regexes.len() == name_patterns.len()
                &&& forall|i: int|
                    0 <= i < name_patterns@.len() ==> #[trigger] c.name_regexes@[i]@
                        == name_patterns@[i]@
                &&& c.message_regexes.len() == message_patterns.len()
                &&& forall|i: int|
                    0 <= i < message_patterns@.len() ==> #[trigger] c.message_regexes@[i]@
                        == message_patterns@[i]@
            },
            r matches Err(e) ==> {
                &&& e.list is Names ==> e.index < name_patterns.len() && e.pattern@
                    == name_patterns@[e.index as int]@ && !pattern_ok(
                    name_patterns@[e.index as int]@,
                ) && (forall|j: int|
                    0 <= j < e.index ==> pattern_ok(#[trigger] name_patterns@[j]@))
                &&& e.list is Messages ==> all_patterns_ok(name_patterns@) && e.index
                    < message_patterns.len() && e.pattern@ == message_patterns@[e.index as int]@
                    && !pattern_ok(message_patterns@[e.index as int]@) && (forall|j: int|
                    0 <= j < e.index ==> pattern_ok(#[trigger] message_patterns@[j]@))
            },
    {
        let name_regexes = match compile_rules(&name_patterns) {
            Ok(rules) => rules,
            Err((index, detail)) => {
                return Err(
                    ConfigError {
                        list: RuleList::Names,
                        index,
                        pattern: name_patterns[index].clone(),
                        detail,
                    },
                );
            },
        };
        let message_regexes = match compile_rules(&message_patterns) {
            Ok(rules) => rules,
            Err((index, detail)) => {
                return Err(
                    ConfigError {
                        list: RuleList::Messages,
                        index,
                        pattern: message_patterns[index].clone(),
                        detail,
                    },
                );
            },
        };
        Ok(Config { token, openai_api_key, name_regexes, message_regexes })
    }

    /// Whether the external classifier is configured.
    pub fn classifier_configured(&self) -> (r: bool)
        ensures
            r == (self.openai_api_key is Some),
    {
        self.openai_api_key.is_some()
    }
}

} // verus!
