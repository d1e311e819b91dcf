//! Interpretation of the external semantic classifier's reply.
//!
//! The classifier is consulted over the network by the surrounding
//! program; its reply is expected to be a JSON object with a single
//! boolean `spam` field. Reading that field out of the reply text is the
//! JSON parser's work, reached through a trusted wrapper; deciding what
//! the field means is verified here. Any other shape of reply is a hard
//! error for that call only, which the caller treats as "no verdict".

use vstd::prelude::*;

verus! {

/// The boolean `spam` field of the reply text, when the text is a JSON
/// object carrying one; a function of the text alone.
pub uninterp spec fn spam_verdict_of(s: Seq<char>) -> Option<bool>;

/// Relies on `serde_json::from_str`, `Value::get` and `Value::as_bool`:
/// parsing a text and reading a field of the resulting object depend on
/// the text alone.
#[verifier::external_body]
fn parse_spam_field(reply: &str) -> (r: Option<bool>)
    ensures
        r == spam_verdict_of(reply@),
{
    match serde_json::from_str::<serde_json::Value>(reply) {
        Ok(v) => match v.get("spam") {
            Some(field) => field.as_bool(),
            None => None,
        },
        Err(_) => None,
    }
}

/// How the classifier transport's reply envelope can be unusable: the
/// request did not succeed, or the reply carried no completion choice.
#[derive(Clone, Copy, PartialEq, Eq, Structural, Debug)]
pub enum EnvelopeError {
    RequestFailed,
    NoChoices,
}

/// Decides whether the transport reply's envelope is usable: exactly when
/// the status signals success (the 2xx range) and at least one completion
/// choice came back. Either fault is a hard error for that call only, a
/// failed request reported ahead of an empty choice list.
pub fn check_reply_envelope(status: u16, choice_count: usize) -> (r: Result<(), EnvelopeError>)
    ensures
        r is Ok <==> (200 <= status <= 299 && choice_count > 0),
        r matches Err(e) ==> (e is RequestFailed <==> !(200 <= status <= 299)),
{
    if status < 200 || status > 299 {
        Err(EnvelopeError::RequestFailed)
    } else if choice_count == 0 {
        Err(EnvelopeError::NoChoices)
    } else {
        Ok(())
    }
}

/// The classifier's reply did not carry a boolean `spam` field.
#[derive(Clone, Copy, PartialEq, Eq, Structural, Debug)]
pub struct ClassifierError {}

/// Reads the classifier's boolean verdict out of its reply text. Succeeds
/// exactly when the reply is a JSON object with a boolean `spam` field;
/// any other shape is an error, which the pipeline treats as no verdict
/// (it never enforces on a malformed reply).
pub fn parse_spam_verdict(reply: &str) -> (r: Result<bool, ClassifierError>)
    ensures
        r matches Ok(b) ==> spam_verdict_of(reply@) == Some(b),
        r is Err <==> spam_verdict_of(reply@) is None,
{
    match parse_spam_field(reply) {
        Some(b) => Ok(b),
        None => Err(ClassifierError {}),
    }
}

} // verus!
