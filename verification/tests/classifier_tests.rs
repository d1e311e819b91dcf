use aufseher::classifier::{check_reply_envelope, parse_spam_verdict, EnvelopeError};

#[test]
fn positive_spam_reply_parses_true() {
    assert!(parse_spam_verdict("{\"spam\": true}").unwrap());
}

#[test]
fn negative_spam_reply_parses_false() {
    assert!(!parse_spam_verdict("{\"spam\": false}").unwrap());
}

#[test]
fn reply_with_extra_whitespace_still_parses() {
    assert!(parse_spam_verdict("  { \"spam\" : true } ").unwrap());
}

#[test]
fn malformed_reply_is_an_error() {
    assert!(parse_spam_verdict("not json at all").is_err());
    assert!(parse_spam_verdict("").is_err());
}

#[test]
fn reply_without_spam_field_is_an_error() {
    assert!(parse_spam_verdict("{\"ham\": true}").is_err());
    assert!(parse_spam_verdict("{}").is_err());
}

#[test]
fn non_boolean_spam_field_is_an_error() {
    assert!(parse_spam_verdict("{\"spam\": \"yes\"}").is_err());
    assert!(parse_spam_verdict("{\"spam\": 1}").is_err());
}

#[test]
fn non_object_reply_is_an_error() {
    assert!(parse_spam_verdict("true").is_err());
    assert!(parse_spam_verdict("[{\"spam\": true}]").is_err());
}

#[test]
fn envelope_accepts_success_status_with_choices() {
    assert!(check_reply_envelope(200, 1).is_ok());
    assert!(check_reply_envelope(299, 5).is_ok());
}

#[test]
fn envelope_rejects_non_success_status() {
    assert!(check_reply_envelope(199, 1) == Err(EnvelopeError::RequestFailed));
    assert!(check_reply_envelope(404, 1) == Err(EnvelopeError::RequestFailed));
    assert!(check_reply_envelope(500, 0) == Err(EnvelopeError::RequestFailed));
}

#[test]
fn envelope_rejects_empty_choice_list() {
    assert!(check_reply_envelope(200, 0) == Err(EnvelopeError::NoChoices));
}
