use aufseher::matching::{is_match, is_match_obfuscated, Rule};

fn rules(patterns: &[&str]) -> Vec<Rule> {
    patterns
        .iter()
        .map(|p| Rule::new((*p).to_string()).expect("pattern should compile"))
        .collect()
}

#[test]
fn rule_new_accepts_well_formed_patterns() {
    let rule = Rule::new("(?i)crypto".to_string()).unwrap();
    assert!(rule.as_str() == "(?i)crypto");
}

#[test]
fn rule_new_rejects_malformed_patterns() {
    assert!(Rule::new("(".to_string()).is_err());
    assert!(Rule::new("[".to_string()).is_err());
}

#[test]
fn is_match_returns_first_rule_in_declaration_order() {
    // Both the second and the third rule match; the earlier one wins.
    let group = rules(&["zzz", "spam", "spa"]);
    let m = is_match("this is spam", &group).unwrap().unwrap();
    assert!(m.index == 1);
    assert!(m.pattern == "spam");
}

#[test]
fn is_match_returns_none_when_no_rule_matches() {
    let group = rules(&["spam", "scam"]);
    assert!(is_match("hello world", &group).unwrap().is_none());
}

#[test]
fn is_match_is_literal_no_normalization() {
    let group = rules(&["spam"]);
    assert!(is_match("s\u{200B}p\u{200B}a\u{200B}m", &group).unwrap().is_none());
}

#[test]
fn is_match_obfuscated_sees_through_zero_width_padding() {
    let group = rules(&["spam"]);
    let m = is_match_obfuscated("s\u{200B}p\u{200B}a\u{200B}m", &group).unwrap().unwrap();
    assert!(m.index == 0);
    assert!(m.pattern == "spam");
}

#[test]
fn is_match_obfuscated_sees_through_emoji_padding() {
    let group = rules(&["(?i)buy now"]);
    // The emoji are stripped, the space is stripped too, so match the
    // compacted text.
    let group2 = rules(&["(?i)buynow"]);
    assert!(is_match("BUY\u{1F680}NOW", &group).unwrap().is_none());
    assert!(is_match_obfuscated("BUY\u{1F680}NOW", &group2).unwrap().unwrap().index == 0);
}
