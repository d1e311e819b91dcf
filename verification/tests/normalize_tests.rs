use aufseher::normalize::normalize;

#[test]
fn normalize_is_noop_on_plain_alphanumerics() {
    let s = "Abc123XYZ";
    assert!(normalize(s) == s);
}

#[test]
fn normalize_empty_string() {
    assert!(normalize("") == "");
}

#[test]
fn normalize_removes_ordinary_spaces_tabs_newlines() {
    assert!(normalize("a b\tc\nd") == "abcd");
}

#[test]
fn normalize_removes_zero_width_characters() {
    assert!(normalize("Crypto\u{200D}Promo") == "CryptoPromo");
    assert!(normalize("sp\u{200B}am") == "spam");
    assert!(normalize("w\u{FEFF}ord\u{2060}s") == "words");
    assert!(normalize("a\u{00A0}b\u{180E}c\u{2062}d\u{200C}e") == "abcde");
}

#[test]
fn normalize_removes_emoji() {
    assert!(normalize("buy\u{1F680}now\u{1F4B0}!") == "buynow!");
    assert!(normalize("\u{2705}ok\u{2764}") == "ok");
    assert!(normalize("\u{1F004}\u{1F0CF}\u{1F18E}\u{1F191}x") == "x");
}

#[test]
fn normalize_removes_non_text_marks() {
    // Control characters and variation selectors are neither letters,
    // numbers, punctuation nor separators.
    assert!(normalize("a\u{0007}b") == "ab");
    assert!(normalize("c\u{FE0F}d") == "cd");
}

#[test]
fn normalize_keeps_letters_numbers_punctuation() {
    assert!(normalize("don't.stop-me_now!") == "don't.stop-me_now!");
    assert!(normalize("\u{00E9}l\u{00E8}ve") == "\u{00E9}l\u{00E8}ve");
}

#[test]
fn normalize_is_idempotent() {
    let inputs = [
        "Crypto\u{200D}Promo",
        "a b\tc",
        "buy\u{1F680}now",
        "",
        "plain",
        "x\u{0007}\u{FE0F} \u{200B}\u{1F600}y",
    ];
    for s in inputs {
        let once = normalize(s);
        let twice = normalize(&once);
        assert!(twice == once, "normalization of '{}' was not idempotent", s);
    }
}
