use drip_net::polite::polite;

#[test]
fn apollo_is_polite_toward_zeus() {
    assert!(polite("apollo", "zeus"));
    assert!(!polite("zeus", "apollo"));
}

#[test]
fn exactly_one_side_is_polite() {
    let pairs = [
        ("alpha", "beta"),
        ("laptop-3", "laptop-12"),
        ("a", "ab"),
        ("", "anything"),
        ("Zeus", "apollo"),
    ];
    for (a, b) in pairs {
        assert_ne!(polite(a, b), polite(b, a), "pair {a:?} / {b:?}");
    }
}

#[test]
fn comparison_is_case_insensitive() {
    // "APOLLO" folds below "zeus" even though 'A' < 'z' would also hold
    // byte-wise; the reverse pair checks folding of the other side.
    assert!(polite("APOLLO", "zeus"));
    assert!(!polite("ZEUS", "apollo"));
    assert!(polite("apollo", "ZEUS"));
}

#[test]
fn shorter_prefix_sorts_lower() {
    assert!(polite("abc", "abcd"));
    assert!(!polite("abcd", "abc"));
}

#[test]
fn ids_equal_after_folding_give_no_role() {
    // Distinct ids that fold to the same letters: neither side sorts lower,
    // so neither is polite. Discovery never pairs such ids meaningfully.
    assert!(!polite("Garden", "gARDEN"));
    assert!(!polite("gARDEN", "Garden"));
}

#[test]
fn role_depends_only_on_the_ids() {
    // Pure function: repeated calls agree.
    for _ in 0..3 {
        assert!(polite("apollo", "zeus"));
    }
}
