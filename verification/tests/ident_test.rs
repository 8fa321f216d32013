use verisimiser::codegen::ident::{display_truncated, validate_identifier};

#[test]
fn valid_identifiers_pass() {
    for ok in ["posts", "users", "Order", "_internal", "user_2024", "T", "a_b_c_d"] {
        validate_identifier(ok, "table").unwrap_or_else(|e| panic!("{ok} should pass: {e}"));
    }
}

#[test]
fn injection_strings_rejected() {
    let attacks = [
        "posts'); DROP TABLE x;--",
        "posts; DROP TABLE x;",
        "posts--",
        "1posts",
        "",
        "posts table",
        "posts;",
        "posts'",
        "posts\"x\"",
        "posts/*x*/",
        "posts\nx",
        "posts\tx",
        "posts UNION SELECT 1",
        "ünicode",
        "posts.col",
        "posts(",
    ];
    for attack in attacks {
        let result = validate_identifier(attack, "table");
        assert!(result.is_err(), "injection string {attack:?} must be rejected");
    }
}

#[test]
fn overlong_identifiers_rejected() {
    let long = "a".repeat(64);
    let err = validate_identifier(&long, "column").unwrap_err();
    assert!(err.to_string().contains("too long"), "expected length error, got: {err}");
}

#[test]
fn error_names_offending_identifier() {
    let err = validate_identifier("bad name", "table").unwrap_err();
    let msg = err.to_string();
    assert!(msg.contains("bad name"), "error must name the offending identifier; got: {msg}");
    assert!(msg.contains("table"), "error must name the kind; got: {msg}");
}

#[test]
fn error_texts_are_exact() {
    assert_eq!(validate_identifier("", "table name").unwrap_err(), "invalid table name: empty identifier");
    assert_eq!(
        validate_identifier("9x", "column name").unwrap_err(),
        "invalid column name '9x': must start with a letter or underscore"
    );
    assert_eq!(
        validate_identifier("a b", "table").unwrap_err(),
        "invalid table 'a b': contains disallowed character ' ' (only [A-Za-z0-9_] permitted)"
    );
    assert_eq!(
        validate_identifier("a\nb", "table").unwrap_err(),
        "invalid table 'a\nb': contains disallowed character '\\n' (only [A-Za-z0-9_] permitted)"
    );
    let long = "b".repeat(64);
    assert_eq!(
        validate_identifier(&long, "table").unwrap_err(),
        format!("invalid table '{}…': identifier too long (64 > 63 chars)", "b".repeat(60))
    );
}

#[test]
fn sixty_three_bytes_is_the_limit() {
    let max = "z".repeat(63);
    assert_eq!(validate_identifier(&max, "table").unwrap(), max.as_str());
}

#[test]
fn truncation_keeps_sixty_bytes_and_marks_the_cut() {
    assert_eq!(display_truncated("short"), "short");
    let s = "x".repeat(61);
    assert_eq!(display_truncated(&s), format!("{}…", "x".repeat(60)));
    let exact = "y".repeat(60);
    assert_eq!(display_truncated(&exact), exact);
}

#[test]
fn truncation_cuts_at_the_last_whole_character() {
    // 59 ASCII bytes then a 2-byte character straddling byte 60.
    let s = format!("{}é{}", "a".repeat(59), "b".repeat(10));
    assert_eq!(display_truncated(&s), format!("{}…", "a".repeat(59)));
    let err = validate_identifier(&s, "table name").unwrap_err();
    assert!(err.contains("table name"));
    assert!(err.contains(&format!("'{}…'", "a".repeat(59))));
}
